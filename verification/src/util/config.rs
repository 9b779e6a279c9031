//! Configuration sources: which file is read where none is named, and what a
//! failed load reports.

use crate::errors::SdkError;
use vstd::prelude::*;

verus! {

/// The environment file read where none is named.
pub const DEFAULT_ENV_FILE: &'static str = ".env";

/// The JSON configuration file read where none is named.
pub const DEFAULT_JSON_FILE: &'static str = "config.json";

/// The environment file to read: the one named, or the default one.
pub fn env_file_or_default(env_file: Option<String>) -> (file: String)
    ensures
        file@ == match env_file {
            Some(named) => named@,
            None => DEFAULT_ENV_FILE@,
        },
{
    match env_file {
        Some(named) => named,
        None => String::from_str(DEFAULT_ENV_FILE),
    }
}

/// The JSON configuration file to read: the one named, or the default one.
pub fn json_file_or_default(json_file: Option<String>) -> (file: String)
    ensures
        file@ == match json_file {
            Some(named) => named@,
            None => DEFAULT_JSON_FILE@,
        },
{
    match json_file {
        Some(named) => named,
        None => String::from_str(DEFAULT_JSON_FILE),
    }
}

/// What a failed load of the environment file `env_file` says, given the cause.
pub open spec fn spec_env_failure(env_file: Seq<char>, cause: Seq<char>) -> Seq<char> {
    "Failed to load environment variables, make sure the env file "@ + env_file + " exists - "@
        + cause
}

/// What a failed load of the JSON file `json_file` says, given the cause.
pub open spec fn spec_json_failure(json_file: Seq<char>, cause: Seq<char>) -> Seq<char> {
    "Failed to load JSON configuration, make sure the file "@ + json_file + " exists - "@ + cause
}

/// The error for an environment file that could not be loaded.
pub fn env_load_failure(env_file: &str, cause: &str) -> (error: SdkError)
    ensures
        error matches SdkError::NotFound(detail) && detail@ == spec_env_failure(
            env_file@,
            cause@,
        ),
{
    let mut detail = String::from_str(
        "Failed to load environment variables, make sure the env file ",
    );
    detail.append(env_file);
    detail.append(" exists - ");
    detail.append(cause);
    SdkError::NotFound(detail)
}

/// The error for a JSON configuration file that could not be read.
pub fn json_load_failure(json_file: &str, cause: &str) -> (error: SdkError)
    ensures
        error matches SdkError::NotFound(detail) && detail@ == spec_json_failure(
            json_file@,
            cause@,
        ),
{
    let mut detail = String::from_str("Failed to load JSON configuration, make sure the file ");
    detail.append(json_file);
    detail.append(" exists - ");
    detail.append(cause);
    SdkError::NotFound(detail)
}

/// What loading the environment file reports: nothing on success, since the
/// values then stand in the environment, and a `NotFound` error on failure.
pub fn load_from_env(env_file: &str, loaded: Result<(), String>) -> (outcome: Result<
    Option<String>,
    SdkError,
>)
    ensures
        match loaded {
            Ok(_) => outcome matches Ok(None),
            Err(cause) => outcome matches Err(SdkError::NotFound(detail)) && detail@
                == spec_env_failure(env_file@, cause@),
        },
{
    match loaded {
        Ok(_) => Ok(None),
        Err(cause) => Err(env_load_failure(env_file, cause.as_str())),
    }
}

/// What loading the JSON file reports: the file's text as it was read, or a
/// `NotFound` error.
pub fn load_from_json(json_file: &str, read: Result<String, String>) -> (outcome: Result<
    Option<String>,
    SdkError,
>)
    ensures
        match read {
            Ok(text) => outcome matches Ok(Some(content)) && content == text,
            Err(cause) => outcome matches Err(SdkError::NotFound(detail)) && detail@
                == spec_json_failure(json_file@, cause@),
        },
{
    match read {
        Ok(text) => Ok(Some(text)),
        Err(cause) => Err(json_load_failure(json_file, cause.as_str())),
    }
}

} // verus!
