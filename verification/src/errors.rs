//! The closed set of error kinds that crosses every capability boundary.

use vstd::prelude::*;

verus! {

/// Declares `std::io::Error`, which the storage kind carries through unread.
#[verifier::external_type_specification]
#[verifier::external_body]
pub struct ExIoError(std::io::Error);

/// The error kinds shared by the engine, the site plugins and the command line.
#[derive(Debug)]
pub enum SdkError {
    /// Transport-level failure: connection, timeout, DNS, a status that is not a success.
    Network(String),
    /// Structural content could not be decoded.
    Parse(String),
    /// A referenced resource does not exist.
    NotFound(String),
    /// The site's structure is recognised but not handled.
    Unsupported(String),
    /// The remote side asks the caller to back off and retry later.
    RateLimited,
    /// Credentials are required or were refused.
    Authentication,
    /// A plugin-specific failure.
    Site(String),
    /// The persistence layer failed.
    Storage(std::io::Error),
    /// A configuration document or a plugin's settings did not decode.
    InvalidConfig(String),
    /// Anything that fits no other kind.
    Other(String),
}

impl SdkError {
    /// The text that every kind but `Storage` shows: a fixed prefix followed by
    /// the detail the error carries. A storage error shows what the underlying
    /// I/O error shows, which this function leaves empty.
    pub open spec fn spec_message(&self) -> Seq<char> {
        match self {
            SdkError::Network(detail) => "network error: "@ + detail@,
            SdkError::Parse(detail) => "parse error: "@ + detail@,
            SdkError::NotFound(detail) => "not found: "@ + detail@,
            SdkError::Unsupported(detail) => "unsupported site structure: "@ + detail@,
            SdkError::RateLimited => "rate limited"@,
            SdkError::Authentication => "authentication failed"@,
            SdkError::Site(detail) => "site error: "@ + detail@,
            SdkError::Storage(_) => Seq::empty(),
            SdkError::InvalidConfig(detail) => "invalid config: "@ + detail@,
            SdkError::Other(detail) => "unknown error: "@ + detail@,
        }
    }

    /// The human-readable text of the error.
    pub fn to_string(&self) -> (text: String)
        ensures
            !(self is Storage) ==> text@ == self.spec_message(),
    {
        match self {
            SdkError::Network(detail) => prefixed("network error: ", detail),
            SdkError::Parse(detail) => prefixed("parse error: ", detail),
            SdkError::NotFound(detail) => prefixed("not found: ", detail),
            SdkError::Unsupported(detail) => prefixed("unsupported site structure: ", detail),
            SdkError::RateLimited => String::from_str("rate limited"),
            SdkError::Authentication => String::from_str("authentication failed"),
            SdkError::Site(detail) => prefixed("site error: ", detail),
            SdkError::Storage(cause) => io_error_text(cause),
            SdkError::InvalidConfig(detail) => prefixed("invalid config: ", detail),
            SdkError::Other(detail) => prefixed("unknown error: ", detail),
        }
    }
}

/// `prefix` followed by `detail`.
fn prefixed(prefix: &str, detail: &String) -> (text: String)
    ensures
        text@ == prefix@ + detail@,
{
    let mut text = String::from_str(prefix);
    text.append(detail.as_str());
    text
}

/// The `Display` text of a `std::io::Error`. The text of an operating-system
/// error comes from the platform, so nothing is claimed of it.
#[verifier::external_body]
fn io_error_text(cause: &std::io::Error) -> String {
    cause.to_string()
}

impl From<std::io::Error> for SdkError {
    fn from(cause: std::io::Error) -> (error: Self) {
        SdkError::Storage(cause)
    }
}

impl vstd::std_specs::convert::FromSpecImpl<std::io::Error> for SdkError {
    open spec fn obeys_from_spec() -> bool {
        true
    }

    open spec fn from_spec(cause: std::io::Error) -> Self {
        SdkError::Storage(cause)
    }
}

} // verus!
