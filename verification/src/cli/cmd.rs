//! The commands.

use crate::cli::engine::{build_engine, spec_setup_failure};
use crate::cli::entity::ScrapArgs;
use crate::errors::SdkError;
use crate::orchestration::engine::ConfigLoad;
use crate::sites::wikipedia::WIKI_DOMAIN_KEY;
use crate::traits::Registry;
use vstd::prelude::*;

verus! {

/// Scrapes the address that `args` names. No handler is asked yet: the
/// command accepts every address.
pub fn scrap(args: ScrapArgs) -> (outcome: Result<(), SdkError>)
    ensures
        outcome == Ok::<(), SdkError>(()),
{
    Ok(())
}

/// The keys of the handlers that an engine set up from `loaded` registers:
/// the key of the Wikipedia handler. What stops the setup stops the listing.
pub fn list_domains(config_file: &str, loaded: ConfigLoad) -> (listed: Result<
    Vec<String>,
    SdkError,
>)
    ensures
        match spec_setup_failure(config_file@, loaded) {
            Some(reason) => listed matches Err(SdkError::InvalidConfig(detail)) && detail@
                == reason,
            None => listed matches Ok(keys) && keys@.len() == 1 && keys@[0]@
                == WIKI_DOMAIN_KEY@,
        },
{
    match build_engine(config_file, loaded) {
        Ok(engine) => {
            let mut engine = engine;
            let keys = engine.registry().list_registered_domains();
            Ok(keys)
        },
        Err(error) => Err(error),
    }
}

} // verus!
