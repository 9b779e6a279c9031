//! Setting the engine up: the configuration goes in, the site plugins are
//! configured and registered.

use crate::entity::{spec_config_lookup, Registerable};
use crate::errors::SdkError;
use crate::orchestration::engine::{
    config_load_failure, spec_load_failure, AppConfigJson5, ConfigLoad, Engine,
};
use crate::orchestration::model::{shared_from_box, Entries};
use crate::sites::wikipedia::{
    spec_wikipedia_answer, spec_wikipedia_offer, WikipediaConfig, WikipediaInstance,
    WIKI_DOMAIN_KEY,
};
use crate::traits::{Config, Domain};
use vstd::prelude::*;

verus! {

/// The configuration file read where none is named.
pub const DEFAULT_CONFIG_FILE: &'static str = "config.json5";

/// The configuration file to read: the one named, or the default one.
pub fn config_file_or_default(config_file: Option<String>) -> (file: String)
    ensures
        file@ == match config_file {
            Some(named) => named@,
            None => DEFAULT_CONFIG_FILE@,
        },
{
    match config_file {
        Some(named) => named,
        None => String::from_str(DEFAULT_CONFIG_FILE),
    }
}

/// The settings that the Wikipedia handler takes from `document`, or what is
/// wrong with its block: the defaults where the document has no block for it.
pub open spec fn spec_wikipedia_settings(document: AppConfigJson5) -> Result<
    WikipediaConfig,
    Seq<char>,
> {
    match spec_config_lookup(document.plugins@, WIKI_DOMAIN_KEY@) {
        None => Ok(WikipediaConfig { need_content: false }),
        Some(block) => WikipediaConfig::spec_decode(block),
    }
}

/// Why no engine can be set up from what came of loading `config_file`, if
/// there is a reason: the file could not be read, its text is no document, or
/// the block of a plugin does not decode. The reason names the file, then
/// the cause.
pub open spec fn spec_setup_failure(config_file: Seq<char>, loaded: ConfigLoad) -> Option<
    Seq<char>,
> {
    match loaded {
        ConfigLoad::Unreadable(cause) => Some(spec_load_failure(config_file, cause@)),
        ConfigLoad::Malformed(cause) => Some(spec_load_failure(config_file, cause@)),
        ConfigLoad::Parsed(document) => match spec_wikipedia_settings(document) {
            Ok(_) => None,
            Err(reason) => Some(spec_load_failure(config_file, reason)),
        },
    }
}

/// What the registry of a fresh engine holds: the Wikipedia handler with the
/// settings `settings`, under its own key.
pub open spec fn spec_site_registry(entries: Entries, settings: WikipediaConfig) -> bool {
    &&& entries.len() == 1
    &&& entries[0].0 == WIKI_DOMAIN_KEY@
    &&& forall|url: Seq<char>, answer: Result<bool, SdkError>| #[trigger]
        entries[0].1.may_answer(url, answer) == spec_wikipedia_answer(url, answer)
    &&& forall|key: Seq<char>| #[trigger] entries[0].1.may_name(key) == (key == WIKI_DOMAIN_KEY@)
    &&& forall|offer: &Registerable| #[trigger]
        entries[0].1.may_offer(offer) == spec_wikipedia_offer(settings.need_content, offer)
}

/// Sets the engine up from what came of loading the configuration file
/// `config_file`: keeps the document, lets the Wikipedia handler take its
/// settings from it and registers the handler under its own key. A
/// configuration that could not be loaded, or a block that does not decode,
/// is an `InvalidConfig` error that names the file; no engine is handed back
/// then.
pub fn build_engine(config_file: &str, loaded: ConfigLoad) -> (built: Result<Engine, SdkError>)
    ensures
        match spec_setup_failure(config_file@, loaded) {
            Some(reason) => built matches Err(SdkError::InvalidConfig(detail)) && detail@
                == reason,
            None => {
                &&& built matches Ok(engine)
                &&& engine.spec_config() == Some(loaded->Parsed_0)
                &&& spec_site_registry(
                    engine.registry_view(),
                    spec_wikipedia_settings(loaded->Parsed_0)->Ok_0,
                )
            },
        },
{
    let mut engine = Engine::new();
    let mut wikipedia = WikipediaInstance::new();
    match engine.config_load(config_file, loaded) {
        Ok(document) => match wikipedia.load(&document.plugins) {
            Ok(_) => {},
            Err(SdkError::InvalidConfig(reason)) => {
                return Err(config_load_failure(config_file, reason.as_str()));
            },
            Err(error) => {
                return Err(error);
            },
        },
        Err(error) => {
            return Err(error);
        },
    }
    let key = wikipedia.get_domain_key();
    let owned: Box<dyn Domain> = Box::new(wikipedia);
    let handler = shared_from_box(owned);
    let entry = (key, handler);
    engine.registry().insert(entry);
    Ok(engine)
}

} // verus!
