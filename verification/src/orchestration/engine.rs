//! The engine: the one registry and the configuration that was loaded.

use crate::entity::{ConfigEntry, ConfigValue, PatternAndType, PatternMatchResult, Registerable};
use crate::errors::SdkError;
use crate::orchestration::model::{resolves, Entries, RegistryMapImplementation};
use crate::traits::domain::Domain;
use crate::traits::registry::Registry;
use std::sync::Arc;
use vstd::prelude::*;

verus! {

/// The top-level configuration document.
#[derive(Debug)]
pub struct AppConfigJson5 {
    /// The settings of the engine itself.
    pub global: ConfigValue,
    /// The settings of the plugins, one entry for each, keyed by the plugin's key.
    pub plugins: Vec<ConfigEntry>,
}

/// What came of reading a configuration file and decoding its text.
pub enum ConfigLoad {
    /// The file could not be read; the cause.
    Unreadable(String),
    /// The text is no configuration document; the cause.
    Malformed(String),
    /// The document.
    Parsed(AppConfigJson5),
}

/// What a configuration file that could not be loaded reports: the file,
/// then the cause.
pub open spec fn spec_load_failure(config_file: Seq<char>, cause: Seq<char>) -> Seq<char> {
    config_file + " - "@ + cause
}

/// The error for a configuration file that could not be loaded: it names the
/// file, so that the caller can tell which source to replace.
pub fn config_load_failure(config_file: &str, cause: &str) -> (error: SdkError)
    ensures
        error matches SdkError::InvalidConfig(detail) && detail@ == spec_load_failure(
            config_file@,
            cause@,
        ),
{
    let mut detail = String::from_str(config_file);
    detail.append(" - ");
    detail.append(cause);
    SdkError::InvalidConfig(detail)
}

/// What the handler of an address offers and what its matcher found.
pub struct Extraction {
    /// The capabilities of the handler; its storage keeps what was found.
    pub offer: Registerable,
    /// What the handler's matcher found.
    pub results: Vec<PatternMatchResult>,
}

/// `extraction` is what `domain` offers together with what the matcher of
/// the offer may find for `patterns`: nothing where the offer has no matcher.
pub open spec fn extracts(
    domain: &Arc<dyn Domain>,
    patterns: Seq<PatternAndType>,
    extraction: &Extraction,
) -> bool {
    &&& domain.may_offer(&extraction.offer)
    &&& match extraction.offer.matcher {
        Some(matcher) => matcher.may_yield(patterns, extraction.results@),
        None => extraction.results@.len() == 0,
    }
}

/// Owns the registry and the configuration.
pub struct Engine {
    registry: RegistryMapImplementation,
    config: Option<AppConfigJson5>,
}

impl Engine {
    /// What the engine's registry holds.
    pub closed spec fn registry_view(&self) -> Entries {
        self.registry@
    }

    /// The configuration that the engine holds.
    pub closed spec fn spec_config(&self) -> Option<AppConfigJson5> {
        self.config
    }

    /// An engine with an empty registry and no configuration.
    pub fn new() -> (engine: Self)
        ensures
            engine.registry_view().len() == 0,
            engine.spec_config() is None,
    {
        Engine { registry: RegistryMapImplementation::new(), config: None }
    }

    /// The engine's registry, the only one there is.
    pub fn registry(&mut self) -> (registry: &mut RegistryMapImplementation)
        ensures
            registry@ == old(self).registry_view(),
            final(self).registry_view() == final(registry)@,
            final(self).spec_config() == old(self).spec_config(),
    {
        &mut self.registry
    }

    /// The configuration that was loaded last, if one was.
    pub fn config(&self) -> (config: Option<&AppConfigJson5>)
        ensures
            match config {
                Some(held) => self.spec_config() == Some(*held),
                None => self.spec_config() is None,
            },
    {
        self.config.as_ref()
    }

    /// Routes `url` to its handler and asks the handler's matcher for every
    /// match of `patterns`. `None` says that no handler owns the address. What
    /// was found is handed back with the handler's capabilities, so that the
    /// caller can hand each match and its bytes to the storage.
    pub fn extract(&self, url: &str, patterns: &[PatternAndType]) -> (outcome: Option<Extraction>)
        ensures
            match outcome {
                Some(extraction) => exists|domain: Arc<dyn Domain>|
                    {
                        let found = Some(domain);
                        resolves(self.registry_view(), url@, found) && #[trigger] extracts(
                            &domain,
                            patterns@,
                            &extraction,
                        )
                    },
                None => resolves(self.registry_view(), url@, None),
            },
    {
        match self.registry.resolve_domain(url) {
            Some(domain) => {
                let offer = domain.get_domain_registerable();
                let results = offer.match_patterns(patterns);
                let extraction = Extraction { offer, results };
                assert(extracts(&domain, patterns@, &extraction));
                Some(extraction)
            },
            None => None,
        }
    }

    /// Takes in what came of loading the configuration file `config_file`. A
    /// document is kept and handed back. A file that could not be read and a
    /// text that is no document are `InvalidConfig` errors that name the file
    /// and the cause; they leave the engine as it was.
    pub fn config_load(&mut self, config_file: &str, loaded: ConfigLoad) -> (outcome: Result<
        &AppConfigJson5,
        SdkError,
    >)
        ensures
            final(self).registry_view() == old(self).registry_view(),
            match loaded {
                ConfigLoad::Unreadable(cause) => {
                    &&& final(self).spec_config() == old(self).spec_config()
                    &&& outcome matches Err(SdkError::InvalidConfig(detail))
                    &&& detail@ == spec_load_failure(config_file@, cause@)
                },
                ConfigLoad::Malformed(cause) => {
                    &&& final(self).spec_config() == old(self).spec_config()
                    &&& outcome matches Err(SdkError::InvalidConfig(detail))
                    &&& detail@ == spec_load_failure(config_file@, cause@)
                },
                ConfigLoad::Parsed(document) => {
                    &&& final(self).spec_config() == Some(document)
                    &&& outcome matches Ok(held)
                    &&& *held == document
                },
            },
    {
        match loaded {
            ConfigLoad::Unreadable(cause) => Err(config_load_failure(config_file, cause.as_str())),
            ConfigLoad::Malformed(cause) => Err(config_load_failure(config_file, cause.as_str())),
            ConfigLoad::Parsed(document) => {
                self.config = Some(document);
                match &self.config {
                    Some(held) => Ok(held),
                    None => unreached(),
                }
            },
        }
    }
}

} // verus!
