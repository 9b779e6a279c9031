//! The handler for Wikipedia pages.

use crate::entity::{
    config_lookup, spec_config_lookup, ConfigEntry, ConfigValue, PatternAndType,
    PatternMatchResult, PatternType, Registerable,
};
use crate::errors::SdkError;
use crate::sites::pattern::{regex_compiles, regex_matches, AddressPattern};
use crate::traits::{Config, Domain, Matcher};
use vstd::prelude::*;

verus! {

/// The addresses the handler owns: `https` only, any run of subdomains of
/// `wikipedia.org`, any path on one line.
pub const WIKI_ADDRESS_PATTERN: &'static str = "^https://([a-zA-Z0-9-]+\\.)*wikipedia\\.org(/.*)?$";

/// The key under which the handler registers.
pub const WIKI_DOMAIN_KEY: &'static str = "wikipedia";

/// The selector of a page's images.
pub const WIKI_IMAGE_PATTERN: &'static str = "img";

/// The selector of a page's text.
pub const WIKI_CONTENT_PATTERN: &'static str = "#mw-content-text";

/// The setting that asks for a page's text.
pub const WIKI_NEED_CONTENT: &'static str = "need_content";

/// What a settings block that is neither a table nor a list reports.
pub const WIKI_NOT_A_TABLE: &'static str =
    "invalid type: expected the settings of wikipedia as a table or a list";

/// What a settings block reports that is a list of more than one value.
pub const WIKI_TOO_LONG: &'static str =
    "invalid length: expected the settings of wikipedia as a list of one value at most";

/// What a `need_content` that is no truth value reports.
pub const WIKI_NOT_A_BOOL: &'static str = "invalid type: expected need_content as a boolean";

/// What the handler reports where its address pattern does not compile.
pub const WIKI_BAD_PATTERN: &'static str = "the address pattern of wikipedia does not compile";

/// The settings of the handler.
#[derive(Debug, Clone, Copy)]
pub struct WikipediaConfig {
    /// Whether a page's text is wanted beside its images.
    pub need_content: bool,
}

impl Default for WikipediaConfig {
    fn default() -> (settings: Self)
        ensures
            !settings.need_content,
    {
        WikipediaConfig { need_content: false }
    }
}

impl WikipediaConfig {
    /// The settings that a block of the configuration stands for, or what is
    /// wrong with it. The block is a table or a list. In a table,
    /// `need_content`, where the table has it, is a truth value, and is
    /// `false` where the table has it not; other entries are not read. A list
    /// gives the settings in the order of their declaration: it is empty,
    /// which leaves `need_content` `false`, or holds the one truth value.
    pub open spec fn spec_decode(block: ConfigValue) -> Result<WikipediaConfig, Seq<char>> {
        match block {
            ConfigValue::Table(entries) => match spec_config_lookup(entries@, WIKI_NEED_CONTENT@) {
                None => Ok(WikipediaConfig { need_content: false }),
                Some(ConfigValue::Bool(wanted)) => Ok(WikipediaConfig { need_content: wanted }),
                Some(_) => Err(WIKI_NOT_A_BOOL@),
            },
            ConfigValue::List(values) => if values@.len() == 0 {
                Ok(WikipediaConfig { need_content: false })
            } else {
                match values@[0] {
                    ConfigValue::Bool(wanted) => if values@.len() == 1 {
                        Ok(WikipediaConfig { need_content: wanted })
                    } else {
                        Err(WIKI_TOO_LONG@)
                    },
                    _ => Err(WIKI_NOT_A_BOOL@),
                }
            },
            _ => Err(WIKI_NOT_A_TABLE@),
        }
    }

    /// Decodes the handler's block of the configuration.
    pub fn decode(block: &ConfigValue) -> (decoded: Result<WikipediaConfig, SdkError>)
        ensures
            match Self::spec_decode(*block) {
                Ok(settings) => decoded == Ok::<WikipediaConfig, SdkError>(settings),
                Err(reason) => decoded matches Err(SdkError::InvalidConfig(detail)) && detail@
                    == reason,
            },
    {
        match block {
            ConfigValue::Table(entries) => match config_lookup(entries, WIKI_NEED_CONTENT) {
                None => Ok(WikipediaConfig { need_content: false }),
                Some(ConfigValue::Bool(wanted)) => Ok(WikipediaConfig { need_content: *wanted }),
                Some(_) => Err(SdkError::InvalidConfig(String::from_str(WIKI_NOT_A_BOOL))),
            },
            ConfigValue::List(values) => if values.len() == 0 {
                Ok(WikipediaConfig { need_content: false })
            } else {
                match &values[0] {
                    ConfigValue::Bool(wanted) => if values.len() == 1 {
                        Ok(WikipediaConfig { need_content: *wanted })
                    } else {
                        Err(SdkError::InvalidConfig(String::from_str(WIKI_TOO_LONG)))
                    },
                    _ => Err(SdkError::InvalidConfig(String::from_str(WIKI_NOT_A_BOOL))),
                }
            },
            _ => Err(SdkError::InvalidConfig(String::from_str(WIKI_NOT_A_TABLE))),
        }
    }
}

/// The handler for Wikipedia pages.
#[derive(Debug)]
pub struct WikipediaInstance {
    /// The key under which the handler registers and finds its settings.
    pub domain_key: String,
    /// The handler's settings.
    pub config: WikipediaConfig,
    /// The addresses the handler owns, compiled when the handler was made:
    /// `None` where the pattern did not compile.
    pub pattern: Option<AddressPattern>,
}

/// What a compiled pattern says of the address `url`, if there is a pattern.
pub open spec fn spec_verdict(pattern: Option<AddressPattern>, url: Seq<char>) -> Option<bool> {
    match pattern {
        Some(kept) => Some(regex_matches(kept.source(), url)),
        None => None,
    }
}

/// The answer of a handler for what its pattern says: the pattern's verdict,
/// or a site error where the handler has no pattern.
pub open spec fn spec_answer(verdict: Option<bool>, answer: Result<bool, SdkError>) -> bool {
    match verdict {
        Some(owned) => answer == Ok::<bool, SdkError>(owned),
        None => answer matches Err(SdkError::Site(detail)) && detail@ == WIKI_BAD_PATTERN@,
    }
}

/// The answer of a freshly made handler for the address `url`: what the
/// address pattern says of it, or a site error where the pattern does not compile.
pub open spec fn spec_wikipedia_answer(url: Seq<char>, answer: Result<bool, SdkError>) -> bool {
    spec_answer(
        if regex_compiles(WIKI_ADDRESS_PATTERN@) {
            Some(regex_matches(WIKI_ADDRESS_PATTERN@, url))
        } else {
            None
        },
        answer,
    )
}

/// The answer that the handler gives once the address pattern has spoken.
pub fn wikipedia_answer(verdict: Option<bool>) -> (answer: Result<bool, SdkError>)
    ensures
        spec_answer(verdict, answer),
{
    match verdict {
        Some(owned) => Ok(owned),
        None => Err(SdkError::Site(String::from_str(WIKI_BAD_PATTERN))),
    }
}

/// What the handler wants scraped: the images of a page, and the text of the
/// page where the settings ask for it. Nothing is extracted yet.
pub open spec fn spec_wikipedia_plan(need_content: bool, plan: Seq<PatternMatchResult>) -> bool {
    &&& plan.len() == if need_content {
        2nat
    } else {
        1nat
    }
    &&& plan[0].pattern@ == WIKI_IMAGE_PATTERN@
    &&& plan[0].pattern_type == PatternType::Resource
    &&& plan[0].resource_string@.len() == 0
    &&& need_content ==> {
        &&& plan[1].pattern@ == WIKI_CONTENT_PATTERN@
        &&& plan[1].pattern_type == PatternType::Resource
        &&& plan[1].resource_string@.len() == 0
    }
}

/// The outcome of loading the bag `raw` into a handler that stands under
/// `key`: success where the bag has no block under the key or a block that
/// decodes, else an `InvalidConfig` error that says what is wrong with the block.
pub open spec fn spec_wikipedia_load(
    key: Seq<char>,
    raw: Seq<ConfigEntry>,
    outcome: Result<(), SdkError>,
) -> bool {
    match spec_config_lookup(raw, key) {
        None => outcome is Ok,
        Some(block) => match WikipediaConfig::spec_decode(block) {
            Ok(_) => outcome is Ok,
            Err(reason) => outcome matches Err(SdkError::InvalidConfig(detail)) && detail@
                == reason,
        },
    }
}

/// What the handler offers: a matcher that reports the handler's plan, no
/// configurator and no storage.
pub open spec fn spec_wikipedia_offer(need_content: bool, offer: &Registerable) -> bool {
    &&& offer.configurator is None
    &&& offer.storage is None
    &&& offer.matcher matches Some(matcher)
    &&& forall|patterns: Seq<PatternAndType>, results: Seq<PatternMatchResult>| #[trigger]
        matcher.may_yield(patterns, results) == spec_wikipedia_plan(need_content, results)
}

impl WikipediaInstance {
    /// A handler under the key `wikipedia` with the default settings and the
    /// address pattern compiled.
    pub fn new() -> (instance: Self)
        ensures
            instance.domain_key@ == WIKI_DOMAIN_KEY@,
            !instance.config.need_content,
            instance.pattern is Some <==> regex_compiles(WIKI_ADDRESS_PATTERN@),
            instance.pattern matches Some(kept) ==> kept.source() == WIKI_ADDRESS_PATTERN@,
    {
        WikipediaInstance {
            domain_key: String::from_str(WIKI_DOMAIN_KEY),
            config: WikipediaConfig::default(),
            pattern: AddressPattern::compile(WIKI_ADDRESS_PATTERN),
        }
    }
}

impl Clone for WikipediaInstance {
    fn clone(&self) -> (copy: Self)
        ensures
            copy == *self,
    {
        let pattern = match &self.pattern {
            Some(kept) => Some(kept.clone()),
            None => None,
        };
        WikipediaInstance { domain_key: self.domain_key.clone(), config: self.config, pattern }
    }
}

impl Domain for WikipediaInstance {
    open spec fn may_answer(&self, url: Seq<char>, answer: Result<bool, SdkError>) -> bool {
        spec_answer(spec_verdict(self.pattern, url), answer)
    }

    open spec fn may_name(&self, key: Seq<char>) -> bool {
        key == self.domain_key@
    }

    open spec fn may_offer(&self, offer: &Registerable) -> bool {
        spec_wikipedia_offer(self.config.need_content, offer)
    }

    fn match_domain(&self, domain: String) -> (answer: Result<bool, SdkError>) {
        let verdict = match &self.pattern {
            Some(kept) => Some(kept.is_match(domain.as_str())),
            None => None,
        };
        wikipedia_answer(verdict)
    }

    fn get_domain_key(&self) -> (key: String) {
        self.domain_key.clone()
    }

    fn get_domain_registerable(&self) -> (offer: Registerable) {
        let matcher: Box<dyn Matcher> = Box::new(self.clone());
        let offered = Some(matcher);
        Registerable { configurator: None, matcher: offered, storage: None }
    }
}

impl Matcher for WikipediaInstance {
    open spec fn may_yield(
        &self,
        patterns: Seq<PatternAndType>,
        results: Seq<PatternMatchResult>,
    ) -> bool {
        spec_wikipedia_plan(self.config.need_content, results)
    }

    /// Reports what the handler wants scraped, whatever patterns are asked for.
    fn match_patterns(&self, patterns: &[PatternAndType]) -> (results: Vec<PatternMatchResult>) {
        let mut results: Vec<PatternMatchResult> = Vec::new();
        results.push(
            PatternMatchResult {
                pattern: String::from_str(WIKI_IMAGE_PATTERN),
                pattern_type: PatternType::Resource,
                resource_string: String::new(),
            },
        );
        if self.config.need_content {
            results.push(
                PatternMatchResult {
                    pattern: String::from_str(WIKI_CONTENT_PATTERN),
                    pattern_type: PatternType::Resource,
                    resource_string: String::new(),
                },
            );
        }
        results
    }
}

impl Config for WikipediaInstance {
    open spec fn own_key(&self) -> Option<Seq<char>> {
        Some(self.domain_key@)
    }

    open spec fn may_load(&self, raw: Seq<ConfigEntry>, outcome: Result<(), SdkError>) -> bool {
        spec_wikipedia_load(self.domain_key@, raw, outcome)
    }

    /// Takes the settings from the entry of `raw_config_values` that stands
    /// under the handler's key. Without such an entry the settings stay as
    /// they are; an entry that does not decode is an error and changes nothing.
    fn load(&mut self, raw_config_values: &Vec<ConfigEntry>) -> (outcome: Result<(), SdkError>)
        ensures
            final(self).domain_key == old(self).domain_key,
            final(self).pattern == old(self).pattern,
            match spec_config_lookup(raw_config_values@, old(self).domain_key@) {
                None => outcome is Ok && final(self).config == old(self).config,
                Some(block) => match WikipediaConfig::spec_decode(block) {
                    Ok(settings) => outcome is Ok && final(self).config == settings,
                    Err(reason) => {
                        &&& final(self).config == old(self).config
                        &&& outcome matches Err(SdkError::InvalidConfig(detail))
                        &&& detail@ == reason
                    },
                },
            },
    {
        match config_lookup(raw_config_values, self.domain_key.as_str()) {
            Some(block) => match WikipediaConfig::decode(block) {
                Ok(settings) => {
                    self.config = settings;
                    Ok(())
                },
                Err(error) => Err(error),
            },
            None => Ok(()),
        }
    }
}

} // verus!
