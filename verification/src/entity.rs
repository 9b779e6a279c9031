//! Value types that describe what to look for and what was found.

use crate::errors::SdkError;
use crate::traits::{Config, Matcher, Storage};
use vstd::prelude::*;

verus! {

/// What a pattern is meant to find on a page.
#[derive(Debug, Clone, Copy, PartialEq, Eq, Structural)]
pub enum PatternType {
    /// A downloadable resource: an image, a document, a video.
    Resource,
    /// The link that leads to the next page.
    Pagination,
}

/// A pattern together with what it is meant to find.
pub struct PatternAndType {
    /// The pattern: a selector, an expression or a piece of an address.
    pub pattern: String,
    /// What the pattern is meant to find.
    pub pattern_type: PatternType,
}

/// One match that a matcher reports.
pub struct PatternMatchResult {
    /// The pattern that matched.
    pub pattern: String,
    /// What the pattern was meant to find.
    pub pattern_type: PatternType,
    /// Where the matched content is to be had.
    pub resource_string: String,
}

/// An image found in a page.
pub struct HtmlImage {
    /// The value of the image's `src` attribute.
    pub src: String,
    /// The markup of the image element.
    pub inner_html: String,
}

/// The readable text of a page's content area and the images of the page.
pub struct HtmlPlainTextAndImages {
    /// The text of the content area.
    pub text: String,
    /// The images of the whole page.
    pub images: Vec<HtmlImage>,
}

/// An untyped value of a configuration document.
#[derive(Debug)]
pub enum ConfigValue {
    /// No value.
    Null,
    /// A truth value.
    Bool(bool),
    /// A number, as the document writes it.
    Number(String),
    /// A string.
    Text(String),
    /// A list of values.
    List(Vec<ConfigValue>),
    /// A table of named values.
    Table(Vec<ConfigEntry>),
}

/// A named value of a configuration table.
#[derive(Debug)]
pub struct ConfigEntry {
    /// The name.
    pub key: String,
    /// The value.
    pub value: ConfigValue,
}

/// The value that `entries` holds under `key`: that of the first entry so
/// named, if there is one.
pub open spec fn spec_config_lookup(entries: Seq<ConfigEntry>, key: Seq<char>) -> Option<
    ConfigValue,
>
    decreases entries.len(),
{
    if entries.len() == 0 {
        None
    } else if entries[0].key@ == key {
        Some(entries[0].value)
    } else {
        spec_config_lookup(entries.drop_first(), key)
    }
}

/// Looks `key` up in `entries`.
pub fn config_lookup<'a>(entries: &'a Vec<ConfigEntry>, key: &str) -> (found: Option<
    &'a ConfigValue,
>)
    ensures
        match found {
            Some(value) => spec_config_lookup(entries@, key@) == Some(*value),
            None => spec_config_lookup(entries@, key@) is None,
        },
{
    let wanted = String::from_str(key);
    let mut i: usize = 0;
    assert(entries@.skip(0) == entries@);
    while i < entries.len()
        invariant
            i <= entries.len(),
            wanted@ == key@,
            spec_config_lookup(entries@, key@) == spec_config_lookup(
                entries@.skip(i as int),
                key@,
            ),
        decreases entries.len() - i,
    {
        if entries[i].key == wanted {
            return Some(&entries[i].value);
        }
        assert(entries@.skip(i as int).drop_first() == entries@.skip(i + 1));
        i += 1;
    }
    None
}

/// The capabilities a site handler offers. A handler leaves out what it does
/// not need.
pub struct Registerable {
    /// Loads the handler's settings.
    pub configurator: Option<Box<dyn Config>>,
    /// Finds what a page holds.
    pub matcher: Option<Box<dyn Matcher>>,
    /// Keeps what was found.
    pub storage: Option<Box<dyn Storage>>,
}

impl Registerable {
    /// Lets the configurator take its settings from `raw_config_values`.
    /// `Ok(true)` says that the configurator took them; `Ok(false)` that the
    /// handler has no configurator, so that nothing was done; an error is the
    /// configurator's own, handed on as it came.
    pub fn load(&mut self, raw_config_values: &Vec<ConfigEntry>) -> (outcome: Result<
        bool,
        SdkError,
    >)
        ensures
            final(self).matcher == old(self).matcher,
            final(self).storage == old(self).storage,
            match old(self).configurator {
                Some(configurator) => {
                    &&& final(self).configurator is Some
                    &&& outcome matches Ok(taken) ==> taken
                    &&& exists|given: Result<(), SdkError>| #[trigger]
                        configurator.may_load(raw_config_values@, given) && (given is Ok
                            <==> outcome is Ok) && (given matches Err(cause) ==> outcome
                            == Err::<bool, SdkError>(cause))
                    &&& (configurator.own_key() matches Some(key) && spec_config_lookup(
                        raw_config_values@,
                        key,
                    ) is None) ==> outcome is Ok && final(self).configurator == old(
                        self,
                    ).configurator
                },
                None => outcome == Ok::<bool, SdkError>(false) && final(self).configurator is None,
            },
    {
        match &mut self.configurator {
            Some(configurator) => match configurator.load(raw_config_values) {
                Ok(_) => Ok(true),
                Err(error) => Err(error),
            },
            None => Ok(false),
        }
    }

    /// Asks the matcher for every match of `patterns`. A handler without a
    /// matcher has no matches.
    pub fn match_patterns(&self, patterns: &[PatternAndType]) -> (results: Vec<
        PatternMatchResult,
    >)
        ensures
            match self.matcher {
                Some(matcher) => matcher.may_yield(patterns@, results@),
                None => results@.len() == 0,
            },
    {
        match &self.matcher {
            Some(matcher) => matcher.match_patterns(patterns),
            None => Vec::new(),
        }
    }

    /// Hands `resource` and its bytes to the storage. `Ok(true)` says that the
    /// storage kept them; `Ok(false)` that the handler has no storage, so that
    /// keeping them is left to the caller; an error is the storage's own.
    pub fn persist(&self, resource: &PatternMatchResult, resource_content: Vec<u8>) -> (outcome:
        Result<bool, SdkError>)
        ensures
            match self.storage {
                Some(storage) => match outcome {
                    Ok(kept) => kept && storage.may_persist(*resource, resource_content@, Ok(())),
                    Err(error) => storage.may_persist(*resource, resource_content@, Err(error)),
                },
                None => outcome == Ok::<bool, SdkError>(false),
            },
    {
        match &self.storage {
            Some(storage) => match storage.persist(resource, resource_content) {
                Ok(_done) => Ok(true),
                Err(error) => Err(error),
            },
            None => Ok(false),
        }
    }
}

} // verus!
