//! An address pattern that a plugin compiles once and owns from then on.

use vstd::prelude::*;

verus! {

/// Declares `regex::Regex`, which a compiled pattern carries.
#[verifier::external_type_specification]
#[verifier::external_body]
pub struct ExRegex(regex::Regex);

/// Whether `pattern` compiles as a regular expression: it does not where it
/// is invalid or too large.
pub uninterp spec fn regex_compiles(pattern: Seq<char>) -> bool;

/// Whether the regular expression `pattern` matches somewhere in `text`.
pub uninterp spec fn regex_matches(pattern: Seq<char>, text: Seq<char>) -> bool;

/// A regular expression in compiled form, together with the text it was
/// compiled from. A value comes from `compile` alone, so the two agree.
#[derive(Debug)]
pub struct AddressPattern {
    source: String,
    compiled: regex::Regex,
}

impl AddressPattern {
    /// The text the pattern was compiled from.
    pub closed spec fn source(&self) -> Seq<char> {
        self.source@
    }

    /// Compiles `source` with `regex::Regex::new` and keeps the text beside
    /// the result. The contract names whether the text compiles; the pattern
    /// is `None` where it does not.
    #[verifier::external_body]
    pub(crate) fn compile(source: &str) -> (pattern: Option<AddressPattern>)
        ensures
            match pattern {
                Some(kept) => regex_compiles(source@) && kept.source() == source@,
                None => !regex_compiles(source@),
            },
    {
        match regex::Regex::new(source) {
            Ok(compiled) => Some(AddressPattern { source: source.to_string(), compiled }),
            Err(_) => None,
        }
    }

    /// Asks `regex::Regex::is_match` whether the pattern matches somewhere in
    /// `text`. The contract names the answer by the text the pattern was
    /// compiled from.
    #[verifier::external_body]
    pub(crate) fn is_match(&self, text: &str) -> (matched: bool)
        ensures
            matched == regex_matches(self.source(), text@),
    {
        self.compiled.is_match(text)
    }
}

/// `Clone::clone` of `regex::Regex`: the same compiled expression.
#[verifier::external_body]
fn clone_compiled(compiled: &regex::Regex) -> (copy: regex::Regex)
    ensures
        copy == *compiled,
{
    compiled.clone()
}

impl Clone for AddressPattern {
    fn clone(&self) -> (copy: Self)
        ensures
            copy == *self,
    {
        AddressPattern {
            source: self.source.clone(),
            compiled: clone_compiled(&self.compiled),
        }
    }
}

} // verus!
