//! Finding what a page holds.

use crate::entity::{PatternAndType, PatternMatchResult};
use vstd::prelude::*;

verus! {

/// Looks for patterns in the content a handler has at hand.
pub trait Matcher: Send + Sync {
    /// Whether `match_patterns` may give `results` for `patterns`.
    open spec fn may_yield(
        &self,
        patterns: Seq<PatternAndType>,
        results: Seq<PatternMatchResult>,
    ) -> bool {
        true
    }

    /// Every match of `patterns`, in any order; none is no error.
    fn match_patterns(&self, patterns: &[PatternAndType]) -> (results: Vec<PatternMatchResult>)
        ensures
            self.may_yield(patterns@, results@),
    ;
}

} // verus!
