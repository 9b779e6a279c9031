//! Keeping what was found.

use crate::entity::PatternMatchResult;
use crate::errors::SdkError;
use vstd::prelude::*;

verus! {

/// Persists one match together with its bytes.
pub trait Storage: Send + Sync {
    /// Whether `persist` may give `outcome` for `resource` and `content`.
    open spec fn may_persist(
        &self,
        resource: PatternMatchResult,
        content: Seq<u8>,
        outcome: Result<(), SdkError>,
    ) -> bool {
        true
    }

    /// Keeps `resource_content` under what `resource` says of it.
    fn persist(&self, resource: &PatternMatchResult, resource_content: Vec<u8>) -> (outcome: Result<
        (),
        SdkError,
    >)
        ensures
            self.may_persist(*resource, resource_content@, outcome),
    ;
}

} // verus!
