//! Recognising the addresses a site handler owns.

use crate::entity::Registerable;
use crate::errors::SdkError;
use vstd::prelude::*;

verus! {

/// A site handler: it says whether an address is its own, names itself, and
/// hands out the capabilities it offers.
pub trait Domain {
    /// Whether `match_domain` may give `answer` for the address `url`. A
    /// handler whose answer depends on the address alone admits exactly one
    /// answer for each address.
    open spec fn may_answer(&self, url: Seq<char>, answer: Result<bool, SdkError>) -> bool {
        true
    }

    /// Whether `get_domain_key` may give `key`.
    open spec fn may_name(&self, key: Seq<char>) -> bool {
        true
    }

    /// Whether `get_domain_registerable` may give `offer`.
    open spec fn may_offer(&self, offer: &Registerable) -> bool {
        true
    }

    /// Says whether the address belongs to this handler: `Ok(true)` where it
    /// does, `Ok(false)` where it does not, an error where the handler cannot tell.
    fn match_domain(&self, domain: String) -> (answer: Result<bool, SdkError>)
        ensures
            self.may_answer(domain@, answer),
    ;

    /// The key under which the handler registers where the caller names none.
    fn get_domain_key(&self) -> (key: String)
        ensures
            self.may_name(key@),
    ;

    /// The capabilities this handler offers.
    fn get_domain_registerable(&self) -> (offer: Registerable)
        ensures
            self.may_offer(&offer),
    ;
}

} // verus!
