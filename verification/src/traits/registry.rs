//! The keyed collection of site handlers.

use crate::traits::domain::Domain;
use std::sync::Arc;
use vstd::prelude::*;

verus! {

/// Holds site handlers under unique keys and finds the handler of an address.
pub trait Registry {
    /// Registers `domain` under `key`, or under the handler's own key where
    /// `key` is `None`. A handler already registered under the key is replaced.
    fn add_to_registry(&mut self, key: Option<String>, domain: Arc<dyn Domain>);

    /// The first registered handler that says the address is its own, if any does.
    fn resolve_domain(&self, url: &str) -> Option<Arc<dyn Domain>>;

    /// The keys of all registered handlers.
    fn list_registered_domains(&self) -> Vec<String>;
}

} // verus!
