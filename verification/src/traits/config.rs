//! Loading a plugin's own settings.

use crate::entity::{spec_config_lookup, ConfigEntry};
use crate::errors::SdkError;
use vstd::prelude::*;

verus! {

/// Lets a plugin take its settings from the raw bag that the engine read:
/// one entry per plugin, keyed by the plugin's key.
pub trait Config: Send + Sync {
    /// The key under which the plugin looks for its settings, where the
    /// plugin states it.
    open spec fn own_key(&self) -> Option<Seq<char>> {
        None
    }

    /// Whether `load` may give `outcome` for the bag `raw`.
    open spec fn may_load(&self, raw: Seq<ConfigEntry>, outcome: Result<(), SdkError>) -> bool {
        true
    }

    /// Reads the plugin's own entry of `raw_config_values`. A bag without
    /// that entry is no error and changes nothing; an entry that does not
    /// decode is an `InvalidConfig` error.
    fn load(&mut self, raw_config_values: &Vec<ConfigEntry>) -> (outcome: Result<(), SdkError>)
        ensures
            old(self).may_load(raw_config_values@, outcome),
            old(self).own_key() matches Some(key) && spec_config_lookup(raw_config_values@, key)
                is None ==> outcome is Ok && &*final(self) == &*old(self),
    ;
}

} // verus!
