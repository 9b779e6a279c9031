//! The registry: site handlers under unique keys, in the order in which their
//! keys were first registered, and the resolution of an address to a handler.
//!
//! Where several handlers claim an address, the one whose key was registered
//! first is found: the handlers are asked in that order, and the first that
//! answers yes ends the search. The registry keeps a list and no hash map, so
//! that this order is the same in every run.

use crate::errors::SdkError;
use crate::traits::domain::Domain;
use crate::traits::registry::Registry;
use std::sync::Arc;
use vstd::prelude::*;

verus! {

/// What a registry holds: keys with their handlers, in registration order.
pub type Entries = Seq<(Seq<char>, Arc<dyn Domain>)>;

/// No key occurs twice.
pub open spec fn distinct_keys(entries: Entries) -> bool {
    forall|i: int, j: int| 0 <= i < j < entries.len() ==> entries[i].0 != entries[j].0
}

/// Some entry stands under `key`.
pub open spec fn has_key(entries: Entries, key: Seq<char>) -> bool {
    exists|i: int| 0 <= i < entries.len() && #[trigger] entries[i].0 == key
}

/// The entries after `domain` is registered under `key`: where the key is
/// known its handler is replaced and keeps its place, else the new entry
/// comes last.
pub open spec fn spec_register(entries: Entries, key: Seq<char>, domain: &Arc<dyn Domain>) -> Entries {
    let registered = (key, *domain);
    if has_key(entries, key) {
        entries.map_values(
            |entry: (Seq<char>, Arc<dyn Domain>)|
                if entry.0 == key {
                    registered
                } else {
                    entry
                },
        )
    } else {
        entries.push(registered)
    }
}

/// The entries after each of `domains` is registered under `key`, one after the other.
pub open spec fn spec_register_all(
    entries: Entries,
    key: Seq<char>,
    domains: Seq<Arc<dyn Domain>>,
) -> Entries
    decreases domains.len(),
{
    if domains.len() == 0 {
        entries
    } else {
        spec_register(spec_register_all(entries, key, domains.drop_last()), key, &domains.last())
    }
}

/// The handler may say that the address is its own.
pub open spec fn claims(domain: &Arc<dyn Domain>, url: Seq<char>) -> bool {
    domain.may_answer(url, Ok(true))
}

/// The handler may say something else: that the address is not its own, or
/// that it cannot tell.
pub open spec fn declines(domain: &Arc<dyn Domain>, url: Seq<char>) -> bool {
    exists|answer: Result<bool, SdkError>|
        answer != Ok::<bool, SdkError>(true) && #[trigger] domain.may_answer(url, answer)
}

/// `found` is a resolution of `url`: the handler found may claim the address
/// and every handler registered before it may decline; where none is found,
/// every handler may decline.
pub open spec fn resolves(entries: Entries, url: Seq<char>, found: Option<Arc<dyn Domain>>) -> bool {
    match found {
        Some(domain) => exists|i: int|
            0 <= i < entries.len() && (#[trigger] entries[i]).1 == domain && claims(&domain, url)
                && forall|j: int| 0 <= j < i ==> declines(&(#[trigger] entries[j]).1, url),
        None => forall|j: int| 0 <= j < entries.len() ==> declines(&(#[trigger] entries[j]).1, url),
    }
}

/// Whether an answer of a handler claims the address: only a plain yes does.
/// A handler that cannot tell is passed over like one that says no.
pub fn claimed(answer: &Result<bool, SdkError>) -> (yes: bool)
    ensures
        yes == (*answer == Ok::<bool, SdkError>(true)),
{
    match answer {
        Ok(owned) => *owned,
        Err(_) => false,
    }
}

/// `std::sync::Arc::clone`: another handle to the same value.
#[verifier::external_body]
pub(crate) fn share<T: ?Sized>(handle: &Arc<T>) -> (shared: Arc<T>)
    ensures
        shared == *handle,
{
    Arc::clone(handle)
}

/// `Arc::from` on a `Box`: a shared handle to the value that the box held.
#[verifier::external_body]
pub(crate) fn shared_from_box<T: ?Sized>(owned: Box<T>) -> (shared: Arc<T>)
    ensures
        shared == owned,
{
    Arc::from(owned)
}

/// A registry that keeps its handlers in a list, in registration order.
pub struct RegistryMapImplementation {
    registry: Vec<(String, Arc<dyn Domain>)>,
}

impl View for RegistryMapImplementation {
    type V = Entries;

    closed spec fn view(&self) -> Entries {
        self.registry@.map_values(|entry: (String, Arc<dyn Domain>)| (entry.0@, entry.1))
    }
}

impl RegistryMapImplementation {
    #[verifier::type_invariant]
    spec fn unique(&self) -> bool {
        distinct_keys(self@)
    }

    /// A registry without handlers.
    pub fn new() -> (registry: Self)
        ensures
            registry@.len() == 0,
    {
        RegistryMapImplementation { registry: Vec::new() }
    }

    /// The index of the entry under `key`, if there is one.
    fn position(&self, key: &String) -> (at: Option<usize>)
        ensures
            match at {
                Some(i) => i < self@.len() && self@[i as int].0 == key@,
                None => !has_key(self@, key@),
            },
    {
        let mut i: usize = 0;
        while i < self.registry.len()
            invariant
                i <= self.registry.len(),
                forall|j: int| 0 <= j < i ==> self@[j].0 != key@,
            decreases self.registry.len() - i,
        {
            if self.registry[i].0 == *key {
                return Some(i);
            }
            i += 1;
        }
        None
    }

    /// Registers the handler of `entry` under the key of `entry`: the form of
    /// `add_to_registry` for a caller that holds key and handler as one value.
    /// A handler already registered under the key is replaced.
    pub fn insert(&mut self, entry: (String, Arc<dyn Domain>))
        ensures
            final(self)@ == spec_register(old(self)@, entry.0@, &entry.1),
            distinct_keys(final(self)@),
    {
        proof {
            use_type_invariant(&*self);
        }
        let ghost before = self@;
        let ghost key = entry.0@;
        let ghost domain = entry.1;
        let at = self.position(&entry.0);
        let mut list: Vec<(String, Arc<dyn Domain>)> = Vec::new();
        std::mem::swap(&mut self.registry, &mut list);
        match at {
            Some(i) => {
                list.set(i, entry);
            },
            None => {
                list.push(entry);
            },
        }
        proof {
            lemma_register_keeps_keys_distinct(before, key, &domain);
            assert(list@.map_values(|entry: (String, Arc<dyn Domain>)| (entry.0@, entry.1))
                =~= spec_register(before, key, &domain));
        }
        std::mem::swap(&mut self.registry, &mut list);
    }
}

impl Registry for RegistryMapImplementation {
    fn add_to_registry(&mut self, key: Option<String>, domain: Arc<dyn Domain>)
        ensures
            match key {
                Some(given) => final(self)@ == spec_register(old(self)@, given@, &domain),
                None => exists|own: Seq<char>|
                    domain.may_name(own) && final(self)@ == #[trigger] spec_register(
                        old(self)@,
                        own,
                        &domain,
                    ),
            },
            distinct_keys(final(self)@),
    {
        let new_key = match key {
            Some(given) => given,
            None => domain.get_domain_key(),
        };
        let entry = (new_key, domain);
        self.insert(entry);
    }

    fn resolve_domain(&self, url: &str) -> (found: Option<Arc<dyn Domain>>)
        ensures
            resolves(self@, url@, found),
    {
        let mut i: usize = 0;
        while i < self.registry.len()
            invariant
                i <= self.registry.len(),
                forall|j: int| 0 <= j < i ==> declines(&(#[trigger] self@[j]).1, url@),
            decreases self.registry.len() - i,
        {
            let answer = self.registry[i].1.match_domain(String::from_str(url));
            if claimed(&answer) {
                let shared = share(&self.registry[i].1);
                let found = Some(shared);
                assert(self@[i as int].1 == shared && claims(&shared, url@));
                return found;
            }
            i += 1;
        }
        None
    }

    fn list_registered_domains(&self) -> (keys: Vec<String>)
        ensures
            keys@.len() == self@.len(),
            forall|i: int| 0 <= i < keys@.len() ==> (#[trigger] keys@[i])@ == self@[i].0,
            distinct_keys(self@),
    {
        proof {
            use_type_invariant(self);
        }
        let mut keys: Vec<String> = Vec::new();
        let mut i: usize = 0;
        while i < self.registry.len()
            invariant
                i <= self.registry.len(),
                keys@.len() == i,
                forall|j: int| 0 <= j < i ==> (#[trigger] keys@[j])@ == self@[j].0,
            decreases self.registry.len() - i,
        {
            keys.push(self.registry[i].0.clone());
            i += 1;
        }
        keys
    }
}

/// Registering keeps the keys distinct.
pub proof fn lemma_register_keeps_keys_distinct(
    entries: Entries,
    key: Seq<char>,
    domain: &Arc<dyn Domain>,
)
    requires
        distinct_keys(entries),
    ensures
        distinct_keys(spec_register(entries, key, domain)),
{
}

/// After a registration the key stands for the handler just registered, and
/// for no other.
pub proof fn lemma_register_holds_the_latest(
    entries: Entries,
    key: Seq<char>,
    domain: &Arc<dyn Domain>,
)
    ensures
        has_key(spec_register(entries, key, domain), key),
        forall|i: int|
            0 <= i < spec_register(entries, key, domain).len() && (#[trigger] spec_register(
                entries,
                key,
                domain,
            )[i]).0 == key ==> spec_register(entries, key, domain)[i].1 == *domain,
{
    let after = spec_register(entries, key, domain);
    if has_key(entries, key) {
        let at = choose|i: int| 0 <= i < entries.len() && #[trigger] entries[i].0 == key;
        assert(after[at].0 == key);
    } else {
        assert(after[entries.len() as int].0 == key);
    }
}

/// Registering twice under one key leaves what registering the second handler
/// alone leaves.
pub proof fn lemma_register_twice(
    entries: Entries,
    key: Seq<char>,
    first: &Arc<dyn Domain>,
    second: &Arc<dyn Domain>,
)
    ensures
        spec_register(spec_register(entries, key, first), key, second) == spec_register(
            entries,
            key,
            second,
        ),
{
    lemma_register_holds_the_latest(entries, key, first);
}

/// Uniqueness: of any run of registrations under one key, only the last
/// counts. The entries are those that registering the last handler alone leaves.
pub proof fn lemma_register_all_keeps_the_last(
    entries: Entries,
    key: Seq<char>,
    domains: Seq<Arc<dyn Domain>>,
)
    requires
        domains.len() > 0,
    ensures
        spec_register_all(entries, key, domains) == spec_register(entries, key, &domains.last()),
    decreases domains.len(),
{
    if domains.len() > 1 {
        let earlier = domains.drop_last();
        lemma_register_all_keeps_the_last(entries, key, earlier);
        lemma_register_twice(entries, key, &earlier.last(), &domains.last());
    } else {
        assert(spec_register_all(entries, key, domains.drop_last()) == entries);
    }
}

/// Resolution soundness: where one handler can only claim the address and no
/// other handler may claim it, that handler is the one found.
pub proof fn lemma_resolution_sound(
    entries: Entries,
    url: Seq<char>,
    found: Option<Arc<dyn Domain>>,
    owner: int,
)
    requires
        resolves(entries, url, found),
        0 <= owner < entries.len(),
        !declines(&entries[owner].1, url),
        forall|j: int| 0 <= j < entries.len() && j != owner ==> !claims(&(#[trigger] entries[j]).1, url),
    ensures
        found == Some(entries[owner].1),
{
}

/// The first match wins: a handler that can only claim the address is the one
/// found where no handler registered before it may claim the address,
/// whatever the handlers after it answer.
pub proof fn lemma_first_match_wins(
    entries: Entries,
    url: Seq<char>,
    found: Option<Arc<dyn Domain>>,
    first: int,
)
    requires
        resolves(entries, url, found),
        0 <= first < entries.len(),
        !declines(&entries[first].1, url),
        forall|j: int| 0 <= j < first ==> !claims(&(#[trigger] entries[j]).1, url),
    ensures
        found == Some(entries[first].1),
{
}

/// Resolution answers "none" where no handler may claim the address.
pub proof fn lemma_resolution_none(
    entries: Entries,
    url: Seq<char>,
    found: Option<Arc<dyn Domain>>,
)
    requires
        resolves(entries, url, found),
        forall|j: int| 0 <= j < entries.len() ==> !claims(&(#[trigger] entries[j]).1, url),
    ensures
        found is None,
{
}

/// A failing handler hides no other: where one handler can only claim the
/// address, a handler is found and claims it, whatever the handlers before it
/// answer, an error included.
pub proof fn lemma_failure_is_isolated(
    entries: Entries,
    url: Seq<char>,
    found: Option<Arc<dyn Domain>>,
    failing: int,
    owner: int,
)
    requires
        resolves(entries, url, found),
        0 <= failing < entries.len(),
        0 <= owner < entries.len(),
        forall|answer: Result<bool, SdkError>| #[trigger]
            entries[failing].1.may_answer(url, answer) ==> answer is Err,
        !declines(&entries[owner].1, url),
    ensures
        found matches Some(domain) && claims(&domain, url),
        (forall|j: int|
            0 <= j < entries.len() && j != owner && j != failing ==> !claims(
                &(#[trigger] entries[j]).1,
                url,
            )) ==> found == Some(entries[owner].1),
{
}

} // verus!
