//! The endpoint registry: which delivery queue currently serves each identity.
//!
//! The registry is modelled as a finite map from identities to queue handles.
//! A queue handle is a plain number chosen by whoever owns the queues; the
//! registry never looks inside it. Mutating operations take `&mut self`, so
//! that each contract can relate the map before the call to the map after it.

use dashmap::DashMap;
use std::hash::RandomState;
use vstd::prelude::*;

verus! {

/// `dashmap::DashMap`, the sharded concurrent hash map. Nothing inside it is
/// visible to the verifier; `registry_entries` names what it holds.
#[verifier::external_type_specification]
#[verifier::external_body]
#[verifier::reject_recursive_types(K)]
#[verifier::reject_recursive_types(V)]
#[verifier::reject_recursive_types(S)]
pub struct ExDashMap<K, V, S>(DashMap<K, V, S>);

/// The key/value pairs held by a map of identities to queue handles.
pub uninterp spec fn registry_entries(m: DashMap<String, u64, RandomState>) -> Map<Seq<char>, u64>;

/// The entries of a registry in which nothing is registered.
pub open spec fn no_entries() -> Map<Seq<char>, u64> {
    Map::empty()
}

/// The entries after `queue` has been registered for `id`.
pub open spec fn registered(entries: Map<Seq<char>, u64>, id: Seq<char>, queue: u64) -> Map<
    Seq<char>,
    u64,
> {
    entries.insert(id, queue)
}

/// The entries after `id` has been unregistered.
pub open spec fn unregistered(entries: Map<Seq<char>, u64>, id: Seq<char>) -> Map<Seq<char>, u64> {
    entries.remove(id)
}

/// What a lookup of `id` finds among `entries`.
pub open spec fn resolved(entries: Map<Seq<char>, u64>, id: Seq<char>) -> Option<u64> {
    if entries.contains_key(id) {
        Some(entries[id])
    } else {
        None
    }
}

/// `DashMap::new`: a map with no entries.
#[verifier::external_body]
fn map_new() -> (fresh: DashMap<String, u64, RandomState>)
    ensures
        registry_entries(fresh) == no_entries(),
{
    DashMap::new()
}

/// `DashMap::insert`: binds `key` to `value`, replacing any earlier binding of
/// `key`, and returns the value that was bound before, if there was one.
#[verifier::external_body]
fn map_insert(m: &mut DashMap<String, u64, RandomState>, key: String, value: u64) -> (prev: Option<
    u64,
>)
    ensures
        registry_entries(*final(m)) == registered(registry_entries(*old(m)), key@, value),
        prev == resolved(registry_entries(*old(m)), key@),
{
    m.insert(key, value)
}

/// `DashMap::get`: the value bound to `key`, if any. The map is left as it was.
#[verifier::external_body]
fn map_get(m: &DashMap<String, u64, RandomState>, key: &str) -> (found: Option<u64>)
    ensures
        found == resolved(registry_entries(*m), key@),
{
    m.get(key).map(|entry| *entry.value())
}

/// `DashMap::remove`: drops the binding of `key`, if there is one, leaves every
/// other binding alone, and returns the value that was bound.
#[verifier::external_body]
fn map_remove(m: &mut DashMap<String, u64, RandomState>, key: &str) -> (prev: Option<u64>)
    ensures
        registry_entries(*final(m)) == unregistered(registry_entries(*old(m)), key@),
        prev == resolved(registry_entries(*old(m)), key@),
{
    m.remove(key).map(|pair| pair.1)
}

/// `DashMap::len`: how many keys are bound.
#[verifier::external_body]
fn map_len(m: &DashMap<String, u64, RandomState>) -> (count: usize)
    requires
        registry_entries(*m).dom().finite(),
    ensures
        count == registry_entries(*m).len(),
{
    m.len()
}

/// The live endpoints, each with the handle of the queue that delivers to it.
#[derive(Debug)]
pub struct Registry {
    map: DashMap<String, u64, RandomState>,
}

impl View for Registry {
    type V = Map<Seq<char>, u64>;

    closed spec fn view(&self) -> Map<Seq<char>, u64> {
        registry_entries(self.map)
    }
}

impl Registry {
    /// A registry with no endpoints.
    pub fn new() -> (r: Registry)
        ensures
            r@ == no_entries(),
    {
        Registry { map: map_new() }
    }

    /// Makes `queue` the delivery queue of `id`. An earlier queue of the same
    /// identity is replaced: the last registration wins. Every other identity
    /// keeps the queue it had.
    pub fn register(&mut self, id: String, queue: u64)
        ensures
            final(self)@ == registered(old(self)@, id@, queue),
    {
        let _ = map_insert(&mut self.map, id, queue);
    }

    /// The queue currently registered for `id`, if there is one.
    pub fn resolve(&self, id: &str) -> (found: Option<u64>)
        ensures
            found == resolved(self@, id@),
    {
        map_get(&self.map, id)
    }

    /// Forgets `id`. Nothing happens if `id` is not registered; every other
    /// identity keeps the queue it had.
    pub fn unregister(&mut self, id: &str)
        ensures
            final(self)@ == unregistered(old(self)@, id@),
    {
        let _ = map_remove(&mut self.map, id);
    }

    /// How many identities are registered. A registry that was built by
    /// `new`, `register` and `unregister` always holds finitely many.
    pub fn len(&self) -> (count: usize)
        requires
            self@.dom().finite(),
        ensures
            count == self@.len(),
    {
        map_len(&self.map)
    }
}

/// When the same identity is registered twice, the registry is as if only the
/// second registration had happened: the identity resolves to the second
/// queue, and it still has exactly one entry, so the registry is no larger
/// than after the first registration.
pub proof fn lemma_last_registration_wins(
    entries: Map<Seq<char>, u64>,
    id: Seq<char>,
    first: u64,
    second: u64,
)
    ensures
        registered(registered(entries, id, first), id, second) == registered(entries, id, second),
        resolved(registered(registered(entries, id, first), id, second), id) == Some(second),
        registered(registered(entries, id, first), id, second).dom() == registered(
            entries,
            id,
            first,
        ).dom(),
        entries.dom().finite() ==> registered(registered(entries, id, first), id, second).len()
            == registered(entries, id, first).len(),
{
    let once = registered(entries, id, first);
    let twice = registered(once, id, second);
    assert(twice =~= registered(entries, id, second));
    assert(twice.dom() =~= once.dom());
}

/// Registering an identity and unregistering it again leaves the registry
/// without that identity, and every other identity as it was before.
pub proof fn lemma_unregister_undoes_register(entries: Map<Seq<char>, u64>, id: Seq<char>, queue: u64)
    ensures
        resolved(unregistered(registered(entries, id, queue), id), id) is None,
        unregistered(registered(entries, id, queue), id) == unregistered(entries, id),
        !entries.contains_key(id) ==> unregistered(registered(entries, id, queue), id) == entries,
{
    assert(unregistered(registered(entries, id, queue), id) =~= unregistered(entries, id));
    if !entries.contains_key(id) {
        assert(unregistered(entries, id) =~= entries);
    }
}

} // verus!
