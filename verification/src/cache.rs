//! The Book Cache: most recent snapshot per instrument id.
//!
//! Storage is `dashmap::DashMap`, a sharded concurrent hash map, so that
//! readers outside the detection loop (diagnostics, balancing) can look at
//! the last known book without pausing the loop. The map itself is trusted:
//! its contents are named by [`cache_books`] and each method the crate calls
//! is wrapped with a contract matching what dashmap's source shows.

use vstd::prelude::*;

use crate::book::BookSnapshot;

verus! {

#[verifier::external_type_specification]
#[verifier::external_body]
#[verifier::reject_recursive_types(K)]
#[verifier::reject_recursive_types(V)]
#[verifier::reject_recursive_types(S)]
pub struct ExDashMap<K, V, S>(dashmap::DashMap<K, V, S>);

/// The key-to-value contents of a book cache, as a mathematical map.
pub uninterp spec fn cache_books(m: dashmap::DashMap<u64, BookSnapshot>) -> Map<u64, BookSnapshot>;

/// Contents of a cache that holds no snapshot at all.
pub open spec fn no_books() -> Map<u64, BookSnapshot> {
    Map::empty()
}

/// Relies on dashmap::DashMap::new: creates a map with no entries.
#[verifier::external_body]
pub(crate) fn cache_new() -> (r: dashmap::DashMap<u64, BookSnapshot>)
    ensures
        cache_books(r) == no_books(),
{
    dashmap::DashMap::new()
}

/// Relies on dashmap::DashMap::insert: maps the key to the new value,
/// replacing any previous entry for it (last write wins).
#[verifier::external_body]
pub(crate) fn cache_put(m: &mut dashmap::DashMap<u64, BookSnapshot>, k: u64, v: BookSnapshot)
    ensures
        cache_books(*final(m)) == cache_books(*old(m)).insert(k, v),
{
    m.insert(k, v);
}

/// Relies on dashmap::DashMap::get: returns the value the key maps to, or
/// `None` when the key has no entry.
#[verifier::external_body]
pub(crate) fn cache_get(m: &dashmap::DashMap<u64, BookSnapshot>, k: u64) -> (r: Option<BookSnapshot>)
    ensures
        match r {
            Some(v) => cache_books(*m).contains_key(k) && v == cache_books(*m)[k],
            None => !cache_books(*m).contains_key(k),
        },
{
    m.get(&k).map(|entry| *entry)
}

/// Relies on dashmap::DashMap::clear: removes every entry.
#[verifier::external_body]
pub(crate) fn cache_clear(m: &mut dashmap::DashMap<u64, BookSnapshot>)
    ensures
        cache_books(*final(m)) == no_books(),
{
    m.clear();
}

} // verus!
