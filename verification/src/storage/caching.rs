//! The read-through behaviour of the in-memory caches in front of the storage layer.

use vstd::prelude::*;

verus! {

/// Marker of cache layouts that also cache entities.
pub trait CacheableWithEntity<T> {}

impl<T> CacheableWithEntity<T> for T {}

/// The next action of a cached read.
#[derive(Debug, Clone, PartialEq, Eq)]
pub enum CacheLookupStep<V> {
    /// Served from the cache.
    Hit(V),
    /// Read from the storage behind the cache.
    QueryInner,
}

/// A cache hit is served; a miss reads the storage behind the cache.
pub fn cached_lookup_step<V>(cached: Option<V>) -> (r: CacheLookupStep<V>)
    ensures
        match cached {
            Some(v) => r == CacheLookupStep::Hit(v),
            None => r == CacheLookupStep::<V>::QueryInner,
        },
{
    match cached {
        Some(v) => CacheLookupStep::Hit(v),
        None => CacheLookupStep::QueryInner,
    }
}

/// What to do with the result of an optional read behind the cache: a found row is
/// cached and returned; an absent row is returned without caching, so that a later
/// insert is not shadowed by a cached miss.
pub fn after_inner_optional_lookup<V>(found: Option<V>) -> (r: (Option<V>, bool))
    ensures
        r.0 == found,
        r.1 == (found is Some),
{
    let cache_it = found.is_some();
    (found, cache_it)
}

} // verus!
