//! Decisions of the Redis store: the read-through cache protocol and the health probe.

use vstd::prelude::*;

use super::consts;
use crate::text::str_eq;

verus! {

/// What a cache `GET` returned.
#[derive(Debug, Clone, PartialEq, Eq)]
pub enum CacheRead {
    Hit(String),
    Miss,
    /// Redis failed; the cache fails open.
    Failed,
}

/// The next action of a read-through lookup.
#[derive(Debug, Clone, PartialEq, Eq)]
pub enum ReadThroughStep {
    /// Return this value.
    Return(Option<String>),
    /// Produce the value from the source of truth.
    Fetch,
    /// Store the fetched value with the TTL (best effort), then return it.
    PopulateAndReturn(String),
}

/// After the cache `GET`: a hit is returned at once; a miss or a Redis failure falls
/// back to the source of truth.
pub fn get_or_populate_after_read(read: CacheRead) -> (r: ReadThroughStep)
    ensures
        match read {
            CacheRead::Hit(v) => r == ReadThroughStep::Return(Some(v)),
            _ => r == ReadThroughStep::Fetch,
        },
{
    match read {
        CacheRead::Hit(v) => ReadThroughStep::Return(Some(v)),
        _ => ReadThroughStep::Fetch,
    }
}

/// After the fetch: a produced value is written back to the cache and returned; when
/// the source has nothing, nothing is cached and nothing returned.
pub fn get_or_populate_after_fetch(fetched: Option<String>) -> (r: ReadThroughStep)
    ensures
        match fetched {
            Some(v) => r == ReadThroughStep::PopulateAndReturn(v),
            None => r == ReadThroughStep::Return(None),
        },
{
    match fetched {
        Some(v) => ReadThroughStep::PopulateAndReturn(v),
        None => ReadThroughStep::Return(None),
    }
}

/// The Redis health probe passes when the value read back is the value written.
pub fn health_check_value_matches(value: &str) -> (r: bool)
    ensures
        r == (value@ == consts::REDIS_HEALTH_CHECK_VALUE@),
{
    str_eq(value, consts::REDIS_HEALTH_CHECK_VALUE)
}

} // verus!
