//! The [`StorageScheme`] enum: which storage backend wrote a row.

use vstd::prelude::*;

use crate::text::str_eq;

verus! {

/// Per-row storage scheme.
#[derive(Debug, Clone, Copy, PartialEq, Eq, Structural)]
pub enum StorageScheme {
    PostgresOnly,
    RedisKv,
}

impl Default for StorageScheme {
    fn default() -> (r: Self)
        ensures
            r == StorageScheme::PostgresOnly,
    {
        StorageScheme::PostgresOnly
    }
}

/// The snake_case name under which a scheme is stored and logged.
pub open spec fn storage_scheme_name(scheme: StorageScheme) -> &'static str {
    match scheme {
        StorageScheme::PostgresOnly => "postgres_only",
        StorageScheme::RedisKv => "redis_kv",
    }
}

impl StorageScheme {
    /// The snake_case name of the scheme (`postgres_only` or `redis_kv`).
    pub fn as_str(&self) -> (r: &'static str)
        ensures
            r == storage_scheme_name(*self),
    {
        match self {
            StorageScheme::PostgresOnly => "postgres_only",
            StorageScheme::RedisKv => "redis_kv",
        }
    }

    /// The scheme a stored name stands for; `None` for any other text.
    pub fn from_name(name: &str) -> (r: Option<StorageScheme>)
        ensures
            match r {
                Some(s) => name@ == storage_scheme_name(s)@,
                None => name@ != "postgres_only"@ && name@ != "redis_kv"@,
            },
    {
        if str_eq(name, "postgres_only") {
            Some(StorageScheme::PostgresOnly)
        } else if str_eq(name, "redis_kv") {
            Some(StorageScheme::RedisKv)
        } else {
            None
        }
    }
}

/// Distinct schemes are stored under distinct names, so a stored name reads back (through
/// [`StorageScheme::from_name`]) as the scheme that wrote it.
pub proof fn lemma_scheme_names_distinct(a: StorageScheme, b: StorageScheme)
    ensures
        storage_scheme_name(a)@ == storage_scheme_name(b)@ ==> a == b,
{
    reveal_strlit("postgres_only");
    reveal_strlit("redis_kv");
    if a != b {
        assert(storage_scheme_name(a)@.len() != storage_scheme_name(b)@.len());
    }
}

} // verus!
