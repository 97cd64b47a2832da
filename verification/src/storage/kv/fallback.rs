//! Redis-first reads with a database fallback.

use vstd::prelude::*;

use super::wrapper::RedisReadError;

verus! {

/// The next action of a Redis-first read.
#[derive(Debug, Clone, PartialEq, Eq)]
pub enum FallbackStep<T> {
    /// Redis answered.
    Done(T),
    /// Redis does not hold the key: read from the database.
    QueryDatabase,
    /// Redis failed for another reason: the read fails.
    Failed,
}

/// Try Redis first; on `NotFound` fall back to the database; any other Redis error
/// fails the read.
pub fn try_redis_get_else_try_database_get<T>(redis_output: Result<T, RedisReadError>) -> (r:
    FallbackStep<T>)
    ensures
        match redis_output {
            Ok(v) => r == FallbackStep::Done(v),
            Err(RedisReadError::NotFound) => r == FallbackStep::<T>::QueryDatabase,
            Err(RedisReadError::Other) => r == FallbackStep::<T>::Failed,
        },
{
    match redis_output {
        Ok(v) => FallbackStep::Done(v),
        Err(RedisReadError::NotFound) => FallbackStep::QueryDatabase,
        Err(RedisReadError::Other) => FallbackStep::Failed,
    }
}

} // verus!
