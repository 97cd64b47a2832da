//! The KV backend's result types, the classification of stored Redis values, and the
//! retry protocol of the conditional (insert-if-absent-or-tombstone) write.

use vstd::prelude::*;

verus! {

/// Outcome of a conditional insert.
#[derive(Debug, Clone, Copy, PartialEq, Eq, Structural)]
pub enum KvInsertResult {
    Inserted,
    AlreadyExists,
}

/// Outcome of a KV lookup: no entry, a tombstone left by a delete, or a live value.
#[derive(Debug, Clone, PartialEq, Eq)]
pub enum KvFindResult<V> {
    Absent,
    Deleted,
    Present(V),
}

/// The KV backend failed while serving a request.
#[derive(Debug, Clone, Copy, PartialEq, Eq, Structural)]
pub struct KvBackendFailure;

/// How the Redis client reported a failed hash-field read.
#[derive(Debug, Clone, Copy, PartialEq, Eq, Structural)]
pub enum RedisReadError {
    /// The key does not exist.
    NotFound,
    /// Any other failure.
    Other,
}

/// What a Redis hash field holds: a tombstone marker written by a KV delete, or a value.
#[derive(Debug, Clone, PartialEq, Eq)]
pub enum KvStoredValue<T> {
    Tombstone,
    Value(T),
}

/// The lookup result for the reply of a hash-field read: a missing field or key reads
/// as `Absent`, a tombstone as `Deleted`, a value as `Present`; other failures are
/// reported.
pub fn classify_find_reply<V>(reply: Result<Option<KvStoredValue<V>>, RedisReadError>) -> (r:
    Result<KvFindResult<V>, KvBackendFailure>)
    ensures
        r == (match reply {
            Ok(Some(KvStoredValue::Tombstone)) => Ok(KvFindResult::Deleted),
            Ok(Some(KvStoredValue::Value(v))) => Ok(KvFindResult::Present(v)),
            Ok(None) => Ok(KvFindResult::Absent),
            Err(RedisReadError::NotFound) => Ok(KvFindResult::Absent),
            Err(RedisReadError::Other) => Err(KvBackendFailure),
        }),
{
    match reply {
        Ok(Some(KvStoredValue::Tombstone)) => Ok(KvFindResult::Deleted),
        Ok(Some(KvStoredValue::Value(v))) => Ok(KvFindResult::Present(v)),
        Ok(None) => Ok(KvFindResult::Absent),
        Err(RedisReadError::NotFound) => Ok(KvFindResult::Absent),
        Err(RedisReadError::Other) => Err(KvBackendFailure),
    }
}

/// Number of WATCH/MULTI rounds a conditional insert attempts before giving up.
pub const KV_TRANSACTION_MAX_RETRIES: usize = 3;

/// What the watched pre-read of a conditional insert found under the key.
#[derive(Debug, Clone, Copy, PartialEq, Eq, Structural)]
pub enum StoredValueState {
    Missing,
    Tombstone,
    Live,
}

/// The next action of a conditional insert.
#[derive(Debug, Clone, Copy, PartialEq, Eq, Structural)]
pub enum ConditionalInsertStep {
    /// WATCH the key and read its current value (round `attempt`).
    ReadCurrent { attempt: usize },
    /// Write the value and its TTL in a MULTI/EXEC transaction (round `attempt`).
    Write { attempt: usize },
    /// Stop with this result (UNWATCH first when it is `AlreadyExists`).
    Finished(KvInsertResult),
    /// Every round lost its transaction to a concurrent writer.
    RetriesExhausted,
}

pub open spec fn spec_conditional_insert_after_read(attempt: usize, current: StoredValueState)
    -> ConditionalInsertStep {
    match current {
        StoredValueState::Live => ConditionalInsertStep::Finished(KvInsertResult::AlreadyExists),
        _ => ConditionalInsertStep::Write { attempt },
    }
}

pub open spec fn spec_conditional_insert_after_exec(attempt: usize, committed: bool)
    -> ConditionalInsertStep {
    if committed {
        ConditionalInsertStep::Finished(KvInsertResult::Inserted)
    } else if attempt < KV_TRANSACTION_MAX_RETRIES {
        ConditionalInsertStep::ReadCurrent { attempt: (attempt + 1) as usize }
    } else {
        ConditionalInsertStep::RetriesExhausted
    }
}

/// First action of a conditional insert: the watched read of round 1.
pub fn begin_insert_if_absent_or_tombstone() -> (r: ConditionalInsertStep)
    ensures
        r == (ConditionalInsertStep::ReadCurrent { attempt: 1 }),
{
    ConditionalInsertStep::ReadCurrent { attempt: 1 }
}

/// After the watched read of round `attempt`: a live value means the key is taken;
/// a missing value or a tombstone may be overwritten.
pub fn insert_if_absent_or_tombstone_after_read(attempt: usize, current: StoredValueState) -> (r:
    ConditionalInsertStep)
    requires
        1 <= attempt <= KV_TRANSACTION_MAX_RETRIES,
    ensures
        r == spec_conditional_insert_after_read(attempt, current),
{
    match current {
        StoredValueState::Live => ConditionalInsertStep::Finished(KvInsertResult::AlreadyExists),
        _ => ConditionalInsertStep::Write { attempt },
    }
}

/// After the EXEC of round `attempt`: a committed transaction inserted the value; an
/// aborted one (the key changed under WATCH) is retried until the rounds run out.
pub fn insert_if_absent_or_tombstone_after_exec(attempt: usize, committed: bool) -> (r:
    ConditionalInsertStep)
    requires
        1 <= attempt <= KV_TRANSACTION_MAX_RETRIES,
    ensures
        r == spec_conditional_insert_after_exec(attempt, committed),
{
    if committed {
        ConditionalInsertStep::Finished(KvInsertResult::Inserted)
    } else if attempt < KV_TRANSACTION_MAX_RETRIES {
        ConditionalInsertStep::ReadCurrent { attempt: attempt + 1 }
    } else {
        ConditionalInsertStep::RetriesExhausted
    }
}

/// The result of a whole conditional insert from round `attempt` on, when round `k`
/// (1-based) reads `observed[k - 1].0` and its EXEC commits iff `observed[k - 1].1`.
pub open spec fn conditional_insert_outcome(
    attempt: int,
    observed: Seq<(StoredValueState, bool)>,
) -> ConditionalInsertStep
    decreases KV_TRANSACTION_MAX_RETRIES - attempt,
{
    if attempt < 1 || attempt > KV_TRANSACTION_MAX_RETRIES || observed.len()
        < KV_TRANSACTION_MAX_RETRIES {
        ConditionalInsertStep::RetriesExhausted
    } else {
        match spec_conditional_insert_after_read(attempt as usize, observed[attempt - 1].0) {
            ConditionalInsertStep::Write { .. } => match spec_conditional_insert_after_exec(
                attempt as usize,
                observed[attempt - 1].1,
            ) {
                ConditionalInsertStep::ReadCurrent { .. } => conditional_insert_outcome(
                    attempt + 1,
                    observed,
                ),
                other => other,
            },
            other => other,
        }
    }
}

/// Rounds `from..to` (0-based) all found the key writable and lost their transaction.
pub open spec fn rounds_lost(observed: Seq<(StoredValueState, bool)>, from: int, to: int) -> bool {
    forall|j: int|
        from <= j < to ==> (#[trigger] observed[j]).0 != StoredValueState::Live && !observed[j].1
}

/// A conditional insert never overwrites a live value, ends within
/// `KV_TRANSACTION_MAX_RETRIES` rounds, reports `AlreadyExists` exactly when some round
/// finds a live value before any transaction commits, reports `Inserted` exactly when
/// some round commits before any live value is seen, and gives up only when every round
/// found the key writable and lost its transaction.
pub proof fn lemma_conditional_insert_outcome(attempt: int, observed: Seq<(StoredValueState, bool)>)
    requires
        1 <= attempt <= KV_TRANSACTION_MAX_RETRIES,
        observed.len() >= KV_TRANSACTION_MAX_RETRIES,
    ensures
        conditional_insert_outcome(attempt, observed) is Finished || conditional_insert_outcome(
            attempt,
            observed,
        ) is RetriesExhausted,
        conditional_insert_outcome(attempt, observed) == ConditionalInsertStep::Finished(
            KvInsertResult::AlreadyExists,
        ) <==> exists|k: int|
            attempt - 1 <= k < KV_TRANSACTION_MAX_RETRIES && (#[trigger] observed[k]).0
                == StoredValueState::Live && rounds_lost(observed, attempt - 1, k),
        conditional_insert_outcome(attempt, observed) == ConditionalInsertStep::Finished(
            KvInsertResult::Inserted,
        ) <==> exists|k: int|
            attempt - 1 <= k < KV_TRANSACTION_MAX_RETRIES && (#[trigger] observed[k]).0
                != StoredValueState::Live && observed[k].1 && rounds_lost(observed, attempt - 1, k),
        conditional_insert_outcome(attempt, observed) == ConditionalInsertStep::RetriesExhausted
            <==> rounds_lost(observed, attempt - 1, KV_TRANSACTION_MAX_RETRIES as int),
    decreases KV_TRANSACTION_MAX_RETRIES - attempt,
{
    if attempt < KV_TRANSACTION_MAX_RETRIES {
        lemma_conditional_insert_outcome(attempt + 1, observed);
    }
    let first = observed[attempt - 1];
    if first.0 == StoredValueState::Live {
        assert(rounds_lost(observed, attempt - 1, attempt - 1));
    } else if first.1 {
        assert(rounds_lost(observed, attempt - 1, attempt - 1));
    } else if attempt < KV_TRANSACTION_MAX_RETRIES {
        assert forall|k: int|
            attempt - 1 <= k < KV_TRANSACTION_MAX_RETRIES && rounds_lost(
                observed,
                attempt - 1,
                k,
            ) implies #[trigger] rounds_lost(observed, attempt, k) && (k == attempt - 1 ==> (
            observed[k].0 != StoredValueState::Live && !observed[k].1)) by {}
        assert forall|k: int| attempt <= k <= KV_TRANSACTION_MAX_RETRIES && rounds_lost(
            observed,
            attempt,
            k,
        ) implies #[trigger] rounds_lost(observed, attempt - 1, k) by {}
    } else {
        assert forall|k: int|
            attempt - 1 <= k < KV_TRANSACTION_MAX_RETRIES implies #[trigger] observed[k]
            == observed[attempt - 1] by {}
    }
}

} // verus!
