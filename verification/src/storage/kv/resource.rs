//! Routing decisions of the KV resource operations.
//!
//! Each operation alternates Redis or PostgreSQL round trips with decisions. The
//! decisions live here as step functions: the caller performs the action a step asks
//! for (a Redis lookup, a PostgreSQL conflict check) and hands its outcome to the next
//! step, until a step decides the storage scheme or rejects the operation.

use vstd::prelude::*;

use super::scheme::KvState;
use super::wrapper::{KvBackendFailure, KvFindResult, KvInsertResult};
use crate::error::KvError;
use crate::storage::scheme::StorageScheme;
use crate::storage::types::{ReverseLookup, ReverseLookupNew};
use crate::text::{concat, to_owned_string};

verus! {

/// Where an operation is served: PostgreSQL directly, or the KV backend `B`.
#[derive(Debug, Clone, PartialEq, Eq)]
pub enum DecidedStorageScheme<B> {
    PostgresOnly,
    Kv(B),
}

impl<B> Default for DecidedStorageScheme<B> {
    fn default() -> (r: Self)
        ensures
            r == DecidedStorageScheme::<B>::PostgresOnly,
    {
        DecidedStorageScheme::PostgresOnly
    }
}

pub open spec fn decided_scheme_kind<B>(decided: DecidedStorageScheme<B>) -> StorageScheme {
    match decided {
        DecidedStorageScheme::PostgresOnly => StorageScheme::PostgresOnly,
        DecidedStorageScheme::Kv(_) => StorageScheme::RedisKv,
    }
}

impl<B> DecidedStorageScheme<B> {
    /// The storage scheme recorded on rows written under this decision.
    pub fn storage_scheme(&self) -> (r: StorageScheme)
        ensures
            r == decided_scheme_kind(*self),
    {
        match self {
            DecidedStorageScheme::PostgresOnly => StorageScheme::PostgresOnly,
            DecidedStorageScheme::Kv(_) => StorageScheme::RedisKv,
        }
    }
}

/// Why a KV operation is refused.
#[derive(Debug, Clone, PartialEq, Eq)]
pub enum KvRejection {
    /// A live record already owns `key`.
    Duplicate { key: String },
    /// The record was deleted through KV (a tombstone); `message` describes it.
    Deleted { message: String },
    /// The KV backend failed while serving `key`.
    BackendFailure { key: String },
    /// The PostgreSQL uniqueness check failed.
    ConflictCheckFailed,
}

/// [`KvRejection`] with its texts as character sequences.
pub enum KvRejectionView {
    Duplicate { key: Seq<char> },
    Deleted { message: Seq<char> },
    BackendFailure { key: Seq<char> },
    ConflictCheckFailed,
}

impl View for KvRejection {
    type V = KvRejectionView;

    open spec fn view(&self) -> KvRejectionView {
        match self {
            KvRejection::Duplicate { key } => KvRejectionView::Duplicate { key: key@ },
            KvRejection::Deleted { message } => KvRejectionView::Deleted { message: message@ },
            KvRejection::BackendFailure { key } => KvRejectionView::BackendFailure { key: key@ },
            KvRejection::ConflictCheckFailed => KvRejectionView::ConflictCheckFailed,
        }
    }
}

impl KvRejection {
    /// The KV error reported for a duplicate or a tombstone; backend and conflict-check
    /// failures are reported with the failing call's own error instead.
    pub fn to_kv_error(&self) -> (r: Option<KvError>)
        ensures
            match self {
                KvRejection::Duplicate { key } => r matches Some(KvError::DuplicateValue { key: k })
                    && k@ == key@,
                KvRejection::Deleted { message } => r matches Some(KvError::ValueNotFound(m)) && m@
                    == message@,
                _ => r is None,
            },
    {
        match self {
            KvRejection::Duplicate { key } => Some(KvError::DuplicateValue { key: key.clone() }),
            KvRejection::Deleted { message } => Some(KvError::ValueNotFound(message.clone())),
            _ => None,
        }
    }
}

/// What a Redis lookup found under a key.
#[derive(Debug, Clone, Copy, PartialEq, Eq, Structural)]
pub enum KvPresence {
    Present,
    Deleted,
    Absent,
    Failed,
}

/// The presence reported by a lookup result, whatever value it carries.
pub open spec fn presence_of<V>(found: Result<KvFindResult<V>, KvBackendFailure>) -> KvPresence {
    match found {
        Ok(KvFindResult::Present(_)) => KvPresence::Present,
        Ok(KvFindResult::Deleted) => KvPresence::Deleted,
        Ok(KvFindResult::Absent) => KvPresence::Absent,
        Err(_) => KvPresence::Failed,
    }
}

/// The Redis presence of a lookup result.
pub fn kv_presence<V>(found: &Result<KvFindResult<V>, KvBackendFailure>) -> (r: KvPresence)
    ensures
        r == presence_of(*found),
{
    match found {
        Ok(KvFindResult::Present(_)) => KvPresence::Present,
        Ok(KvFindResult::Deleted) => KvPresence::Deleted,
        Ok(KvFindResult::Absent) => KvPresence::Absent,
        Err(_) => KvPresence::Failed,
    }
}

/// Which Redis key an insert probe looked at.
#[derive(Debug, Clone, Copy, PartialEq, Eq, Structural)]
pub enum KvProbeTarget {
    PrimaryKey,
    ReverseLookupKey,
}

/// The keys an insert is checked under: the primary partition key and, for resources
/// with a secondary uniqueness key, the reverse-lookup id.
#[derive(Debug, Clone, PartialEq, Eq)]
pub struct InsertKeys {
    pub partition_key: String,
    pub reverse_lookup_id: Option<String>,
}

/// The next action of an insert's storage-scheme decision.
#[derive(Debug, Clone, PartialEq, Eq)]
pub enum InsertStep<B> {
    /// The scheme is decided.
    Decided(DecidedStorageScheme<B>),
    /// Look the primary partition key up in Redis.
    LookupPrimaryKey(B),
    /// Look the reverse-lookup key up in Redis.
    LookupReverseLookupKey(B),
    /// Ask PostgreSQL whether the primary or lookup key is already taken.
    CheckPostgresConflict(B),
    /// The insert is refused.
    Rejected(KvRejection),
}

/// [`InsertStep`] with the rejection's texts as character sequences.
pub enum InsertRoute<B> {
    Decided(DecidedStorageScheme<B>),
    LookupPrimaryKey(B),
    LookupReverseLookupKey(B),
    CheckPostgresConflict(B),
    Rejected(KvRejectionView),
}

impl<B> View for InsertStep<B> {
    type V = InsertRoute<B>;

    open spec fn view(&self) -> InsertRoute<B> {
        match self {
            InsertStep::Decided(d) => InsertRoute::Decided(*d),
            InsertStep::LookupPrimaryKey(b) => InsertRoute::LookupPrimaryKey(*b),
            InsertStep::LookupReverseLookupKey(b) => InsertRoute::LookupReverseLookupKey(*b),
            InsertStep::CheckPostgresConflict(b) => InsertRoute::CheckPostgresConflict(*b),
            InsertStep::Rejected(r) => InsertRoute::Rejected(r@),
        }
    }
}

/// The Redis key text of a reverse-lookup record.
pub open spec fn reverse_lookup_key_text(lookup_id: Seq<char>) -> Seq<char> {
    "reverse_lookup_"@ + lookup_id
}

pub open spec fn spec_insert_start<B>(state: KvState, backend: Option<B>) -> InsertRoute<B> {
    match state {
        KvState::Disabled => InsertRoute::Decided(DecidedStorageScheme::PostgresOnly),
        _ => match backend {
            None => InsertRoute::Decided(DecidedStorageScheme::PostgresOnly),
            Some(b) => InsertRoute::LookupPrimaryKey(b),
        },
    }
}

/// When Redis knows nothing of the keys: under `Enabled` PostgreSQL must be checked for
/// rows created before KV was enabled; under `SoftKill` the insert moves to PostgreSQL.
pub open spec fn spec_insert_without_kv_state<B>(state: KvState, backend: B) -> InsertRoute<B> {
    if state == KvState::Enabled {
        InsertRoute::CheckPostgresConflict(backend)
    } else {
        InsertRoute::Decided(DecidedStorageScheme::PostgresOnly)
    }
}

pub open spec fn spec_insert_after_probe<B>(
    state: KvState,
    backend: B,
    target: KvProbeTarget,
    presence: KvPresence,
    partition_key: Seq<char>,
    reverse_lookup_id: Option<Seq<char>>,
) -> InsertRoute<B> {
    match target {
        KvProbeTarget::PrimaryKey => match presence {
            KvPresence::Present => InsertRoute::Rejected(
                KvRejectionView::Duplicate { key: partition_key },
            ),
            KvPresence::Deleted => InsertRoute::Decided(DecidedStorageScheme::Kv(backend)),
            KvPresence::Failed => InsertRoute::Rejected(
                KvRejectionView::BackendFailure { key: partition_key },
            ),
            KvPresence::Absent => match reverse_lookup_id {
                Some(_) => InsertRoute::LookupReverseLookupKey(backend),
                None => spec_insert_without_kv_state(state, backend),
            },
        },
        KvProbeTarget::ReverseLookupKey => match reverse_lookup_id {
            None => spec_insert_without_kv_state(state, backend),
            Some(id) => match presence {
                KvPresence::Present => InsertRoute::Rejected(KvRejectionView::Duplicate { key: id }),
                KvPresence::Deleted => InsertRoute::Decided(DecidedStorageScheme::Kv(backend)),
                KvPresence::Failed => InsertRoute::Rejected(
                    KvRejectionView::BackendFailure { key: reverse_lookup_key_text(id) },
                ),
                KvPresence::Absent => spec_insert_without_kv_state(state, backend),
            },
        },
    }
}

/// A key already taken in PostgreSQL, found by the insert-time conflict check.
#[derive(Debug, Clone, PartialEq, Eq)]
pub enum InsertConflictKey {
    PartitionKey(String),
    LookupKey(String),
}

impl InsertConflictKey {
    /// The conflicting key.
    pub fn key(&self) -> (r: &str)
        ensures
            r@ == (match self {
                InsertConflictKey::PartitionKey(k) => k@,
                InsertConflictKey::LookupKey(k) => k@,
            }),
    {
        match self {
            InsertConflictKey::PartitionKey(key) => key.as_str(),
            InsertConflictKey::LookupKey(key) => key.as_str(),
        }
    }

    /// Which kind of key conflicts (`partition_key` or `lookup_key`).
    pub fn kind(&self) -> (r: &'static str)
        ensures
            r == (match self {
                InsertConflictKey::PartitionKey(_) => "partition_key",
                InsertConflictKey::LookupKey(_) => "lookup_key",
            }),
    {
        match self {
            InsertConflictKey::PartitionKey(_) => "partition_key",
            InsertConflictKey::LookupKey(_) => "lookup_key",
        }
    }
}

/// Outcome of the PostgreSQL insert-time conflict check.
#[derive(Debug, Clone, PartialEq, Eq)]
pub enum ConflictCheck {
    NoConflict,
    Conflict(InsertConflictKey),
    Failed,
}

pub open spec fn conflict_key_text(key: InsertConflictKey) -> Seq<char> {
    match key {
        InsertConflictKey::PartitionKey(k) => k@,
        InsertConflictKey::LookupKey(k) => k@,
    }
}

pub open spec fn spec_insert_after_conflict_check<B>(backend: B, conflict: ConflictCheck) -> InsertRoute<B> {
    match conflict {
        ConflictCheck::NoConflict => InsertRoute::Decided(DecidedStorageScheme::Kv(backend)),
        ConflictCheck::Conflict(key) => InsertRoute::Rejected(
            KvRejectionView::Duplicate { key: conflict_key_text(key) },
        ),
        ConflictCheck::Failed => InsertRoute::Rejected(KvRejectionView::ConflictCheckFailed),
    }
}

/// First step of deciding where an insert is written.
///
/// The insert path is more conservative than reads because accepting a Redis write for a
/// row that already exists only in PostgreSQL would bypass PostgreSQL's unique constraints
/// until drainer replay. `Disabled` (or no KV backend) writes to PostgreSQL; otherwise
/// Redis is consulted first.
pub fn decide_storage_scheme_for_insert_operation<B>(state: KvState, backend: Option<B>) -> (r:
    InsertStep<B>)
    ensures
        r@ == spec_insert_start(state, backend),
{
    match state {
        KvState::Disabled => InsertStep::Decided(DecidedStorageScheme::PostgresOnly),
        _ => match backend {
            None => InsertStep::Decided(DecidedStorageScheme::PostgresOnly),
            Some(b) => InsertStep::LookupPrimaryKey(b),
        },
    }
}

fn insert_without_kv_state<B>(state: KvState, backend: B) -> (r: InsertStep<B>)
    ensures
        r@ == spec_insert_without_kv_state(state, backend),
{
    if state == KvState::Enabled {
        InsertStep::CheckPostgresConflict(backend)
    } else {
        InsertStep::Decided(DecidedStorageScheme::PostgresOnly)
    }
}

/// Next step of an insert decision after a Redis probe of `target` found `presence`.
///
/// A live primary or reverse-lookup record makes the insert a duplicate; a tombstone
/// keeps the insert on KV so the drainer replays the pending delete and the insert in
/// order; a failure is reported, never treated as a miss. When the primary key is
/// absent the reverse-lookup key (if any) is probed next; when Redis knows neither key,
/// `Enabled` checks PostgreSQL and `SoftKill` writes to PostgreSQL.
pub fn decide_insert_scheme_from_kv_state<B>(
    state: KvState,
    backend: B,
    target: KvProbeTarget,
    presence: KvPresence,
    keys: &InsertKeys,
) -> (r: InsertStep<B>)
    ensures
        r@ == spec_insert_after_probe(
            state,
            backend,
            target,
            presence,
            keys.partition_key@,
            keys.reverse_lookup_id.deep_view(),
        ),
{
    match target {
        KvProbeTarget::PrimaryKey => match presence {
            KvPresence::Present => InsertStep::Rejected(
                KvRejection::Duplicate { key: keys.partition_key.clone() },
            ),
            KvPresence::Deleted => InsertStep::Decided(DecidedStorageScheme::Kv(backend)),
            KvPresence::Failed => InsertStep::Rejected(
                KvRejection::BackendFailure { key: keys.partition_key.clone() },
            ),
            KvPresence::Absent => match &keys.reverse_lookup_id {
                Some(_) => InsertStep::LookupReverseLookupKey(backend),
                None => insert_without_kv_state(state, backend),
            },
        },
        KvProbeTarget::ReverseLookupKey => match &keys.reverse_lookup_id {
            None => insert_without_kv_state(state, backend),
            Some(id) => match presence {
                KvPresence::Present => InsertStep::Rejected(
                    KvRejection::Duplicate { key: id.clone() },
                ),
                KvPresence::Deleted => InsertStep::Decided(DecidedStorageScheme::Kv(backend)),
                KvPresence::Failed => {
                    let key = concat("reverse_lookup_", id.as_str());
                    InsertStep::Rejected(KvRejection::BackendFailure { key })
                },
                KvPresence::Absent => insert_without_kv_state(state, backend),
            },
        },
    }
}

/// Last step of an `Enabled` insert whose keys Redis does not know: a PostgreSQL
/// conflict makes it a duplicate, no conflict routes it through KV.
pub fn decide_insert_scheme_from_conflict_check<B>(backend: B, conflict: ConflictCheck) -> (r:
    InsertStep<B>)
    ensures
        r@ == spec_insert_after_conflict_check(backend, conflict),
{
    match conflict {
        ConflictCheck::NoConflict => InsertStep::Decided(DecidedStorageScheme::Kv(backend)),
        ConflictCheck::Conflict(InsertConflictKey::PartitionKey(key)) => InsertStep::Rejected(
            KvRejection::Duplicate { key },
        ),
        ConflictCheck::Conflict(InsertConflictKey::LookupKey(key)) => InsertStep::Rejected(
            KvRejection::Duplicate { key },
        ),
        ConflictCheck::Failed => InsertStep::Rejected(KvRejection::ConflictCheckFailed),
    }
}

/// The whole insert decision when the Redis probes find `primary` and `reverse` and the
/// PostgreSQL check reports `conflict` (each used only if the decision asks for it).
pub open spec fn insert_route<B>(
    state: KvState,
    backend: Option<B>,
    primary: KvPresence,
    reverse: KvPresence,
    conflict: ConflictCheck,
    partition_key: Seq<char>,
    reverse_lookup_id: Option<Seq<char>>,
) -> InsertRoute<B> {
    match spec_insert_start(state, backend) {
        InsertRoute::LookupPrimaryKey(b) => match spec_insert_after_probe(
            state,
            b,
            KvProbeTarget::PrimaryKey,
            primary,
            partition_key,
            reverse_lookup_id,
        ) {
            InsertRoute::LookupReverseLookupKey(b2) => match spec_insert_after_probe(
                state,
                b2,
                KvProbeTarget::ReverseLookupKey,
                reverse,
                partition_key,
                reverse_lookup_id,
            ) {
                InsertRoute::CheckPostgresConflict(b3) => spec_insert_after_conflict_check(
                    b3,
                    conflict,
                ),
                other => other,
            },
            InsertRoute::CheckPostgresConflict(b2) => spec_insert_after_conflict_check(b2, conflict),
            other => other,
        },
        other => other,
    }
}

/// The laws of the insert decision:
/// it always ends in a decision or a rejection; a live reverse-lookup record makes the
/// insert a duplicate of its lookup id, in soft-kill as in enabled, and a failed probe of
/// it is reported under the reverse-lookup key; with KV disabled or no KV backend the
/// insert goes to PostgreSQL; it goes to KV only through the given backend and never
/// when KV is disabled; a live primary record is always a duplicate and a Redis failure
/// is always reported; a tombstoned primary key keeps the insert on KV; in soft-kill the
/// insert goes to KV only when Redis holds a tombstone for one of its keys and is never
/// checked against PostgreSQL; with KV enabled and both keys unknown to Redis, the insert
/// goes to KV exactly when PostgreSQL reports no conflict. Hence an insert is written
/// through KV only over a tombstone of one of its keys or after PostgreSQL found none of
/// them taken: it never bypasses PostgreSQL's unique constraints.
pub proof fn lemma_insert_route(
    state: KvState,
    backend: Option<int>,
    primary: KvPresence,
    reverse: KvPresence,
    conflict: ConflictCheck,
    partition_key: Seq<char>,
    reverse_lookup_id: Option<Seq<char>>,
)
    ensures
        ({
            let r = insert_route(
                state,
                backend,
                primary,
                reverse,
                conflict,
                partition_key,
                reverse_lookup_id,
            );
            &&& r is Decided || r is Rejected
            &&& (state == KvState::Disabled || backend is None) ==> r == InsertRoute::<int>::Decided(
                DecidedStorageScheme::PostgresOnly,
            )
            &&& r matches InsertRoute::Decided(DecidedStorageScheme::Kv(b)) ==> state
                != KvState::Disabled && backend == Some(b)
            &&& (state != KvState::Disabled && backend is Some && primary == KvPresence::Present)
                ==> r == InsertRoute::<int>::Rejected(
                KvRejectionView::Duplicate { key: partition_key },
            )
            &&& (state != KvState::Disabled && backend is Some && primary == KvPresence::Failed)
                ==> r == InsertRoute::<int>::Rejected(
                KvRejectionView::BackendFailure { key: partition_key },
            )
            &&& (state != KvState::Disabled && backend is Some && primary == KvPresence::Deleted)
                ==> r == InsertRoute::Decided(DecidedStorageScheme::Kv(backend->0))
            &&& state == KvState::SoftKill ==> r != InsertRoute::<int>::Rejected(
                KvRejectionView::ConflictCheckFailed,
            ) && ((r is Decided && r->Decided_0 is Kv) ==> (primary
                == KvPresence::Deleted || (primary == KvPresence::Absent && reverse_lookup_id is Some
                && reverse == KvPresence::Deleted)))
            &&& (state == KvState::Enabled && backend is Some && primary == KvPresence::Absent && (
            reverse_lookup_id is None || reverse == KvPresence::Absent)) ==> r
                == spec_insert_after_conflict_check(backend->0, conflict)
            &&& (state != KvState::Disabled && backend is Some && primary == KvPresence::Absent
                && reverse_lookup_id is Some && reverse == KvPresence::Present) ==> r
                == InsertRoute::<int>::Rejected(
                KvRejectionView::Duplicate { key: reverse_lookup_id->0 },
            )
            &&& (state != KvState::Disabled && backend is Some && primary == KvPresence::Absent
                && reverse_lookup_id is Some && reverse == KvPresence::Failed) ==> r
                == InsertRoute::<int>::Rejected(
                KvRejectionView::BackendFailure {
                    key: reverse_lookup_key_text(reverse_lookup_id->0),
                },
            )
            &&& (r is Decided && r->Decided_0 is Kv) ==> (primary == KvPresence::Deleted || (primary
                == KvPresence::Absent && reverse_lookup_id is Some && reverse == KvPresence::Deleted)
                || (state == KvState::Enabled && primary == KvPresence::Absent && (reverse_lookup_id
                is None || reverse == KvPresence::Absent) && conflict == ConflictCheck::NoConflict))
        }),
{
}

/// The next action of an update or delete's storage-scheme decision.
#[derive(Debug, Clone, PartialEq, Eq)]
pub enum MutateStep<B, V> {
    /// The scheme is decided; under soft-kill a live Redis value is handed on as the
    /// current value.
    Decided(DecidedStorageScheme<B>, Option<V>),
    /// Look the primary partition key up in Redis.
    LookupPrimaryKey(B),
}

pub open spec fn spec_mutate_start<B, V>(state: KvState, backend: Option<B>) -> MutateStep<B, V> {
    match state {
        KvState::Disabled => MutateStep::Decided(DecidedStorageScheme::PostgresOnly, None),
        KvState::Enabled => match backend {
            Some(b) => MutateStep::Decided(DecidedStorageScheme::Kv(b), None),
            None => MutateStep::Decided(DecidedStorageScheme::PostgresOnly, None),
        },
        KvState::SoftKill => match backend {
            Some(b) => MutateStep::LookupPrimaryKey(b),
            None => MutateStep::Decided(DecidedStorageScheme::PostgresOnly, None),
        },
    }
}

/// First step of deciding where an update or delete is served: `Disabled` uses
/// PostgreSQL, `Enabled` uses KV when a backend exists, `SoftKill` consults Redis.
pub fn decide_storage_scheme_for_mutate_operation<B, V>(state: KvState, backend: Option<B>) -> (r:
    MutateStep<B, V>)
    ensures
        r == spec_mutate_start::<B, V>(state, backend),
{
    match state {
        KvState::Disabled => MutateStep::Decided(DecidedStorageScheme::PostgresOnly, None),
        KvState::Enabled => match backend {
            Some(b) => MutateStep::Decided(DecidedStorageScheme::Kv(b), None),
            None => MutateStep::Decided(DecidedStorageScheme::PostgresOnly, None),
        },
        KvState::SoftKill => match backend {
            Some(b) => MutateStep::LookupPrimaryKey(b),
            None => MutateStep::Decided(DecidedStorageScheme::PostgresOnly, None),
        },
    }
}

/// The decision of a soft-kill update or delete after the Redis lookup of its key, with
/// a rejection as `None`.
pub open spec fn spec_mutate_after_lookup<B, V>(
    backend: B,
    found: Result<KvFindResult<V>, KvBackendFailure>,
) -> Option<(DecidedStorageScheme<B>, Option<V>)> {
    match found {
        Ok(KvFindResult::Present(v)) => Some((DecidedStorageScheme::Kv(backend), Some(v))),
        Ok(KvFindResult::Deleted) => Some((DecidedStorageScheme::Kv(backend), None)),
        Ok(KvFindResult::Absent) => Some((DecidedStorageScheme::PostgresOnly, None)),
        Err(_) => None,
    }
}

/// Soft-kill update or delete after the Redis lookup of `partition_key`: a live value
/// or a tombstone keeps the operation on KV (covering drainer delay), an absent key
/// moves it to PostgreSQL, a failure is reported.
pub fn decide_mutate_scheme_from_kv_state<B, V>(
    backend: B,
    found: Result<KvFindResult<V>, KvBackendFailure>,
    partition_key: &String,
) -> (r: Result<(DecidedStorageScheme<B>, Option<V>), KvRejection>)
    ensures
        match spec_mutate_after_lookup(backend, found) {
            Some(decided) => r == Ok::<_, KvRejection>(decided),
            None => r matches Err(rej) && rej@ == KvRejectionView::BackendFailure {
                key: partition_key@,
            },
        },
{
    match found {
        Ok(KvFindResult::Present(v)) => Ok((DecidedStorageScheme::Kv(backend), Some(v))),
        Ok(KvFindResult::Deleted) => Ok((DecidedStorageScheme::Kv(backend), None)),
        Ok(KvFindResult::Absent) => Ok((DecidedStorageScheme::PostgresOnly, None)),
        Err(_) => Err(KvRejection::BackendFailure { key: partition_key.clone() }),
    }
}

/// The whole update or delete decision when the Redis lookup (made only if the
/// decision asks for it) finds `found`; a rejection is `None`.
pub open spec fn mutate_route<B, V>(
    state: KvState,
    backend: Option<B>,
    found: Result<KvFindResult<V>, KvBackendFailure>,
) -> Option<(DecidedStorageScheme<B>, Option<V>)> {
    match spec_mutate_start::<B, V>(state, backend) {
        MutateStep::Decided(d, v) => Some((d, v)),
        MutateStep::LookupPrimaryKey(b) => spec_mutate_after_lookup(b, found),
    }
}

/// The laws of the update and delete decision: with KV disabled or no KV backend the
/// operation goes to PostgreSQL; with KV enabled it goes to KV without asking Redis; in
/// soft-kill it stays on KV exactly when Redis still holds the key (a value, handed on as
/// the current value, or a tombstone), goes to PostgreSQL when Redis does not know the
/// key, and is refused when Redis fails.
pub proof fn lemma_mutate_route(
    state: KvState,
    backend: Option<int>,
    found: Result<KvFindResult<int>, KvBackendFailure>,
)
    ensures
        ({
            let r = mutate_route(state, backend, found);
            &&& (state == KvState::Disabled || backend is None) ==> r == Some(
                (DecidedStorageScheme::<int>::PostgresOnly, None::<int>),
            )
            &&& (state == KvState::Enabled && backend is Some) ==> r == Some(
                (DecidedStorageScheme::Kv(backend->0), None::<int>),
            )
            &&& (state == KvState::SoftKill && backend is Some) ==> (match found {
                Ok(KvFindResult::Present(v)) => r == Some(
                    (DecidedStorageScheme::Kv(backend->0), Some(v)),
                ),
                Ok(KvFindResult::Deleted) => r == Some(
                    (DecidedStorageScheme::Kv(backend->0), None::<int>),
                ),
                Ok(KvFindResult::Absent) => r == Some(
                    (DecidedStorageScheme::<int>::PostgresOnly, None::<int>),
                ),
                Err(_) => r is None,
            })
            &&& r matches Some((DecidedStorageScheme::Kv(b), _)) ==> state != KvState::Disabled
                && backend == Some(b)
        }),
{
}

pub open spec fn spec_find_scheme<B>(state: KvState, backend: Option<B>) -> DecidedStorageScheme<B> {
    match state {
        KvState::Disabled => DecidedStorageScheme::PostgresOnly,
        _ => match backend {
            Some(b) => DecidedStorageScheme::Kv(b),
            None => DecidedStorageScheme::PostgresOnly,
        },
    }
}

/// Where a read is served: PostgreSQL when KV is disabled or no backend exists,
/// otherwise KV (also in soft-kill, falling back to PostgreSQL on a miss).
pub fn decide_storage_scheme_for_find_operation<B>(state: KvState, backend: Option<B>) -> (r:
    DecidedStorageScheme<B>)
    ensures
        r == spec_find_scheme(state, backend),
{
    match state {
        KvState::Disabled => DecidedStorageScheme::PostgresOnly,
        _ => match backend {
            Some(b) => DecidedStorageScheme::Kv(b),
            None => DecidedStorageScheme::PostgresOnly,
        },
    }
}

/// How a KV read by key ends.
#[derive(Debug, Clone, PartialEq, Eq)]
pub enum FindStep<V> {
    Found(V),
    /// Redis does not know the key: read from PostgreSQL.
    FallBackToPostgres,
    Rejected(KvRejection),
}

/// [`FindStep`] with the rejection's texts as character sequences.
pub enum FindRoute<V> {
    Found(V),
    FallBackToPostgres,
    Rejected(KvRejectionView),
}

impl<V> View for FindStep<V> {
    type V = FindRoute<V>;

    open spec fn view(&self) -> FindRoute<V> {
        match self {
            FindStep::Found(v) => FindRoute::Found(*v),
            FindStep::FallBackToPostgres => FindRoute::FallBackToPostgres,
            FindStep::Rejected(r) => FindRoute::Rejected(r@),
        }
    }
}

pub open spec fn spec_resolve_kv_find<V>(
    found: Result<KvFindResult<V>, KvBackendFailure>,
    key: Seq<char>,
) -> FindRoute<V> {
    match found {
        Ok(KvFindResult::Present(v)) => FindRoute::Found(v),
        Ok(KvFindResult::Absent) => FindRoute::FallBackToPostgres,
        Ok(KvFindResult::Deleted) => FindRoute::Rejected(
            KvRejectionView::Deleted { message: "Data was deleted for key "@ + key },
        ),
        Err(_) => FindRoute::Rejected(KvRejectionView::BackendFailure { key }),
    }
}

/// The outcome of a KV read of `key`: a hit returns the value, a miss falls back to
/// PostgreSQL, a tombstone reports the record as deleted, and a Redis failure is
/// surfaced rather than masked.
pub fn resolve_kv_find<V>(found: Result<KvFindResult<V>, KvBackendFailure>, key: &String) -> (r:
    FindStep<V>)
    ensures
        r@ == spec_resolve_kv_find(found, key@),
{
    match found {
        Ok(KvFindResult::Present(v)) => FindStep::Found(v),
        Ok(KvFindResult::Absent) => FindStep::FallBackToPostgres,
        Ok(KvFindResult::Deleted) => {
            let message = concat("Data was deleted for key ", key.as_str());
            FindStep::Rejected(KvRejection::Deleted { message })
        },
        Err(_) => FindStep::Rejected(KvRejection::BackendFailure { key: key.clone() }),
    }
}

/// How the reverse-lookup stage of a read by secondary key ends.
#[derive(Debug, Clone, PartialEq, Eq)]
pub enum LookupStep {
    /// The secondary key maps to this primary partition key.
    Resolved(String),
    /// Redis does not know the lookup id: read by secondary key from PostgreSQL.
    FallBackToPostgres,
    Rejected(KvRejection),
}

/// [`LookupStep`] with its texts as character sequences.
pub enum LookupRoute {
    Resolved(Seq<char>),
    FallBackToPostgres,
    Rejected(KvRejectionView),
}

impl View for LookupStep {
    type V = LookupRoute;

    open spec fn view(&self) -> LookupRoute {
        match self {
            LookupStep::Resolved(k) => LookupRoute::Resolved(k@),
            LookupStep::FallBackToPostgres => LookupRoute::FallBackToPostgres,
            LookupStep::Rejected(r) => LookupRoute::Rejected(r@),
        }
    }
}

pub open spec fn spec_resolve_reverse_lookup(
    found: Result<KvFindResult<ReverseLookup>, KvBackendFailure>,
    lookup_id: Seq<char>,
) -> LookupRoute {
    match found {
        Ok(KvFindResult::Present(record)) => LookupRoute::Resolved(record.partition_key@),
        Ok(KvFindResult::Absent) => LookupRoute::FallBackToPostgres,
        Ok(KvFindResult::Deleted) => LookupRoute::Rejected(
            KvRejectionView::Deleted {
                message: "Data was deleted for reverse lookup key "@ + lookup_id,
            },
        ),
        Err(_) => LookupRoute::Rejected(
            KvRejectionView::BackendFailure { key: reverse_lookup_key_text(lookup_id) },
        ),
    }
}

/// The outcome of the Redis read of a reverse-lookup record for `lookup_id`.
pub fn resolve_reverse_lookup(
    found: Result<KvFindResult<ReverseLookup>, KvBackendFailure>,
    lookup_id: &String,
) -> (r: LookupStep)
    ensures
        r@ == spec_resolve_reverse_lookup(found, lookup_id@),
{
    match found {
        Ok(KvFindResult::Present(record)) => LookupStep::Resolved(record.partition_key),
        Ok(KvFindResult::Absent) => LookupStep::FallBackToPostgres,
        Ok(KvFindResult::Deleted) => {
            let message = concat("Data was deleted for reverse lookup key ", lookup_id.as_str());
            LookupStep::Rejected(KvRejection::Deleted { message })
        },
        Err(_) => {
            let key = concat("reverse_lookup_", lookup_id.as_str());
            LookupStep::Rejected(KvRejection::BackendFailure { key })
        },
    }
}

/// The whole read of a resource by its partition key `key`, when the Redis read (made
/// only if KV serves the read) finds `found`.
pub open spec fn find_by_id_route<B, V>(
    state: KvState,
    backend: Option<B>,
    found: Result<KvFindResult<V>, KvBackendFailure>,
    key: Seq<char>,
) -> FindRoute<V> {
    match spec_find_scheme(state, backend) {
        DecidedStorageScheme::PostgresOnly => FindRoute::FallBackToPostgres,
        DecidedStorageScheme::Kv(_) => spec_resolve_kv_find(found, key),
    }
}

/// The laws of a read by partition key: with KV disabled or no KV backend it reads
/// PostgreSQL; otherwise a live Redis value is returned as is, a miss falls back to
/// PostgreSQL (also in soft-kill), a tombstone is reported as deleted, and a Redis
/// failure is reported under the key, never taken for a miss.
pub proof fn lemma_find_by_id_route(
    state: KvState,
    backend: Option<int>,
    found: Result<KvFindResult<int>, KvBackendFailure>,
    key: Seq<char>,
)
    ensures
        ({
            let r = find_by_id_route(state, backend, found, key);
            let kv_on = state != KvState::Disabled && backend is Some;
            &&& !kv_on ==> r == FindRoute::<int>::FallBackToPostgres
            &&& r is Found ==> (kv_on && found == Ok::<KvFindResult<int>, KvBackendFailure>(
                KvFindResult::Present(r->Found_0),
            ))
            &&& (kv_on && presence_of(found) == KvPresence::Absent) ==> r
                == FindRoute::<int>::FallBackToPostgres
            &&& (kv_on && found is Err) ==> r == FindRoute::<int>::Rejected(
                KvRejectionView::BackendFailure { key },
            )
            &&& (kv_on && presence_of(found) == KvPresence::Deleted) ==> (r is Rejected
                && r->Rejected_0 is Deleted)
        }),
{
}

/// The whole read of a resource by its secondary key `lookup_id`, when the Redis read
/// of the reverse-lookup record finds `lookup` and the read of the record it points to
/// finds `record` (each made only if the read gets that far).
pub open spec fn find_by_lookup_route<B, V>(
    state: KvState,
    backend: Option<B>,
    lookup: Result<KvFindResult<ReverseLookup>, KvBackendFailure>,
    record: Result<KvFindResult<V>, KvBackendFailure>,
    lookup_id: Seq<char>,
) -> FindRoute<V> {
    match spec_find_scheme(state, backend) {
        DecidedStorageScheme::PostgresOnly => FindRoute::FallBackToPostgres,
        DecidedStorageScheme::Kv(_) => match spec_resolve_reverse_lookup(lookup, lookup_id) {
            LookupRoute::Resolved(partition_key) => spec_resolve_kv_find(record, partition_key),
            LookupRoute::FallBackToPostgres => FindRoute::FallBackToPostgres,
            LookupRoute::Rejected(rejection) => FindRoute::Rejected(rejection),
        },
    }
}

/// The laws of a read by secondary key: with KV disabled or no KV backend it reads
/// PostgreSQL; otherwise it returns a value from Redis only when both the reverse-lookup
/// record and the record it points to are live there, and then exactly that value; a
/// miss of either in Redis falls back to PostgreSQL; a tombstone on either is reported as
/// deleted; a Redis failure on either is reported under the key that failed, never
/// taken for a miss.
pub proof fn lemma_find_by_lookup_route(
    state: KvState,
    backend: Option<int>,
    lookup: Result<KvFindResult<ReverseLookup>, KvBackendFailure>,
    record: Result<KvFindResult<int>, KvBackendFailure>,
    lookup_id: Seq<char>,
)
    ensures
        ({
            let r = find_by_lookup_route(state, backend, lookup, record, lookup_id);
            let kv_on = state != KvState::Disabled && backend is Some;
            let live_lookup = presence_of(lookup) == KvPresence::Present;
            &&& !kv_on ==> r == FindRoute::<int>::FallBackToPostgres
            &&& r is Found ==> (kv_on && live_lookup && record == Ok::<
                KvFindResult<int>,
                KvBackendFailure,
            >(KvFindResult::Present(r->Found_0)))
            &&& (kv_on && live_lookup && presence_of(record) == KvPresence::Present) ==> r
                == FindRoute::Found(record->Ok_0->Present_0)
            &&& (kv_on && (presence_of(lookup) == KvPresence::Absent || (live_lookup && presence_of(
                record,
            ) == KvPresence::Absent))) ==> r == FindRoute::<int>::FallBackToPostgres
            &&& (kv_on && lookup is Err) ==> r == FindRoute::<int>::Rejected(
                KvRejectionView::BackendFailure { key: reverse_lookup_key_text(lookup_id) },
            )
            &&& (kv_on && live_lookup && record is Err) ==> r == FindRoute::<int>::Rejected(
                KvRejectionView::BackendFailure { key: lookup->Ok_0->Present_0.partition_key@ },
            )
            &&& (kv_on && (presence_of(lookup) == KvPresence::Deleted || (live_lookup && presence_of(
                record,
            ) == KvPresence::Deleted))) ==> (r is Rejected && r->Rejected_0 is Deleted)
        }),
{
}

/// Outcome of a PostgreSQL read by key.
#[derive(Debug, Clone, Copy, PartialEq, Eq, Structural)]
pub enum StorageLookup {
    Found,
    NotFound,
    Failed,
}

/// The next action of the insert-time PostgreSQL conflict check.
#[derive(Debug, Clone, PartialEq, Eq)]
pub enum ConflictCheckStep {
    /// Read by the secondary (reverse-lookup) key.
    CheckLookupKey,
    Done(ConflictCheck),
}

/// After the PostgreSQL read by primary key: a row means the partition key is taken;
/// a miss is final for direct inserts and continues with the secondary key for inserts
/// with a reverse lookup; a failure is reported.
pub fn storage_get_insert_conflict_after_primary(
    found: StorageLookup,
    has_lookup_key: bool,
    partition_key: &String,
) -> (r: ConflictCheckStep)
    ensures
        match found {
            StorageLookup::Found => r matches ConflictCheckStep::Done(
                ConflictCheck::Conflict(InsertConflictKey::PartitionKey(k)),
            ) && k@ == partition_key@,
            StorageLookup::NotFound => r == (if has_lookup_key {
                ConflictCheckStep::CheckLookupKey
            } else {
                ConflictCheckStep::Done(ConflictCheck::NoConflict)
            }),
            StorageLookup::Failed => r == ConflictCheckStep::Done(ConflictCheck::Failed),
        },
{
    match found {
        StorageLookup::Found => ConflictCheckStep::Done(
            ConflictCheck::Conflict(InsertConflictKey::PartitionKey(partition_key.clone())),
        ),
        StorageLookup::NotFound => if has_lookup_key {
            ConflictCheckStep::CheckLookupKey
        } else {
            ConflictCheckStep::Done(ConflictCheck::NoConflict)
        },
        StorageLookup::Failed => ConflictCheckStep::Done(ConflictCheck::Failed),
    }
}

/// After the PostgreSQL read by secondary key: a row means the lookup id is taken.
pub fn storage_get_insert_conflict_after_lookup(found: StorageLookup, lookup_id: &String) -> (r:
    ConflictCheck)
    ensures
        match found {
            StorageLookup::Found => r matches ConflictCheck::Conflict(
                InsertConflictKey::LookupKey(k),
            ) && k@ == lookup_id@,
            StorageLookup::NotFound => r == ConflictCheck::NoConflict,
            StorageLookup::Failed => r == ConflictCheck::Failed,
        },
{
    match found {
        StorageLookup::Found => ConflictCheck::Conflict(
            InsertConflictKey::LookupKey(lookup_id.clone()),
        ),
        StorageLookup::NotFound => ConflictCheck::NoConflict,
        StorageLookup::Failed => ConflictCheck::Failed,
    }
}

/// The result of a KV insert reply: `AlreadyExists` is a duplicate of `partition_key`.
pub fn kv_insert_reply_to_result(reply: KvInsertResult, partition_key: &String) -> (r: Result<
    (),
    KvError,
>)
    ensures
        match reply {
            KvInsertResult::Inserted => r == Ok::<(), KvError>(()),
            KvInsertResult::AlreadyExists => r matches Err(KvError::DuplicateValue { key: k }) && k@
                == partition_key@,
        },
{
    match reply {
        KvInsertResult::Inserted => Ok(()),
        KvInsertResult::AlreadyExists => Err(
            KvError::DuplicateValue { key: partition_key.clone() },
        ),
    }
}

/// What an insert routed through KV does next.
#[derive(Debug, PartialEq, Eq)]
pub enum KvInsertStep {
    /// Insert this reverse-lookup row, before anything is written to Redis.
    InsertReverseLookup(ReverseLookupNew),
    /// Write the record (and its drainer entry) to Redis.
    WriteRedis,
    /// The insert is over, with this result.
    Done(Result<(), KvError>),
}

/// The stage a [`KvInsertStep`] stands for, payloads aside.
#[derive(Debug, Clone, Copy, PartialEq, Eq, Structural)]
pub enum KvInsertStage {
    ReverseLookupRow,
    RedisWrite,
    Finished,
}

pub open spec fn kv_insert_stage(step: KvInsertStep) -> KvInsertStage {
    match step {
        KvInsertStep::InsertReverseLookup(_) => KvInsertStage::ReverseLookupRow,
        KvInsertStep::WriteRedis => KvInsertStage::RedisWrite,
        KvInsertStep::Done(_) => KvInsertStage::Finished,
    }
}

/// How the insert of a reverse-lookup row ended.
#[derive(Debug, Clone, Copy, PartialEq, Eq, Structural)]
pub enum ReverseLookupInsertOutcome {
    Inserted,
    /// A row with the same lookup id exists.
    Duplicate,
    Failed,
}

pub open spec fn spec_kv_insert_begin(has_lookup: bool) -> KvInsertStage {
    if has_lookup {
        KvInsertStage::ReverseLookupRow
    } else {
        KvInsertStage::RedisWrite
    }
}

pub open spec fn spec_kv_insert_after_reverse_lookup(outcome: ReverseLookupInsertOutcome) -> KvInsertStage {
    if outcome == ReverseLookupInsertOutcome::Inserted {
        KvInsertStage::RedisWrite
    } else {
        KvInsertStage::Finished
    }
}

/// First action of an insert routed through KV: a resource with a secondary key first
/// registers its reverse-lookup row; any other goes straight to the Redis write.
pub fn kv_insert_begin(reverse_lookup: Option<ReverseLookupNew>) -> (r: KvInsertStep)
    ensures
        kv_insert_stage(r) == spec_kv_insert_begin(reverse_lookup is Some),
        match reverse_lookup {
            Some(row) => r == KvInsertStep::InsertReverseLookup(row),
            None => r == KvInsertStep::WriteRedis,
        },
{
    match reverse_lookup {
        Some(row) => KvInsertStep::InsertReverseLookup(row),
        None => KvInsertStep::WriteRedis,
    }
}

/// After the reverse-lookup row of `lookup_id`: once it is inserted the record is
/// written to Redis; otherwise the insert ends with the row's error and nothing is
/// written to Redis.
pub fn kv_insert_after_reverse_lookup(outcome: ReverseLookupInsertOutcome, lookup_id: &String) -> (r:
    KvInsertStep)
    ensures
        kv_insert_stage(r) == spec_kv_insert_after_reverse_lookup(outcome),
        outcome == ReverseLookupInsertOutcome::Inserted ==> r == KvInsertStep::WriteRedis,
        outcome == ReverseLookupInsertOutcome::Duplicate ==> (r matches KvInsertStep::Done(
            Err(KvError::DuplicateValue { key: k }),
        ) && k@ == lookup_id@),
        outcome == ReverseLookupInsertOutcome::Failed ==> r == KvInsertStep::Done(
            Err(KvError::Backend),
        ),
{
    match outcome {
        ReverseLookupInsertOutcome::Inserted => KvInsertStep::WriteRedis,
        ReverseLookupInsertOutcome::Duplicate => KvInsertStep::Done(
            Err(reverse_lookup_insert_error_to_kv_error(lookup_id, true)),
        ),
        ReverseLookupInsertOutcome::Failed => KvInsertStep::Done(
            Err(reverse_lookup_insert_error_to_kv_error(lookup_id, false)),
        ),
    }
}

/// After the Redis write of the record under `partition_key`: the insert ends with the
/// reply's result (`AlreadyExists` is a duplicate of the partition key).
pub fn kv_insert_after_write(reply: KvInsertResult, partition_key: &String) -> (r: KvInsertStep)
    ensures
        kv_insert_stage(r) == KvInsertStage::Finished,
        reply == KvInsertResult::Inserted ==> r == KvInsertStep::Done(Ok(())),
        reply == KvInsertResult::AlreadyExists ==> (r matches KvInsertStep::Done(
            Err(KvError::DuplicateValue { key: k }),
        ) && k@ == partition_key@),
{
    KvInsertStep::Done(kv_insert_reply_to_result(reply, partition_key))
}

/// The stages an insert through KV goes through, in order, when the resource has a
/// secondary key or not, and its reverse-lookup row insert ends with `outcome` (used
/// only if there is such a row).
pub open spec fn kv_insert_trace(has_lookup: bool, outcome: ReverseLookupInsertOutcome) -> Seq<
    KvInsertStage,
> {
    match spec_kv_insert_begin(has_lookup) {
        KvInsertStage::ReverseLookupRow => match spec_kv_insert_after_reverse_lookup(outcome) {
            KvInsertStage::RedisWrite => seq![
                KvInsertStage::ReverseLookupRow,
                KvInsertStage::RedisWrite,
                KvInsertStage::Finished,
            ],
            _ => seq![KvInsertStage::ReverseLookupRow, KvInsertStage::Finished],
        },
        _ => seq![KvInsertStage::RedisWrite, KvInsertStage::Finished],
    }
}

/// The order of an insert through KV: a reverse-lookup row is written exactly when the
/// resource has a secondary key, and then before anything reaches Redis; the record is
/// written to Redis exactly when there is no such row or the row was inserted, so a
/// failed or duplicate row leaves Redis untouched; every insert ends.
pub proof fn lemma_kv_insert_order(has_lookup: bool, outcome: ReverseLookupInsertOutcome)
    ensures
        ({
            let t = kv_insert_trace(has_lookup, outcome);
            &&& t.contains(KvInsertStage::ReverseLookupRow) <==> has_lookup
            &&& has_lookup ==> t[0] == KvInsertStage::ReverseLookupRow
            &&& t.contains(KvInsertStage::RedisWrite) <==> (!has_lookup || outcome
                == ReverseLookupInsertOutcome::Inserted)
            &&& t.last() == KvInsertStage::Finished
        }),
{
    let t = kv_insert_trace(has_lookup, outcome);
    if has_lookup {
        assert(t[0] == KvInsertStage::ReverseLookupRow);
        if outcome == ReverseLookupInsertOutcome::Inserted {
            assert(t[1] == KvInsertStage::RedisWrite);
        } else {
            assert(!t.contains(KvInsertStage::RedisWrite)) by {
                assert(forall|i: int| 0 <= i < t.len() ==> t[i] != KvInsertStage::RedisWrite);
            }
        }
    } else {
        assert(t[0] == KvInsertStage::RedisWrite);
        assert(!t.contains(KvInsertStage::ReverseLookupRow)) by {
            assert(forall|i: int| 0 <= i < t.len() ==> t[i] != KvInsertStage::ReverseLookupRow);
        }
    }
}

/// The KV error for a failed insert of the reverse-lookup record `lookup_id`: a
/// duplicate row makes the resource a duplicate; anything else is a backend error.
pub fn reverse_lookup_insert_error_to_kv_error(lookup_id: &String, is_duplicate: bool) -> (r:
    KvError)
    ensures
        is_duplicate ==> (r matches KvError::DuplicateValue { key: k } && k@ == lookup_id@),
        !is_duplicate ==> r == KvError::Backend,
{
    if is_duplicate {
        KvError::DuplicateValue { key: lookup_id.clone() }
    } else {
        KvError::Backend
    }
}

/// The reverse-lookup row written alongside a KV insert: it maps `lookup_id` to the
/// resource's partition and secondary keys, names the resource type as its source and
/// records the storage scheme that wrote it.
pub fn reverse_lookup_record(
    lookup_id: String,
    secondary_key: String,
    partition_key: String,
    source: &str,
    scheme: StorageScheme,
) -> (r: ReverseLookupNew)
    ensures
        r.lookup_id == lookup_id,
        r.secondary_key == secondary_key,
        r.partition_key == partition_key,
        r.source@ == source@,
        r.update_by@ == crate::storage::scheme::storage_scheme_name(scheme)@,
{
    ReverseLookupNew {
        lookup_id,
        secondary_key,
        partition_key,
        source: to_owned_string(source),
        update_by: to_owned_string(scheme.as_str()),
    }
}

/// The secondary (hash-field) key of a KV resource.
#[derive(Debug, Clone, PartialEq, Eq)]
pub struct SecondaryKey(pub String);

impl SecondaryKey {
    pub fn new(key: String) -> (r: Self)
        ensures
            r.0 == key,
    {
        SecondaryKey(key)
    }

    /// The key's text.
    pub fn to_string(&self) -> (r: String)
        ensures
            r@ == self.0@,
    {
        self.0.clone()
    }
}

/// Secondary-to-primary mapping metadata emitted by a KV resource.
#[derive(Debug, Clone, PartialEq, Eq)]
pub struct ReverseLookupKey {
    pub lookup_id: String,
}

} // verus!
