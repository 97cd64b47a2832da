use hyperswitch_card_vault::error::KvError;
use hyperswitch_card_vault::storage::kv::fallback::{
    try_redis_get_else_try_database_get, FallbackStep,
};
use hyperswitch_card_vault::storage::kv::resource::{
    decide_insert_scheme_from_conflict_check, decide_insert_scheme_from_kv_state,
    decide_mutate_scheme_from_kv_state, decide_storage_scheme_for_find_operation,
    decide_storage_scheme_for_insert_operation, decide_storage_scheme_for_mutate_operation,
    kv_insert_reply_to_result, kv_presence, resolve_kv_find, resolve_reverse_lookup,
    reverse_lookup_insert_error_to_kv_error, reverse_lookup_record,
    storage_get_insert_conflict_after_lookup, storage_get_insert_conflict_after_primary,
    kv_insert_after_reverse_lookup, kv_insert_after_write, kv_insert_begin, KvInsertStep,
    ReverseLookupInsertOutcome,
    ConflictCheck, ConflictCheckStep, DecidedStorageScheme, FindStep, InsertConflictKey,
    InsertKeys, InsertStep, KvPresence, KvProbeTarget, KvRejection, LookupStep, MutateStep,
    StorageLookup,
};
use hyperswitch_card_vault::storage::kv::scheme::KvState;
use hyperswitch_card_vault::storage::kv::wrapper::{
    begin_insert_if_absent_or_tombstone, classify_find_reply,
    insert_if_absent_or_tombstone_after_exec, insert_if_absent_or_tombstone_after_read,
    ConditionalInsertStep, KvBackendFailure, KvFindResult, KvInsertResult, KvStoredValue,
    RedisReadError, StoredValueState,
};
use hyperswitch_card_vault::storage::scheme::StorageScheme;
use hyperswitch_card_vault::storage::types::ReverseLookup;

fn keys(lookup: Option<&str>) -> InsertKeys {
    InsertKeys {
        partition_key: "locker_m_c".to_string(),
        reverse_lookup_id: lookup.map(|l| l.to_string()),
    }
}

#[test]
fn redis_not_found_falls_back_to_database() {
    let redis_output: Result<u32, RedisReadError> = Err(RedisReadError::NotFound);
    let result = match try_redis_get_else_try_database_get(redis_output) {
        FallbackStep::Done(v) => v,
        FallbackStep::QueryDatabase => 42,
        FallbackStep::Failed => panic!("redis failure"),
    };
    assert_eq!(result, 42);
}

#[test]
fn redis_hit_and_failure_do_not_query_database() {
    assert_eq!(try_redis_get_else_try_database_get::<u32>(Ok(7)), FallbackStep::Done(7));
    assert_eq!(
        try_redis_get_else_try_database_get::<u32>(Err(RedisReadError::Other)),
        FallbackStep::Failed
    );
}

#[test]
fn insert_starts_on_postgres_when_kv_is_off() {
    assert_eq!(
        decide_storage_scheme_for_insert_operation(KvState::Disabled, Some(1u8)),
        InsertStep::Decided(DecidedStorageScheme::PostgresOnly)
    );
    assert_eq!(
        decide_storage_scheme_for_insert_operation::<u8>(KvState::Enabled, None),
        InsertStep::Decided(DecidedStorageScheme::PostgresOnly)
    );
    assert_eq!(
        decide_storage_scheme_for_insert_operation(KvState::SoftKill, Some(1u8)),
        InsertStep::LookupPrimaryKey(1)
    );
}

#[test]
fn insert_after_primary_probe() {
    let k = keys(None);
    assert_eq!(
        decide_insert_scheme_from_kv_state(
            KvState::Enabled, 1u8, KvProbeTarget::PrimaryKey, KvPresence::Present, &k
        ),
        InsertStep::Rejected(KvRejection::Duplicate { key: "locker_m_c".to_string() })
    );
    assert_eq!(
        decide_insert_scheme_from_kv_state(
            KvState::SoftKill, 1u8, KvProbeTarget::PrimaryKey, KvPresence::Deleted, &k
        ),
        InsertStep::Decided(DecidedStorageScheme::Kv(1))
    );
    assert_eq!(
        decide_insert_scheme_from_kv_state(
            KvState::Enabled, 1u8, KvProbeTarget::PrimaryKey, KvPresence::Failed, &k
        ),
        InsertStep::Rejected(KvRejection::BackendFailure { key: "locker_m_c".to_string() })
    );
    assert_eq!(
        decide_insert_scheme_from_kv_state(
            KvState::Enabled, 1u8, KvProbeTarget::PrimaryKey, KvPresence::Absent, &k
        ),
        InsertStep::CheckPostgresConflict(1)
    );
    assert_eq!(
        decide_insert_scheme_from_kv_state(
            KvState::SoftKill, 1u8, KvProbeTarget::PrimaryKey, KvPresence::Absent, &k
        ),
        InsertStep::Decided(DecidedStorageScheme::PostgresOnly)
    );
    let with_lookup = keys(Some("hash"));
    assert_eq!(
        decide_insert_scheme_from_kv_state(
            KvState::Enabled, 1u8, KvProbeTarget::PrimaryKey, KvPresence::Absent, &with_lookup
        ),
        InsertStep::LookupReverseLookupKey(1)
    );
}

#[test]
fn insert_after_reverse_lookup_probe() {
    let k = keys(Some("hash"));
    assert_eq!(
        decide_insert_scheme_from_kv_state(
            KvState::Enabled, 1u8, KvProbeTarget::ReverseLookupKey, KvPresence::Present, &k
        ),
        InsertStep::Rejected(KvRejection::Duplicate { key: "hash".to_string() })
    );
    assert_eq!(
        decide_insert_scheme_from_kv_state(
            KvState::Enabled, 1u8, KvProbeTarget::ReverseLookupKey, KvPresence::Failed, &k
        ),
        InsertStep::Rejected(KvRejection::BackendFailure { key: "reverse_lookup_hash".to_string() })
    );
    assert_eq!(
        decide_insert_scheme_from_kv_state(
            KvState::SoftKill, 1u8, KvProbeTarget::ReverseLookupKey, KvPresence::Deleted, &k
        ),
        InsertStep::Decided(DecidedStorageScheme::Kv(1))
    );
    assert_eq!(
        decide_insert_scheme_from_kv_state(
            KvState::Enabled, 1u8, KvProbeTarget::ReverseLookupKey, KvPresence::Absent, &k
        ),
        InsertStep::CheckPostgresConflict(1)
    );
}

#[test]
fn insert_after_postgres_conflict_check() {
    assert_eq!(
        decide_insert_scheme_from_conflict_check(1u8, ConflictCheck::NoConflict),
        InsertStep::Decided(DecidedStorageScheme::Kv(1))
    );
    assert_eq!(
        decide_insert_scheme_from_conflict_check(
            1u8,
            ConflictCheck::Conflict(InsertConflictKey::LookupKey("hash".to_string()))
        ),
        InsertStep::Rejected(KvRejection::Duplicate { key: "hash".to_string() })
    );
    assert_eq!(
        decide_insert_scheme_from_conflict_check(1u8, ConflictCheck::Failed),
        InsertStep::Rejected(KvRejection::ConflictCheckFailed)
    );
}

#[test]
fn postgres_conflict_check_steps() {
    let pk = "locker_m_c".to_string();
    assert_eq!(
        storage_get_insert_conflict_after_primary(StorageLookup::Found, true, &pk),
        ConflictCheckStep::Done(ConflictCheck::Conflict(InsertConflictKey::PartitionKey(
            pk.clone()
        )))
    );
    assert_eq!(
        storage_get_insert_conflict_after_primary(StorageLookup::NotFound, true, &pk),
        ConflictCheckStep::CheckLookupKey
    );
    assert_eq!(
        storage_get_insert_conflict_after_primary(StorageLookup::NotFound, false, &pk),
        ConflictCheckStep::Done(ConflictCheck::NoConflict)
    );
    assert_eq!(
        storage_get_insert_conflict_after_primary(StorageLookup::Failed, false, &pk),
        ConflictCheckStep::Done(ConflictCheck::Failed)
    );
    let id = "hash".to_string();
    assert_eq!(
        storage_get_insert_conflict_after_lookup(StorageLookup::Found, &id),
        ConflictCheck::Conflict(InsertConflictKey::LookupKey(id.clone()))
    );
    assert_eq!(
        storage_get_insert_conflict_after_lookup(StorageLookup::NotFound, &id),
        ConflictCheck::NoConflict
    );
    let conflict = InsertConflictKey::PartitionKey("p".to_string());
    assert_eq!(conflict.key(), "p");
    assert_eq!(conflict.kind(), "partition_key");
    assert_eq!(InsertConflictKey::LookupKey("l".to_string()).kind(), "lookup_key");
}

#[test]
fn mutate_decisions() {
    assert_eq!(
        decide_storage_scheme_for_mutate_operation::<u8, u32>(KvState::Disabled, Some(1)),
        MutateStep::Decided(DecidedStorageScheme::PostgresOnly, None)
    );
    assert_eq!(
        decide_storage_scheme_for_mutate_operation::<u8, u32>(KvState::Enabled, Some(1)),
        MutateStep::Decided(DecidedStorageScheme::Kv(1), None)
    );
    assert_eq!(
        decide_storage_scheme_for_mutate_operation::<u8, u32>(KvState::SoftKill, Some(1)),
        MutateStep::LookupPrimaryKey(1)
    );
    let pk = "vault_e_v".to_string();
    assert_eq!(
        decide_mutate_scheme_from_kv_state(1u8, Ok(KvFindResult::Present(5u32)), &pk),
        Ok((DecidedStorageScheme::Kv(1), Some(5)))
    );
    assert_eq!(
        decide_mutate_scheme_from_kv_state::<u8, u32>(1, Ok(KvFindResult::Deleted), &pk),
        Ok((DecidedStorageScheme::Kv(1), None))
    );
    assert_eq!(
        decide_mutate_scheme_from_kv_state::<u8, u32>(1, Ok(KvFindResult::Absent), &pk),
        Ok((DecidedStorageScheme::PostgresOnly, None))
    );
    assert_eq!(
        decide_mutate_scheme_from_kv_state::<u8, u32>(1, Err(KvBackendFailure), &pk),
        Err(KvRejection::BackendFailure { key: pk.clone() })
    );
}

#[test]
fn find_decisions() {
    assert_eq!(
        decide_storage_scheme_for_find_operation(KvState::Disabled, Some(1u8)),
        DecidedStorageScheme::PostgresOnly
    );
    assert_eq!(
        decide_storage_scheme_for_find_operation(KvState::SoftKill, Some(1u8)),
        DecidedStorageScheme::Kv(1)
    );
    assert_eq!(DecidedStorageScheme::Kv(1u8).storage_scheme(), StorageScheme::RedisKv);
    assert_eq!(
        DecidedStorageScheme::<u8>::PostgresOnly.storage_scheme(),
        StorageScheme::PostgresOnly
    );
    let key = "fingerprint_x".to_string();
    assert_eq!(resolve_kv_find(Ok(KvFindResult::Present(3u8)), &key), FindStep::Found(3));
    assert_eq!(
        resolve_kv_find::<u8>(Ok(KvFindResult::Absent), &key),
        FindStep::FallBackToPostgres
    );
    assert_eq!(
        resolve_kv_find::<u8>(Ok(KvFindResult::Deleted), &key),
        FindStep::Rejected(KvRejection::Deleted {
            message: "Data was deleted for key fingerprint_x".to_string()
        })
    );
    assert_eq!(
        resolve_kv_find::<u8>(Err(KvBackendFailure), &key),
        FindStep::Rejected(KvRejection::BackendFailure { key: key.clone() })
    );
    assert_eq!(kv_presence::<u8>(&Ok(KvFindResult::Present(1))), KvPresence::Present);
    assert_eq!(kv_presence::<u8>(&Err(KvBackendFailure)), KvPresence::Failed);
}

#[test]
fn reverse_lookup_resolution() {
    let id = "hash".to_string();
    let record = ReverseLookup {
        lookup_id: id.clone(),
        secondary_key: "s".to_string(),
        partition_key: "locker_m_c".to_string(),
        source: "locker".to_string(),
        update_by: "redis_kv".to_string(),
    };
    assert_eq!(
        resolve_reverse_lookup(Ok(KvFindResult::Present(record)), &id),
        LookupStep::Resolved("locker_m_c".to_string())
    );
    assert_eq!(
        resolve_reverse_lookup(Ok(KvFindResult::Absent), &id),
        LookupStep::FallBackToPostgres
    );
    assert_eq!(
        resolve_reverse_lookup(Ok(KvFindResult::Deleted), &id),
        LookupStep::Rejected(KvRejection::Deleted {
            message: "Data was deleted for reverse lookup key hash".to_string()
        })
    );
    assert_eq!(
        resolve_reverse_lookup(Err(KvBackendFailure), &id),
        LookupStep::Rejected(KvRejection::BackendFailure { key: "reverse_lookup_hash".to_string() })
    );
}

#[test]
fn insert_replies_and_errors() {
    let pk = "locker_m_c".to_string();
    assert_eq!(kv_insert_reply_to_result(KvInsertResult::Inserted, &pk), Ok(()));
    assert_eq!(
        kv_insert_reply_to_result(KvInsertResult::AlreadyExists, &pk),
        Err(KvError::DuplicateValue { key: pk.clone() })
    );
    let id = "hash".to_string();
    assert_eq!(
        reverse_lookup_insert_error_to_kv_error(&id, true),
        KvError::DuplicateValue { key: id.clone() }
    );
    assert_eq!(reverse_lookup_insert_error_to_kv_error(&id, false), KvError::Backend);
    assert_eq!(
        KvRejection::Duplicate { key: "k".to_string() }.to_kv_error(),
        Some(KvError::DuplicateValue { key: "k".to_string() })
    );
    let record = reverse_lookup_record(
        id.clone(),
        "s".to_string(),
        pk.clone(),
        "locker",
        StorageScheme::RedisKv,
    );
    assert_eq!(record.lookup_id, "hash");
    assert_eq!(record.partition_key, "locker_m_c");
    assert_eq!(record.source, "locker");
    assert_eq!(record.update_by, "redis_kv");
}

#[test]
fn stored_values_are_classified() {
    assert_eq!(
        classify_find_reply::<u8>(Ok(Some(KvStoredValue::Tombstone))),
        Ok(KvFindResult::Deleted)
    );
    assert_eq!(
        classify_find_reply(Ok(Some(KvStoredValue::Value(4u8)))),
        Ok(KvFindResult::Present(4))
    );
    assert_eq!(classify_find_reply::<u8>(Ok(None)), Ok(KvFindResult::Absent));
    assert_eq!(
        classify_find_reply::<u8>(Err(RedisReadError::NotFound)),
        Ok(KvFindResult::Absent)
    );
    assert_eq!(classify_find_reply::<u8>(Err(RedisReadError::Other)), Err(KvBackendFailure));
}

#[test]
fn conditional_insert_protocol() {
    assert_eq!(
        begin_insert_if_absent_or_tombstone(),
        ConditionalInsertStep::ReadCurrent { attempt: 1 }
    );
    assert_eq!(
        insert_if_absent_or_tombstone_after_read(1, StoredValueState::Live),
        ConditionalInsertStep::Finished(KvInsertResult::AlreadyExists)
    );
    assert_eq!(
        insert_if_absent_or_tombstone_after_read(2, StoredValueState::Tombstone),
        ConditionalInsertStep::Write { attempt: 2 }
    );
    assert_eq!(
        insert_if_absent_or_tombstone_after_exec(1, true),
        ConditionalInsertStep::Finished(KvInsertResult::Inserted)
    );
    assert_eq!(
        insert_if_absent_or_tombstone_after_exec(1, false),
        ConditionalInsertStep::ReadCurrent { attempt: 2 }
    );
    assert_eq!(
        insert_if_absent_or_tombstone_after_exec(3, false),
        ConditionalInsertStep::RetriesExhausted
    );
}

#[test]
fn conditional_insert_gives_up_after_three_lost_rounds() {
    let mut step = begin_insert_if_absent_or_tombstone();
    let mut rounds = 0;
    while let ConditionalInsertStep::ReadCurrent { attempt } = step {
        rounds += 1;
        step = match insert_if_absent_or_tombstone_after_read(attempt, StoredValueState::Missing) {
            ConditionalInsertStep::Write { attempt } => {
                insert_if_absent_or_tombstone_after_exec(attempt, false)
            }
            other => other,
        };
    }
    assert_eq!(step, ConditionalInsertStep::RetriesExhausted);
    assert_eq!(rounds, 3);
}

fn read_by_lookup(
    state: KvState,
    lookup: Result<KvFindResult<ReverseLookup>, KvBackendFailure>,
    record: Result<KvFindResult<u8>, KvBackendFailure>,
) -> FindStep<u8> {
    match decide_storage_scheme_for_find_operation(state, Some(())) {
        DecidedStorageScheme::PostgresOnly => FindStep::FallBackToPostgres,
        DecidedStorageScheme::Kv(()) => match resolve_reverse_lookup(lookup, &"hash".to_string()) {
            LookupStep::Resolved(key) => resolve_kv_find(record, &key),
            LookupStep::FallBackToPostgres => FindStep::FallBackToPostgres,
            LookupStep::Rejected(r) => FindStep::Rejected(r),
        },
    }
}

#[test]
fn read_by_lookup_needs_both_records_live() {
    let rec = || ReverseLookup {
        lookup_id: "hash".to_string(),
        secondary_key: "s".to_string(),
        partition_key: "locker_m_c".to_string(),
        source: "locker".to_string(),
        update_by: "redis_kv".to_string(),
    };
    assert_eq!(
        read_by_lookup(KvState::Enabled, Ok(KvFindResult::Present(rec())), Ok(KvFindResult::Present(9))),
        FindStep::Found(9)
    );
    assert_eq!(
        read_by_lookup(KvState::Disabled, Ok(KvFindResult::Present(rec())), Ok(KvFindResult::Present(9))),
        FindStep::FallBackToPostgres
    );
    assert_eq!(
        read_by_lookup(KvState::SoftKill, Ok(KvFindResult::Present(rec())), Ok(KvFindResult::Absent)),
        FindStep::FallBackToPostgres
    );
    assert_eq!(
        read_by_lookup(KvState::Enabled, Ok(KvFindResult::Present(rec())), Err(KvBackendFailure)),
        FindStep::Rejected(KvRejection::BackendFailure { key: "locker_m_c".to_string() })
    );
    assert_eq!(
        read_by_lookup(KvState::Enabled, Ok(KvFindResult::Deleted), Ok(KvFindResult::Present(9))),
        FindStep::Rejected(KvRejection::Deleted {
            message: "Data was deleted for reverse lookup key hash".to_string()
        })
    );
}

#[test]
fn kv_insert_writes_reverse_lookup_first() {
    let row = reverse_lookup_record(
        "hash".to_string(),
        "s".to_string(),
        "locker_m_c".to_string(),
        "locker",
        StorageScheme::RedisKv,
    );
    assert_eq!(kv_insert_begin(Some(row.clone())), KvInsertStep::InsertReverseLookup(row));
    assert_eq!(kv_insert_begin(None), KvInsertStep::WriteRedis);
    let id = "hash".to_string();
    assert_eq!(
        kv_insert_after_reverse_lookup(ReverseLookupInsertOutcome::Inserted, &id),
        KvInsertStep::WriteRedis
    );
    assert_eq!(
        kv_insert_after_reverse_lookup(ReverseLookupInsertOutcome::Duplicate, &id),
        KvInsertStep::Done(Err(KvError::DuplicateValue { key: id.clone() }))
    );
    assert_eq!(
        kv_insert_after_reverse_lookup(ReverseLookupInsertOutcome::Failed, &id),
        KvInsertStep::Done(Err(KvError::Backend))
    );
    let pk = "locker_m_c".to_string();
    assert_eq!(kv_insert_after_write(KvInsertResult::Inserted, &pk), KvInsertStep::Done(Ok(())));
    assert_eq!(
        kv_insert_after_write(KvInsertResult::AlreadyExists, &pk),
        KvInsertStep::Done(Err(KvError::DuplicateValue { key: pk.clone() }))
    );
}
