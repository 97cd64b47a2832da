use hyperswitch_card_vault::error::{FingerprintDBError, KvError, ReverseLookupDBError, VaultDBError};
use hyperswitch_card_vault::storage::kv::constraints::{
    check_for_constraints, unique_constraint_set_key, SaddReply, UniqueConstraintViolation,
};
use hyperswitch_card_vault::storage::caching::{
    after_inner_optional_lookup, cached_lookup_step, CacheLookupStep,
};
use hyperswitch_card_vault::storage::redis::{
    get_or_populate_after_fetch, get_or_populate_after_read, health_check_value_matches,
    CacheRead, ReadThroughStep,
};
use hyperswitch_card_vault::storage::kv::partition_key::{shard_key_of, PartitionKey};
use hyperswitch_card_vault::storage::kv::serializable_query::{
    drainer_entry_fields, drainer_entry_for, to_field_value_pairs, DatabaseOperation,
};
use hyperswitch_card_vault::storage::scheme::StorageScheme;
use hyperswitch_card_vault::text::{decimal_string, signed_decimal_string};
use hyperswitch_card_vault::storage::utils::{generate_nano_id, generate_uuid};

#[test]
fn nano_ids_are_alphanumeric_of_the_requested_length() {
    let id = generate_nano_id(20);
    assert_eq!(id.chars().count(), 20);
    assert!(id.chars().all(|c| c.is_ascii_alphanumeric()));
    assert_eq!(generate_nano_id(1).len(), 1);
}

#[test]
fn storage_uuids_are_version_7() {
    let id = generate_uuid();
    assert_eq!(id.len(), 36);
    assert_eq!(id.as_bytes()[14], b'7');
    assert!(id
        .chars()
        .enumerate()
        .all(|(i, c)| if [8, 13, 18, 23].contains(&i) { c == '-' } else { c.is_ascii_hexdigit() && !c.is_ascii_uppercase() }));
}

#[test]
fn read_through_cache_steps() {
    assert_eq!(
        get_or_populate_after_read(CacheRead::Hit("v".to_string())),
        ReadThroughStep::Return(Some("v".to_string()))
    );
    assert_eq!(get_or_populate_after_read(CacheRead::Miss), ReadThroughStep::Fetch);
    assert_eq!(get_or_populate_after_read(CacheRead::Failed), ReadThroughStep::Fetch);
    assert_eq!(
        get_or_populate_after_fetch(Some("v".to_string())),
        ReadThroughStep::PopulateAndReturn("v".to_string())
    );
    assert_eq!(get_or_populate_after_fetch(None), ReadThroughStep::Return(None));
    assert!(health_check_value_matches("1"));
    assert!(!health_check_value_matches("0"));
}

#[test]
fn in_memory_cache_steps() {
    assert_eq!(cached_lookup_step(Some(3u8)), CacheLookupStep::Hit(3));
    assert_eq!(cached_lookup_step::<u8>(None), CacheLookupStep::QueryInner);
    assert_eq!(after_inner_optional_lookup(Some(3u8)), (Some(3), true));
    assert_eq!(after_inner_optional_lookup::<u8>(None), (None, false));
}

#[test]
fn kv_errors_map_to_table_errors() {
    let dup = KvError::DuplicateValue { key: "k".to_string() };
    let missing = KvError::ValueNotFound("k".to_string());
    assert_eq!(ReverseLookupDBError::from_kv_error(&dup), ReverseLookupDBError::Duplicate);
    assert_eq!(VaultDBError::from_kv_error(&missing), VaultDBError::NotFoundError);
    assert_eq!(FingerprintDBError::from_kv_error(&missing), FingerprintDBError::DBFilterError);
    assert_eq!(FingerprintDBError::from_kv_error(&KvError::Backend), FingerprintDBError::UnknownError);
}

#[test]
fn storage_scheme_names() {
    assert_eq!(StorageScheme::default(), StorageScheme::PostgresOnly);
    assert_eq!(StorageScheme::PostgresOnly.as_str(), "postgres_only");
    assert_eq!(StorageScheme::RedisKv.as_str(), "redis_kv");
}

#[test]
fn drainer_entries() {
    let fields = drainer_entry_fields(
        "{}".to_string(),
        "locker_m_c".to_string(),
        "req".to_string(),
        1_700_000_000,
    );
    assert_eq!(
        fields,
        vec![
            ("query", "{}".to_string()),
            ("global_id", "locker_m_c".to_string()),
            ("request_id", "req".to_string()),
            ("pushed_at", "1700000000".to_string()),
        ]
    );
    let now = to_field_value_pairs("q".to_string(), "r".to_string(), "g".to_string());
    assert_eq!(now[1], ("global_id", "g".to_string()));
    assert_eq!(now[2], ("request_id", "r".to_string()));
    assert!(now[3].1.parse::<i64>().unwrap() > 1_600_000_000);
    assert_eq!(DatabaseOperation::Insert.as_str(), "insert");
    assert_eq!(DatabaseOperation::Update.as_str(), "update");
}

#[test]
fn decimal_texts() {
    assert_eq!(decimal_string(0), "0");
    assert_eq!(decimal_string(5432), "5432");
    assert_eq!(decimal_string(u64::MAX), "18446744073709551615");
    assert_eq!(signed_decimal_string(-42), "-42");
    assert_eq!(signed_decimal_string(i64::MIN), "-9223372036854775808");
    assert_eq!(signed_decimal_string(7), "7");
}

#[test]
fn unique_constraint_checks() {
    assert_eq!(unique_constraint_set_key("locker"), "unique_constraint:locker");
    assert_eq!(check_for_constraints(SaddReply::KeySet), Ok(()));
    assert_eq!(check_for_constraints(SaddReply::KeyNotSet), Err(UniqueConstraintViolation));
}

#[test]
fn storage_scheme_names_parse_back() {
    assert_eq!(StorageScheme::from_name("postgres_only"), Some(StorageScheme::PostgresOnly));
    assert_eq!(StorageScheme::from_name("redis_kv"), Some(StorageScheme::RedisKv));
    assert_eq!(StorageScheme::from_name("RedisKv"), None);
    for scheme in [StorageScheme::PostgresOnly, StorageScheme::RedisKv] {
        assert_eq!(StorageScheme::from_name(scheme.as_str()), Some(scheme));
    }
}

#[test]
fn drainer_entry_of_a_key() {
    let key = PartitionKey::Locker { merchant_id: "m", customer_id: "c" };
    let (shard, fields) = drainer_entry_for("{}".to_string(), key, 16);
    assert_eq!(shard, shard_key_of(key, 16));
    assert_eq!(fields[0], ("query", "{}".to_string()));
    assert_eq!(fields[1], ("global_id", "locker_m_c".to_string()));
    assert_eq!(fields[2], ("request_id", String::new()));
    assert_eq!(fields[3].0, "pushed_at");
}
