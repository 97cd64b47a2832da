use hyperswitch_card_vault::storage::kv::impls::{
    FingerprintPrimaryKey, LockerHashLookupKey, LockerPrimaryKeyType, VaultPrimaryKey,
};
use hyperswitch_card_vault::storage::kv::partition_key::{
    data_key_of, partition_number_of, shard_key_of, KvStorePartition, PartitionKey,
};
use hyperswitch_card_vault::storage::scheme::StorageScheme;
use hyperswitch_card_vault::storage::types::{Encrypted, Locker, LockerNew};

struct TestResource;

impl KvStorePartition for TestResource {}

#[test]
fn data_key_preserves_partition_key_and_adds_hash_tag() {
    let key = PartitionKey::CombinationKey {
        combination: "locker_merchant_customer",
    };
    let shard_key = TestResource::shard_key(key.clone(), 16);

    assert_eq!(
        TestResource::data_key(key, 16),
        format!("{{{shard_key}}}:locker_merchant_customer")
    );
}

#[test]
fn partition_key_texts() {
    assert_eq!(
        PartitionKey::Locker { merchant_id: "m", customer_id: "c" }.to_string(),
        "locker_m_c"
    );
    assert_eq!(
        PartitionKey::Fingerprint { fingerprint_hash: &[0x01, 0xab, 0xff] }.to_string(),
        "fingerprint_01abff"
    );
    assert_eq!(
        PartitionKey::HashTable { data_hash: &[0x10] }.to_string(),
        "hash_table_10"
    );
    assert_eq!(
        PartitionKey::ReverseLookup { lookup_id: "abc" }.to_string(),
        "reverse_lookup_abc"
    );
    assert_eq!(
        PartitionKey::Vault { entity_id: "e", vault_id: "v" }.to_string(),
        "vault_e_v"
    );
}

#[test]
fn partition_number_is_crc32_modulo_partitions() {
    let key = PartitionKey::CombinationKey { combination: "locker_merchant_customer" };
    let expected = crc32fast::hash(b"locker_merchant_customer") % 16;
    assert_eq!(partition_number_of(key, 16), expected);
    assert_eq!(shard_key_of(key, 16), format!("shard_{expected}"));
    assert_eq!(
        data_key_of(key, 16),
        format!("{{shard_{expected}}}:locker_merchant_customer")
    );
    assert_eq!(partition_number_of(key, 1), 0);
}

#[test]
fn resource_keys() {
    let pk = LockerPrimaryKeyType {
        locker_id: "l".to_string(),
        merchant_id: "m".to_string(),
        customer_id: "c".to_string(),
    };
    assert_eq!(pk.get_partition_key().to_string(), "locker_m_c");

    let lookup = LockerHashLookupKey {
        hash_id: "h".to_string(),
        merchant_id: "m".to_string(),
        customer_id: "c".to_string(),
    };
    assert_eq!(lookup.get_lookup_key().lookup_id, "locker_m_c_h");

    let fp = FingerprintPrimaryKey { fingerprint_hash: vec![0xde, 0xad] };
    assert_eq!(fp.get_secondary_key().to_string(), "fingerprint_dead");

    let vault = VaultPrimaryKey { entity_id: "e".to_string(), vault_id: "v".to_string() };
    assert_eq!(vault.get_secondary_key().to_string(), "vault_e_v");
}

#[test]
fn locker_lookup_id_is_the_same_at_insert_and_delete() {
    let new = LockerNew {
        locker_id: "l".to_string(),
        merchant_id: "m".to_string(),
        customer_id: "c".to_string(),
        enc_data: Encrypted::new(vec![1]),
        created_at: 0,
        hash_id: "h".to_string(),
        ttl: None,
        updated_by: StorageScheme::RedisKv,
    };
    let at_insert = Locker::get_reverse_lookup_key(&new).get_lookup_key();
    let stored = new.into_locker();
    let at_delete = Locker::get_reverse_lookup_key_from_resource(&stored);
    assert_eq!(at_insert, at_delete);
}

fn redis_hash_tag(key: &str) -> &str {
    match key.find('{') {
        Some(open) => match key[open + 1..].find('}') {
            Some(0) | None => key,
            Some(len) => &key[open + 1..open + 1 + len],
        },
        None => key,
    }
}

#[test]
fn data_key_hash_tag_is_the_shard_key() {
    for (key, partitions) in [
        (PartitionKey::Locker { merchant_id: "m}", customer_id: "{c" }, 16u8),
        (PartitionKey::Fingerprint { fingerprint_hash: &[0x7d, 0x7b] }, 128),
        (PartitionKey::ReverseLookup { lookup_id: "}{" }, 1),
    ] {
        let data_key = data_key_of(key, partitions);
        assert_eq!(redis_hash_tag(&data_key), shard_key_of(key, partitions));
    }
}
