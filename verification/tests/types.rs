use hyperswitch_card_vault::routes::data::types::{Data, StoreCardRequest};
use hyperswitch_card_vault::routes::routes_v2::data::types::StoreDataRequest;
use hyperswitch_card_vault::storage::scheme::StorageScheme;
use hyperswitch_card_vault::storage::storage_v2::types::{VaultInner, VaultNew};
use hyperswitch_card_vault::storage::types::{
    Encryptable, Encrypted, LockerInner, LockerNew, ReverseLookup,
};

#[test]
fn encrypted_serializes_as_base64_string() {
    let encrypted = Encrypted::new(vec![1, 2, 3, 254, 255]);

    let serialized = serde_json::to_string(&encrypted.to_base64()).unwrap();

    assert_eq!(serialized, "\"AQID/v8=\"");
}

#[test]
fn encrypted_deserializes_from_base64_string() {
    let text: String = serde_json::from_str("\"AQID/v8=\"").unwrap();
    let deserialized = Encrypted::from_base64(&text).unwrap();

    assert_eq!(deserialized.get_inner(), &vec![1, 2, 3, 254, 255]);
}

#[test]
fn base64_padding_and_rejection() {
    assert_eq!(Encrypted::new(vec![]).to_base64(), "");
    assert_eq!(Encrypted::new(vec![0xff]).to_base64(), "/w==");
    assert_eq!(Encrypted::new(vec![0xff, 0xee]).to_base64(), "/+4=");
    assert!(Encrypted::from_base64("not base64!").is_none());
    assert!(Encrypted::from_base64("/x==").is_none());
    assert!(Encrypted::from_base64("/w").is_none());
    assert!(Encrypted::from_base64(" /w==").is_none());
}

#[test]
fn encryptable_accessors() {
    let enc = Encryptable::from_encrypted(Encrypted::new(vec![9]));
    assert_eq!(enc.get_encrypted_inner_value(), Some(vec![9]));
    assert_eq!(enc.get_decrypted_inner_value(), None);
    let dec = Encryptable::from_decrypted_data(vec![7]);
    assert_eq!(dec.get_encrypted_inner_value(), None);
    assert_eq!(dec.get_decrypted_inner_value(), Some(vec![7]));
}

fn store_request(reference: Option<&str>) -> StoreCardRequest {
    StoreCardRequest {
        merchant_id: "m".to_string(),
        merchant_customer_id: "c".to_string(),
        requestor_card_reference: reference.map(|r| r.to_string()),
        data: Data::EncData { enc_card_data: "x".to_string() },
        ttl: Some(5),
    }
}

#[test]
fn locker_new_uses_reference_or_uuid() {
    let with_ref = LockerNew::new(store_request(Some("ref")), "h", Encrypted::new(vec![1]));
    assert_eq!(with_ref.locker_id, "ref");
    assert_eq!(with_ref.hash_id, "h");
    assert_eq!(with_ref.ttl, Some(5));
    assert_eq!(with_ref.updated_by, StorageScheme::PostgresOnly);

    let generated = LockerNew::new(store_request(None), "h", Encrypted::new(vec![1]));
    assert_eq!(generated.locker_id.len(), 36);
    assert_eq!(generated.locker_id.as_bytes()[14], b'7');

    let mut scheme_set = with_ref.clone();
    scheme_set.set_storage_scheme(StorageScheme::RedisKv);
    let inner = LockerInner::from_new(scheme_set);
    assert_eq!(inner.id, 0);
    assert_eq!(inner.updated_by, StorageScheme::RedisKv);
    let locker = inner.into_locker();
    assert_eq!(locker.data, Encryptable::Encrypted(vec![1]));
}

#[test]
fn vault_update_keeps_identity() {
    let request = StoreDataRequest {
        entity_id: "e".to_string(),
        vault_id: "v".to_string(),
        data: "{}".to_string(),
        ttl: None,
    };
    let new = VaultNew::new(request, Encrypted::new(vec![1]));
    let mut inner_new = new.clone().into_new_inner();
    inner_new.set_updated_by(StorageScheme::RedisKv);
    let current: VaultInner = inner_new.into_inner();
    let mut update = new.into_update();
    update.encrypted_data = Encrypted::new(vec![2]);
    update.expires_at = Some(10);
    let updated = VaultInner::from_update(update.clone(), current.clone());
    assert_eq!(updated.vault_id, "v");
    assert_eq!(updated.entity_id, "e");
    assert_eq!(updated.created_at, current.created_at);
    assert_eq!(updated.encrypted_data, Encrypted::new(vec![2]));
    assert_eq!(updated.expires_at, Some(10));
    assert_eq!(VaultInner::from_update(update, updated.clone()), updated);
}

#[test]
fn reverse_lookup_partition_key_is_the_stored_key() {
    let record = ReverseLookup {
        lookup_id: "id".to_string(),
        secondary_key: "s".to_string(),
        partition_key: "locker_m_c".to_string(),
        source: "locker".to_string(),
        update_by: "redis_kv".to_string(),
    };
    assert_eq!(record.get_partition_key().to_string(), "locker_m_c");
}

#[test]
fn encrypted_base64_round_trip() {
    for bytes in [vec![], vec![0], vec![0, 1], vec![255, 254, 253], (0..=255).collect::<Vec<u8>>()] {
        let text = Encrypted::new(bytes.clone()).to_base64();
        assert_eq!(Encrypted::from_base64(&text).unwrap().into_inner(), bytes);
    }
}
