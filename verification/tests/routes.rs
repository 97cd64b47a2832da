use hyperswitch_card_vault::crypto::keymanager::{keymanager_health, ExternalKeyManagerConfig};
use hyperswitch_card_vault::error::{ApiError, TestDBError};
use hyperswitch_card_vault::routes::data::transformers::{
    card_eq, generate_uuid, get_data_duplication_status, stored_data_eq, validate_card_metadata,
};
use hyperswitch_card_vault::routes::data::types::{
    Card, Data, DataDuplicationCheck, Status, StoredData,
};
use hyperswitch_card_vault::routes::data::{
    add_card_after_hash_insert, add_card_after_hash_lookup, add_card_after_locker_lookup,
    store_card_response, AddCardStep,
};
use hyperswitch_card_vault::routes::decision_gateway::decision_gateway;
use hyperswitch_card_vault::routes::data::transformers::hash_input;
use hyperswitch_card_vault::routes::entity::{
    create_entity_response, provision_after_lookup, CreateEntityRequest, ProvisionStep,
};
use hyperswitch_card_vault::routes::health::{
    database_health, diagnostics, health, DatabaseHealth, HealthState,
};
use hyperswitch_card_vault::routes::key_custodian::{
    custodian_key_bytes, key_state_of_tenant, key_validation, CustodianKeyState,
};
use hyperswitch_card_vault::routes::key_migration::{
    key_transfer_request, key_transfer_url, transfer_key_response,
};
use hyperswitch_card_vault::routes::routes_v2::data::{retrieved_data, vault_data_expired};
use hyperswitch_card_vault::routes::migration::{
    migration_hash_id, migration_step, migration_success, MigrationStep,
};
use hyperswitch_card_vault::storage::scheme::StorageScheme;
use hyperswitch_card_vault::storage::types::{CardNumber, Encryptable, Locker};
use hyperswitch_card_vault::tenant::{
    get_app_state_of_tenant, initial_key_states, is_custodian_unlocked, is_known_tenant,
};

#[test]
fn test_disabled_mode_creates_merchants() {
    let config = ExternalKeyManagerConfig::Disabled;
    assert!(!config.is_external());
    assert!(!config.is_mtls_enabled());
}

#[test]
fn test_enabled_mode_uses_external_manager() {
    let config = ExternalKeyManagerConfig::Enabled {
        url: "https://test.example.com".to_string(),
    };

    assert!(config.is_external());
    assert!(!config.is_mtls_enabled());
    assert_eq!(config.get_url(), Some("https://test.example.com"));
    assert!(config.get_ca_cert().is_none());
}

#[test]
fn test_enabled_with_mtls_mode() {
    let config = ExternalKeyManagerConfig::EnabledWithMtls {
        url: "https://test.example.com".to_string(),
        ca_cert: "-----BEGIN CERTIFICATE-----\ntest\n-----END CERTIFICATE-----".to_string(),
    };

    assert!(config.is_external());
    assert!(config.is_mtls_enabled());
    assert_eq!(config.get_url(), Some("https://test.example.com"));
    assert!(config.get_ca_cert().is_some());
}

#[test]
fn test_config_validation() {
    let disabled = ExternalKeyManagerConfig::Disabled;
    assert!(disabled.validate().is_ok());

    let enabled_no_url = ExternalKeyManagerConfig::Enabled { url: "".to_string() };
    assert!(enabled_no_url.validate().is_err());

    let enabled_valid = ExternalKeyManagerConfig::Enabled {
        url: "https://test.example.com".to_string(),
    };
    assert!(enabled_valid.validate().is_ok());

    let mtls_no_cert = ExternalKeyManagerConfig::EnabledWithMtls {
        url: "https://test.example.com".to_string(),
        ca_cert: "".to_string(),
    };
    assert!(mtls_no_cert.validate().is_err());

    let mtls_valid = ExternalKeyManagerConfig::EnabledWithMtls {
        url: "https://test.example.com".to_string(),
        ca_cert: "-----BEGIN CERTIFICATE-----\ntest\n-----END CERTIFICATE-----".to_string(),
    };
    assert!(mtls_valid.validate().is_ok());
}

#[test]
fn keymanager_health_states() {
    let enabled = ExternalKeyManagerConfig::Enabled { url: "u".to_string() };
    assert_eq!(
        keymanager_health(&ExternalKeyManagerConfig::Disabled, Some(Ok(HealthState::Working))),
        HealthState::Disabled
    );
    assert_eq!(keymanager_health(&enabled, Some(Ok(HealthState::Working))), HealthState::Working);
    assert_eq!(keymanager_health(&enabled, Some(Err(()))), HealthState::Failing);
    assert_eq!(keymanager_health(&enabled, None), HealthState::Failing);
}

#[test]
fn health_reports() {
    assert_eq!(health().message, "Health is good");
    assert_eq!(
        database_health(Ok(())),
        DatabaseHealth {
            database_connection: HealthState::Working,
            database_read: HealthState::Working,
            database_write: HealthState::Working,
            database_delete: HealthState::Working,
        }
    );
    assert_eq!(
        database_health(Err(TestDBError::DBWriteError)),
        DatabaseHealth {
            database_connection: HealthState::Working,
            database_read: HealthState::Working,
            database_write: HealthState::Failing,
            database_delete: HealthState::Failing,
        }
    );
    assert_eq!(database_health(Err(TestDBError::DBConnectError)), DatabaseHealth::default());
    let report = diagnostics(
        Err(TestDBError::DBDeleteError),
        &ExternalKeyManagerConfig::Disabled,
        Some(Ok(HealthState::Working)),
    );
    assert!(!report.key_custodian_locked);
    assert_eq!(report.database.database_write, HealthState::Working);
    assert_eq!(report.database.database_delete, HealthState::Failing);
    assert_eq!(report.keymanager_status, HealthState::Disabled);
    let external = ExternalKeyManagerConfig::Enabled { url: "u".to_string() };
    assert_eq!(diagnostics(Ok(()), &external, Some(Err(()))).keymanager_status, HealthState::Failing);
    assert_eq!(
        diagnostics(Ok(()), &external, Some(Ok(HealthState::Working))).keymanager_status,
        HealthState::Working
    );
}

#[test]
fn custodian_key_halves_are_validated() {
    assert_eq!(key_validation("000102030405060708090a0b0c0d0e0f"), Ok(()));
    assert_eq!(key_validation("000102030405060708090A0B0C0D0E0F"), Ok(()));
    assert_eq!(key_validation("0001"), Err("Error while validating key"));
    assert_eq!(key_validation("zz"), Err("error while parsing hex"));
    assert_eq!(key_validation("abc"), Err("error while parsing hex"));
}

#[test]
fn custodian_key_state_flow() {
    let mut state = CustodianKeyState::default();
    assert_eq!(
        state.both_keys(),
        Err(ApiError::DecryptingKeysFailed("Both the custodain keys are not present to decrypt"))
    );
    state.set_key1("aa".to_string());
    state.set_key2("bb".to_string());
    assert_eq!(state.both_keys(), Ok(("aa".to_string(), "bb".to_string())));
    assert_eq!(state.key1.as_deref(), Some("aa"));
    assert_eq!(custodian_key_bytes("0a0b", "ff"), Ok(vec![10, 11, 255]));
    assert_eq!(
        custodian_key_bytes("0a0", "x"),
        Err(ApiError::DecryptingKeysFailed("Hex dcoding failed"))
    );
}

#[test]
fn entity_id_must_not_be_blank() {
    let ok = CreateEntityRequest { entity_id: " e1 ".to_string() };
    assert_eq!(ok.validate(), Ok(()));
    let blank = CreateEntityRequest { entity_id: " \t\n".to_string() };
    assert_eq!(blank.validate(), Err(ApiError::ValidationError("entity_id must not be empty")));
    let empty = CreateEntityRequest { entity_id: String::new() };
    assert!(empty.validate().is_err());
}

fn card(number: &str, name: Option<&str>) -> Card {
    Card {
        card_number: CardNumber(number.to_string()),
        name_on_card: name.map(|n| n.to_string()),
        card_exp_month: Some("12".to_string()),
        card_exp_year: Some("30".to_string()),
        card_brand: None,
        card_isin: None,
        nick_name: None,
    }
}

#[test]
fn migration_steps() {
    assert_eq!(
        migration_step(StoredData::EncData("x".to_string())),
        MigrationStep::Skip(hyperswitch_card_vault::routes::migration::MigrationResponse {
            message: "Encrypted card cannot be migrated".to_string()
        })
    );
    let c = card("4111111111111111", None);
    assert_eq!(migration_step(StoredData::CardData(c.clone())), MigrationStep::Migrate(c));
    assert_eq!(migration_hash_id(Some("old".to_string()), "new".to_string()), "old");
    assert_eq!(migration_hash_id(None, "new".to_string()), "new");
    assert_eq!(
        migration_success("m1", "c1", "p1").message,
        "Migration successful for merchant_id: m1, customer_id: c1, pmid: p1"
    );
    assert_eq!(transfer_key_response(&vec![1, 2, 3]).total_transferred, 3);
}

#[test]
fn stored_card_duplication_status() {
    let stored = StoredData::CardData(card("4111111111111111", Some("A")));
    let same = Data::Card { card: card("4111111111111111", Some("A")) };
    let renamed = Data::Card { card: card("4111111111111111", Some("B")) };
    let enc = Data::EncData { enc_card_data: "x".to_string() };
    assert!(card_eq(&card("1", None), &card("1", None)));
    assert!(!card_eq(&card("1", None), &card("2", None)));
    assert!(stored_data_eq(&stored, &same));
    assert!(!stored_data_eq(&stored, &enc));
    assert_eq!(get_data_duplication_status(&stored, &same), DataDuplicationCheck::Duplicated);
    assert_eq!(
        get_data_duplication_status(&stored, &renamed),
        DataDuplicationCheck::MetaDataChanged
    );
    assert_eq!(validate_card_metadata(None, &same), None);
    assert_eq!(
        validate_card_metadata(Some(&StoredData::EncData("x".to_string())), &enc),
        Some(DataDuplicationCheck::Duplicated)
    );
}

fn locker() -> Locker {
    Locker {
        locker_id: "l1".to_string(),
        merchant_id: "m".to_string(),
        customer_id: "c".to_string(),
        data: Encryptable::from_decrypted_data(vec![1]),
        created_at: 0,
        hash_id: "h".to_string(),
        ttl: None,
        updated_by: StorageScheme::PostgresOnly,
    }
}

#[test]
fn add_card_flow() {
    assert_eq!(
        add_card_after_hash_lookup(Some("h".to_string())),
        AddCardStep::LookupLocker { hash_id: "h".to_string() }
    );
    assert_eq!(add_card_after_hash_lookup(None), AddCardStep::InsertHash);
    assert_eq!(
        add_card_after_locker_lookup("h".to_string(), Some(locker())),
        AddCardStep::CompareWithStored(locker())
    );
    assert_eq!(
        add_card_after_locker_lookup("h".to_string(), None),
        AddCardStep::InsertLocker { hash_id: "h".to_string() }
    );
    assert_eq!(
        add_card_after_hash_insert("h2".to_string()),
        AddCardStep::InsertLocker { hash_id: "h2".to_string() }
    );
    let resp = store_card_response(Some(DataDuplicationCheck::Duplicated), locker());
    assert_eq!(resp.status, Status::Success);
    let payload = resp.payload.unwrap();
    assert_eq!(payload.card_reference, "l1");
    assert_eq!(payload.duplication_check, Some(DataDuplicationCheck::Duplicated));
}

#[test]
fn uuid_v4_shape() {
    let id = generate_uuid();
    assert_eq!(id.len(), 36);
    assert_eq!(id.as_bytes()[14], b'4');
    assert_eq!(id.as_bytes()[8], b'-');
    assert_ne!(generate_uuid(), id);
}

#[test]
fn tenant_checks() {
    let tenants = vec!["public".to_string(), "t2".to_string()];
    assert_eq!(is_known_tenant(&tenants, "t2"), Ok(()));
    assert_eq!(is_known_tenant(&tenants, "t3"), Err(ApiError::TenantError("Invalid x-tenant-id")));
    assert_eq!(get_app_state_of_tenant(Some(5)), Ok(5));
    assert_eq!(get_app_state_of_tenant::<u8>(None), Err(ApiError::CustodianLocked));
    assert_eq!(is_custodian_unlocked(true), Err(ApiError::CustodianUnlocked));
    assert_eq!(is_custodian_unlocked(false), Ok(()));
    let states = initial_key_states(&tenants);
    assert_eq!(states.len(), 2);
    assert_eq!(states[1].0, "t2");
    assert_eq!(states[1].1, CustodianKeyState::default());
}

#[test]
fn key_transfer_bodies() {
    assert_eq!(key_transfer_url("https://km.example.com"), "https://km.example.com/key/transfer");
    let req = key_transfer_request(&vec![1, 2, 3, 254, 255]);
    assert_eq!(req.key, "AQID/v8=");
    assert_eq!(req.entity_id.len(), 20);
    assert!(req.entity_id.chars().all(|c| c.is_ascii_alphanumeric()));
}

#[test]
fn decision_gateway_reply() {
    assert_eq!(decision_gateway(), "hello world!");
}

#[test]
fn vault_data_expiry() {
    assert!(vault_data_expired(Some(10), 11));
    assert!(!vault_data_expired(Some(10), 10));
    assert!(!vault_data_expired(None, i128::MAX));
    assert_eq!(retrieved_data(Some(10), 11, Some(vec![1])), Err(ApiError::NotFoundError));
    assert_eq!(retrieved_data(Some(10), 9, Some(vec![1])), Ok(vec![1]));
    assert_eq!(retrieved_data(None, 9, None), Err(ApiError::UnknownError));
}

#[test]
fn custodian_decrypt_refusals() {
    assert_eq!(
        key_state_of_tenant::<&mut CustodianKeyState>(None),
        Err(ApiError::TenantError("Tenant not found"))
    );
    let mut state = CustodianKeyState::default();
    state.set_key1("aa".to_string());
    assert_eq!(
        key_state_of_tenant(Some(&mut state)).unwrap().take_key_halves(),
        Err(ApiError::DecryptingKeysFailed("Both the custodain keys are not present to decrypt"))
    );
    assert_eq!(state, CustodianKeyState::default());
    state.set_key1("aa".to_string());
    state.set_key2("bb".to_string());
    assert_eq!(state.take_key_halves(), Ok(("aa".to_string(), "bb".to_string())));
    assert_eq!(state.key2.as_deref(), Some("bb"));
}

#[test]
fn entity_provisioning_is_idempotent() {
    let record = hyperswitch_card_vault::storage::types::Entity {
        id: 1,
        entity_id: "e1".to_string(),
        enc_key_id: "k".to_string(),
        created_at: 42,
    };
    assert_eq!(provision_after_lookup(None), ProvisionStep::Create);
    assert_eq!(
        provision_after_lookup(Some(record.clone())),
        ProvisionStep::Existing(record.clone())
    );
    let resp = create_entity_response(record);
    assert_eq!(resp.status, Status::Success);
    assert_eq!(resp.entity_id, "e1");
    assert_eq!(resp.created_at, 42);
}

#[test]
fn hash_input_is_json_of_the_indexed_text() {
    assert_eq!(
        hash_input(&Data::EncData { enc_card_data: "a\"b".to_string() }),
        Ok(b"\"a\\\"b\"".to_vec())
    );
    assert_eq!(
        hash_input(&Data::Card { card: card("4111111111111111", Some("A")) }),
        Ok(b"\"4111111111111111\"".to_vec())
    );
}
