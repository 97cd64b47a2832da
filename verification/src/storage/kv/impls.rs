//! Per-table keys of the KV resources: primary keys, their partition and secondary keys,
//! and the reverse-lookup ids of resources with a secondary uniqueness key.

use vstd::prelude::*;
use vstd::string::StringExecFns;

use super::entity::EntityType;
use super::partition_key::{hex_lower, partition_key_text, KvStorePartition, PartitionKey};
use super::resource::{ReverseLookupKey, SecondaryKey};
use crate::storage::storage_v2::types::{Vault, VaultInner, VaultNewInner};
use crate::storage::types::{
    Fingerprint, FingerprintTableNew, HashTable, HashTableNew, Locker, LockerInner, LockerNew,
    ReverseLookup, ReverseLookupNew,
};
use crate::text::concat;

verus! {

impl EntityType for LockerNew {
    const ENTITY_TYPE: &'static str = "locker";
}

impl EntityType for Locker {
    const ENTITY_TYPE: &'static str = "locker";
}

impl EntityType for LockerInner {
    const ENTITY_TYPE: &'static str = "locker";
}

impl EntityType for FingerprintTableNew {
    const ENTITY_TYPE: &'static str = "fingerprint";
}

impl EntityType for Fingerprint {
    const ENTITY_TYPE: &'static str = "fingerprint";
}

impl EntityType for HashTableNew {
    const ENTITY_TYPE: &'static str = "hash_table";
}

impl EntityType for HashTable {
    const ENTITY_TYPE: &'static str = "hash_table";
}

impl EntityType for ReverseLookupNew {
    const ENTITY_TYPE: &'static str = "reverse_lookup";
}

impl EntityType for ReverseLookup {
    const ENTITY_TYPE: &'static str = "reverse_lookup";
}

impl EntityType for VaultNewInner {
    const ENTITY_TYPE: &'static str = "vault";
}

impl EntityType for VaultInner {
    const ENTITY_TYPE: &'static str = "vault";
}

impl EntityType for Vault {
    const ENTITY_TYPE: &'static str = "vault";
}

impl KvStorePartition for Locker {}

impl KvStorePartition for LockerInner {}

impl KvStorePartition for Fingerprint {}

impl KvStorePartition for HashTable {}

impl KvStorePartition for ReverseLookup {}

impl KvStorePartition for Vault {}

impl KvStorePartition for VaultInner {}

/// Primary key of the locker table.
#[derive(Debug, Clone, PartialEq, Eq)]
pub struct LockerPrimaryKeyType {
    pub locker_id: String,
    pub merchant_id: String,
    pub customer_id: String,
}

impl LockerPrimaryKeyType {
    /// Lockers are partitioned by merchant and customer.
    pub fn get_partition_key(&self) -> (r: PartitionKey<'_>)
        ensures
            r is Locker,
            partition_key_text(r) == "locker_"@ + self.merchant_id@ + "_"@ + self.customer_id@,
    {
        PartitionKey::Locker {
            merchant_id: self.merchant_id.as_str(),
            customer_id: self.customer_id.as_str(),
        }
    }
}

/// The reverse-lookup id of a locker: `locker_<merchant>_<customer>_<hash>`.
pub open spec fn locker_lookup_id(merchant_id: Seq<char>, customer_id: Seq<char>, hash_id: Seq<char>) -> Seq<char> {
    "locker_"@ + merchant_id + "_"@ + customer_id + "_"@ + hash_id
}

fn locker_lookup_id_of(merchant_id: &String, customer_id: &String, hash_id: &String) -> (r: String)
    ensures
        r@ == locker_lookup_id(merchant_id@, customer_id@, hash_id@),
{
    let mut s = concat("locker_", merchant_id.as_str());
    s.append("_");
    s.append(customer_id.as_str());
    s.append("_");
    s.append(hash_id.as_str());
    s
}

/// Secondary key of the locker table: the card's hash within a merchant's customer.
#[derive(Debug, Clone, PartialEq, Eq)]
pub struct LockerHashLookupKey {
    pub hash_id: String,
    pub merchant_id: String,
    pub customer_id: String,
}

impl LockerHashLookupKey {
    pub fn get_lookup_key(&self) -> (r: ReverseLookupKey)
        ensures
            r.lookup_id@ == locker_lookup_id(self.merchant_id@, self.customer_id@, self.hash_id@),
    {
        ReverseLookupKey {
            lookup_id: locker_lookup_id_of(&self.merchant_id, &self.customer_id, &self.hash_id),
        }
    }
}

impl Locker {
    /// The secondary key a new locker row is registered under.
    pub fn get_reverse_lookup_key(new_object: &LockerNew) -> (r: LockerHashLookupKey)
        ensures
            r.hash_id == new_object.hash_id,
            r.merchant_id == new_object.merchant_id,
            r.customer_id == new_object.customer_id,
    {
        LockerHashLookupKey {
            hash_id: new_object.hash_id.clone(),
            customer_id: new_object.customer_id.clone(),
            merchant_id: new_object.merchant_id.clone(),
        }
    }

    /// The reverse-lookup id of a stored locker, removed when the locker is deleted.
    pub fn get_reverse_lookup_key_from_resource(resource: &Locker) -> (r: ReverseLookupKey)
        ensures
            r.lookup_id@ == locker_lookup_id(
                resource.merchant_id@,
                resource.customer_id@,
                resource.hash_id@,
            ),
    {
        ReverseLookupKey {
            lookup_id: locker_lookup_id_of(
                &resource.merchant_id,
                &resource.customer_id,
                &resource.hash_id,
            ),
        }
    }
}

/// The reverse-lookup id a locker is registered under when inserted is the one its
/// delete removes: both are derived from the same merchant, customer and hash.
pub proof fn lemma_locker_lookup_id_stable(new_object: LockerNew, stored: Locker)
    requires
        stored.merchant_id == new_object.merchant_id,
        stored.customer_id == new_object.customer_id,
        stored.hash_id == new_object.hash_id,
    ensures
        locker_lookup_id(new_object.merchant_id@, new_object.customer_id@, new_object.hash_id@)
            == locker_lookup_id(stored.merchant_id@, stored.customer_id@, stored.hash_id@),
{
}

/// Primary key of the fingerprint table.
#[derive(Debug, Clone, PartialEq, Eq)]
pub struct FingerprintPrimaryKey {
    pub fingerprint_hash: Vec<u8>,
}

impl FingerprintPrimaryKey {
    pub fn get_partition_key(&self) -> (r: PartitionKey<'_>)
        ensures
            r matches PartitionKey::Fingerprint { fingerprint_hash } && fingerprint_hash@
                == self.fingerprint_hash@,
            partition_key_text(r) == "fingerprint_"@ + hex_lower(self.fingerprint_hash@),
    {
        PartitionKey::Fingerprint { fingerprint_hash: self.fingerprint_hash.as_slice() }
    }

    /// The secondary key is the partition key's text.
    pub fn get_secondary_key(&self) -> (r: SecondaryKey)
        ensures
            r.0@ == "fingerprint_"@ + hex_lower(self.fingerprint_hash@),
    {
        SecondaryKey::new(self.get_partition_key().to_string())
    }

    /// The primary key of a new fingerprint row.
    pub fn from_new_object(new_object: &FingerprintTableNew) -> (r: Self)
        ensures
            r.fingerprint_hash@ == new_object.fingerprint_hash@,
    {
        FingerprintPrimaryKey { fingerprint_hash: new_object.fingerprint_hash.clone() }
    }
}

/// Primary key of the hash table.
#[derive(Debug, Clone, PartialEq, Eq)]
pub struct HashTablePrimaryKey {
    pub data_hash: Vec<u8>,
}

impl HashTablePrimaryKey {
    pub fn get_partition_key(&self) -> (r: PartitionKey<'_>)
        ensures
            r matches PartitionKey::HashTable { data_hash } && data_hash@ == self.data_hash@,
            partition_key_text(r) == "hash_table_"@ + hex_lower(self.data_hash@),
    {
        PartitionKey::HashTable { data_hash: self.data_hash.as_slice() }
    }
}

/// Primary key of the reverse-lookup table.
#[derive(Debug, Clone, PartialEq, Eq)]
pub struct ReverseLookupPrimaryKey {
    pub lookup_id: String,
}

impl ReverseLookupPrimaryKey {
    pub fn get_partition_key(&self) -> (r: PartitionKey<'_>)
        ensures
            r is ReverseLookup,
            partition_key_text(r) == "reverse_lookup_"@ + self.lookup_id@,
    {
        PartitionKey::ReverseLookup { lookup_id: self.lookup_id.as_str() }
    }
}

/// Primary key of the vault table.
#[derive(Debug, Clone, PartialEq, Eq)]
pub struct VaultPrimaryKey {
    pub entity_id: String,
    pub vault_id: String,
}

impl VaultPrimaryKey {
    pub fn get_partition_key(&self) -> (r: PartitionKey<'_>)
        ensures
            r is Vault,
            partition_key_text(r) == "vault_"@ + self.entity_id@ + "_"@ + self.vault_id@,
    {
        PartitionKey::Vault { entity_id: self.entity_id.as_str(), vault_id: self.vault_id.as_str() }
    }

    /// The secondary key is the partition key's text.
    pub fn get_secondary_key(&self) -> (r: SecondaryKey)
        ensures
            r.0@ == "vault_"@ + self.entity_id@ + "_"@ + self.vault_id@,
    {
        SecondaryKey::new(self.get_partition_key().to_string())
    }

    /// The primary key of a new vault row.
    pub fn from_new_object(new_object: &VaultNewInner) -> (r: Self)
        ensures
            r.entity_id == new_object.entity_id,
            r.vault_id == new_object.vault_id,
    {
        VaultPrimaryKey {
            entity_id: new_object.entity_id.clone(),
            vault_id: new_object.vault_id.clone(),
        }
    }
}

} // verus!
