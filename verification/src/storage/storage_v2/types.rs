//! Row models of the vault table.

use vstd::prelude::*;

use crate::routes::routes_v2::data::types::StoreDataRequest;
use crate::storage::scheme::StorageScheme;
use crate::storage::types::{now, Encryptable, Encrypted};

verus! {

/// Stored vault data, as handed to the API layer.
#[derive(Debug, Clone, PartialEq, Eq)]
pub struct Vault {
    pub vault_id: String,
    pub entity_id: String,
    pub data: Encryptable,
    pub created_at: i128,
    pub expires_at: Option<i128>,
    pub updated_by: Option<StorageScheme>,
}

/// A new vault row.
#[derive(Debug, Clone, PartialEq, Eq)]
pub struct VaultNew {
    pub vault_id: String,
    pub entity_id: String,
    pub encrypted_data: Encrypted,
    pub created_at: i128,
    pub expires_at: Option<i128>,
    pub updated_by: StorageScheme,
}

/// The mutable fields of a vault row.
#[derive(Debug, Clone, PartialEq, Eq)]
pub struct VaultUpdate {
    pub encrypted_data: Encrypted,
    pub expires_at: Option<i128>,
    pub updated_by: StorageScheme,
}

/// A vault row as read from storage.
#[derive(Debug, Clone, PartialEq, Eq)]
pub struct VaultInner {
    pub id: i32,
    pub entity_id: String,
    pub vault_id: String,
    pub encrypted_data: Encrypted,
    pub created_at: i128,
    pub expires_at: Option<i128>,
    pub updated_by: Option<StorageScheme>,
}

/// A vault row as inserted.
#[derive(Debug, Clone, PartialEq, Eq)]
pub struct VaultNewInner {
    pub vault_id: String,
    pub entity_id: String,
    pub encrypted_data: Encrypted,
    pub created_at: i128,
    pub expires_at: Option<i128>,
    pub updated_by: Option<StorageScheme>,
}

impl VaultNew {
    /// A new row for a store request: its vault and entity ids and TTL, the current time,
    /// the encrypted data given. The storage scheme is set when the insert is routed.
    pub fn new(request: StoreDataRequest, encrypted_data: Encrypted) -> (r: Self)
        ensures
            r.vault_id == request.vault_id,
            r.entity_id == request.entity_id,
            r.encrypted_data == encrypted_data,
            r.expires_at == request.ttl,
            r.updated_by == StorageScheme::PostgresOnly,
    {
        VaultNew {
            vault_id: request.vault_id,
            entity_id: request.entity_id,
            encrypted_data,
            created_at: now(),
            expires_at: request.ttl,
            updated_by: StorageScheme::PostgresOnly,
        }
    }

    /// The fields of the row that an update overwrites.
    pub fn into_update(self) -> (r: VaultUpdate)
        ensures
            r == (VaultUpdate {
                encrypted_data: self.encrypted_data,
                expires_at: self.expires_at,
                updated_by: self.updated_by,
            }),
    {
        VaultUpdate {
            encrypted_data: self.encrypted_data,
            expires_at: self.expires_at,
            updated_by: self.updated_by,
        }
    }

    /// The row as inserted.
    pub fn into_new_inner(self) -> (r: VaultNewInner)
        ensures
            r == (VaultNewInner {
                vault_id: self.vault_id,
                entity_id: self.entity_id,
                encrypted_data: self.encrypted_data,
                created_at: self.created_at,
                expires_at: self.expires_at,
                updated_by: Some(self.updated_by),
            }),
    {
        VaultNewInner {
            vault_id: self.vault_id,
            entity_id: self.entity_id,
            encrypted_data: self.encrypted_data,
            created_at: self.created_at,
            expires_at: self.expires_at,
            updated_by: Some(self.updated_by),
        }
    }
}

/// The row `current` becomes under `update`: identity and creation time are kept, the
/// data, expiry and storage scheme replaced; the serial id is unknown (0) until the row
/// reaches PostgreSQL.
pub open spec fn applied_update(update: VaultUpdate, current: VaultInner) -> VaultInner {
    VaultInner {
        id: 0,
        entity_id: current.entity_id,
        vault_id: current.vault_id,
        encrypted_data: update.encrypted_data,
        created_at: current.created_at,
        expires_at: update.expires_at,
        updated_by: Some(update.updated_by),
    }
}

impl VaultInner {
    /// Applies the updated fields of `new` on `current`; see [`applied_update`].
    pub fn from_update(new: VaultUpdate, current: Self) -> (r: Self)
        ensures
            r == applied_update(new, current),
    {
        VaultInner {
            id: 0,
            entity_id: current.entity_id,
            vault_id: current.vault_id,
            encrypted_data: new.encrypted_data,
            created_at: current.created_at,
            expires_at: new.expires_at,
            updated_by: Some(new.updated_by),
        }
    }

    /// The row as handed to the API layer, its data still encrypted.
    pub fn into_vault(self) -> (r: Vault)
        ensures
            r == (Vault {
                vault_id: self.vault_id,
                entity_id: self.entity_id,
                data: Encryptable::Encrypted(self.encrypted_data.inner),
                created_at: self.created_at,
                expires_at: self.expires_at,
                updated_by: self.updated_by,
            }),
    {
        Vault {
            vault_id: self.vault_id,
            entity_id: self.entity_id,
            data: Encryptable::from_encrypted(self.encrypted_data),
            created_at: self.created_at,
            expires_at: self.expires_at,
            updated_by: self.updated_by,
        }
    }
}

impl VaultNewInner {
    pub fn set_updated_by(&mut self, updated_by: StorageScheme)
        ensures
            *final(self) == (VaultNewInner { updated_by: Some(updated_by), ..*old(self) }),
    {
        self.updated_by = Some(updated_by);
    }

    /// The row an insert becomes; its serial id is unknown (0) until it reaches
    /// PostgreSQL.
    pub fn into_inner(self) -> (r: VaultInner)
        ensures
            r == (VaultInner {
                id: 0,
                entity_id: self.entity_id,
                vault_id: self.vault_id,
                encrypted_data: self.encrypted_data,
                created_at: self.created_at,
                expires_at: self.expires_at,
                updated_by: self.updated_by,
            }),
    {
        VaultInner {
            id: 0,
            entity_id: self.entity_id,
            vault_id: self.vault_id,
            encrypted_data: self.encrypted_data,
            created_at: self.created_at,
            expires_at: self.expires_at,
            updated_by: self.updated_by,
        }
    }
}

impl Vault {
    /// The encrypted payload, if the data is still encrypted.
    pub fn get_encrypted_inner_value(&self) -> (r: Option<Vec<u8>>)
        ensures
            match self.data {
                Encryptable::Encrypted(v) => r matches Some(x) && x@ == v@,
                Encryptable::Decrypted(_) => r is None,
            },
    {
        self.data.get_encrypted_inner_value()
    }

    /// The vault with its data replaced by the decrypted payload.
    pub fn set_decrypted_data(self, decrypted_data: Vec<u8>) -> (r: Self)
        ensures
            r == (Vault { data: Encryptable::Decrypted(decrypted_data), ..self }),
    {
        let mut v = self;
        v.data = Encryptable::from_decrypted_data(decrypted_data);
        v
    }
}

/// Updating a vault row keeps its identity and creation time, takes every mutable field
/// from the update, and applying the same update twice has the effect of applying it
/// once.
pub proof fn lemma_update_keeps_identity_and_is_idempotent(update: VaultUpdate, current: VaultInner)
    ensures
        applied_update(update, current).entity_id == current.entity_id,
        applied_update(update, current).vault_id == current.vault_id,
        applied_update(update, current).created_at == current.created_at,
        applied_update(update, current).encrypted_data == update.encrypted_data,
        applied_update(update, current).expires_at == update.expires_at,
        applied_update(update, current).updated_by == Some(update.updated_by),
        applied_update(update, applied_update(update, current)) == applied_update(update, current),
{
}

} // verus!
