//! Migration of stored cards to the card-number hash index.

use vstd::prelude::*;
use vstd::string::StringExecFns;

use crate::routes::data::types::{Card, StoredData};
use crate::text::{concat, to_owned_string};

verus! {

#[derive(Debug, Clone, PartialEq, Eq)]
pub struct MigrationResponse {
    pub message: String,
}

/// What a migration does with the stored data.
#[derive(Debug, Clone, PartialEq, Eq)]
pub enum MigrationStep {
    /// Data the caller encrypted itself has no card number to index: answer with this.
    Skip(MigrationResponse),
    /// Index this card.
    Migrate(Card),
}

/// Cards are migrated; caller-encrypted data cannot be.
pub fn migration_step(stored: StoredData) -> (r: MigrationStep)
    ensures
        match stored {
            StoredData::EncData(_) => r matches MigrationStep::Skip(resp) && resp.message@
                == "Encrypted card cannot be migrated"@,
            StoredData::CardData(card) => r == MigrationStep::Migrate(card),
        },
{
    match stored {
        StoredData::EncData(_) => MigrationStep::Skip(
            MigrationResponse { message: to_owned_string("Encrypted card cannot be migrated") },
        ),
        StoredData::CardData(card) => MigrationStep::Migrate(card),
    }
}

/// The hash id the migrated card is indexed under: the existing row's, or a new one.
pub fn migration_hash_id(existing: Option<String>, inserted: String) -> (r: String)
    ensures
        r == (match existing {
            Some(h) => h,
            None => inserted,
        }),
{
    match existing {
        Some(h) => h,
        None => inserted,
    }
}

/// The response of a completed migration.
pub fn migration_success(merchant_id: &str, customer_id: &str, pmid: &str) -> (r: MigrationResponse)
    ensures
        r.message@ == "Migration successful for merchant_id: "@ + merchant_id@ + ", customer_id: "@
            + customer_id@ + ", pmid: "@ + pmid@,
{
    let mut message = concat("Migration successful for merchant_id: ", merchant_id);
    message.append(", customer_id: ");
    message.append(customer_id);
    message.append(", pmid: ");
    message.append(pmid);
    MigrationResponse { message }
}

} // verus!
