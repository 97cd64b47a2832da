//! The card (locker) API: the flow of storing a card.

pub mod transformers;
pub mod types;

use vstd::prelude::*;

use self::types::{DataDuplicationCheck, Status, StoreCardRespPayload, StoreCardResponse};
use crate::storage::types::Locker;

verus! {

/// The next action of `/data/add`.
#[derive(Debug, Clone, PartialEq, Eq)]
pub enum AddCardStep {
    /// Look for a locker of the merchant's customer under this card hash.
    LookupLocker { hash_id: String },
    /// Register the card hash (first time it is seen).
    InsertHash,
    /// Encrypt the data and insert a locker under this card hash.
    InsertLocker { hash_id: String },
    /// Decrypt the stored locker and compare it with the request.
    CompareWithStored(Locker),
}

/// After looking the card hash up: a known hash leads to its lockers, an unknown one is
/// registered first.
pub fn add_card_after_hash_lookup(existing_hash_id: Option<String>) -> (r: AddCardStep)
    ensures
        match existing_hash_id {
            Some(h) => r == AddCardStep::LookupLocker { hash_id: h },
            None => r == AddCardStep::InsertHash,
        },
{
    match existing_hash_id {
        Some(hash_id) => AddCardStep::LookupLocker { hash_id },
        None => AddCardStep::InsertHash,
    }
}

/// After the locker lookup under `hash_id`: an existing locker is compared with the
/// request, otherwise a locker is inserted under that hash.
pub fn add_card_after_locker_lookup(hash_id: String, stored: Option<Locker>) -> (r: AddCardStep)
    ensures
        match stored {
            Some(l) => r == AddCardStep::CompareWithStored(l),
            None => r == AddCardStep::InsertLocker { hash_id },
        },
{
    match stored {
        Some(locker) => AddCardStep::CompareWithStored(locker),
        None => AddCardStep::InsertLocker { hash_id },
    }
}

/// After registering the card hash: the locker is inserted under the new hash id.
pub fn add_card_after_hash_insert(hash_id: String) -> (r: AddCardStep)
    ensures
        r == (AddCardStep::InsertLocker { hash_id }),
{
    AddCardStep::InsertLocker { hash_id }
}

/// The reply to a store request: the locker id as card reference, with the duplication
/// status when the card was already stored.
pub fn store_card_response(duplication_check: Option<DataDuplicationCheck>, locker: Locker) -> (r:
    StoreCardResponse)
    ensures
        r.status == Status::Success,
        r.payload == Some(
            StoreCardRespPayload { card_reference: locker.locker_id, duplication_check },
        ),
{
    StoreCardResponse {
        status: Status::Success,
        payload: Some(StoreCardRespPayload { card_reference: locker.locker_id, duplication_check }),
    }
}

} // verus!
