//! Transfer of merchant keys to the external key manager.

use vstd::prelude::*;

use crate::storage::consts::ID_LENGTH;
use crate::storage::types::{base64_encode, base64_standard};
use crate::storage::utils::{generate_nano_id, is_ascii_alphanumeric};
use crate::text::concat;

verus! {

#[derive(Debug, Clone, Copy, PartialEq, Eq, Structural)]
pub struct MerchantKeyTransferRequest {
    pub limit: i64,
}

#[derive(Debug, Clone, Copy, PartialEq, Eq, Structural)]
pub struct TransferKeyResponse {
    pub total_transferred: usize,
}

/// The body sent to the key manager for one merchant key: the key under a new entity
/// identifier.
#[derive(Debug, Clone, PartialEq, Eq)]
pub struct KeyTransferRequest {
    pub entity_id: String,
    pub key: String,
}

/// The key manager endpoint that receives transferred keys.
pub fn key_transfer_url(key_manager_url: &str) -> (r: String)
    ensures
        r@ == key_manager_url@ + "/key/transfer"@,
{
    concat(key_manager_url, "/key/transfer")
}

/// The transfer body of a merchant key: the key as standard base64 text, identified by
/// a fresh entity id of `ID_LENGTH` letters and digits.
pub fn key_transfer_request(enc_key: &Vec<u8>) -> (r: KeyTransferRequest)
    ensures
        r.key@ == base64_standard(enc_key@),
        r.entity_id@.len() == ID_LENGTH,
        forall|i: int| 0 <= i < r.entity_id@.len() ==> is_ascii_alphanumeric(#[trigger] r.entity_id@[i]),
{
    let key = base64_encode(enc_key.as_slice());
    let entity_id = generate_nano_id(ID_LENGTH);
    KeyTransferRequest { entity_id, key }
}

/// The response of a transfer in which every key in `migrated` reached the key manager.
pub fn transfer_key_response<T>(migrated: &Vec<T>) -> (r: TransferKeyResponse)
    ensures
        r.total_transferred == migrated@.len(),
{
    TransferKeyResponse { total_transferred: migrated.len() }
}

} // verus!
