//! Key custodian: the two halves of the master-key decryption key, and their checks.

use vstd::prelude::*;

use crate::error::ApiError;
use crate::text::concat;

verus! {

/// Number of bytes each custodian key half decodes to.
pub const KEY_LENGTH: usize = 16;

/// The custodian key halves received so far for a tenant.
#[derive(Debug, Clone, PartialEq, Eq)]
pub struct CustodianKeyState {
    pub key1: Option<String>,
    pub key2: Option<String>,
}

impl Default for CustodianKeyState {
    fn default() -> (r: Self)
        ensures
            r.key1 is None && r.key2 is None,
    {
        CustodianKeyState { key1: None, key2: None }
    }
}

/// Request body of `/custodian/key1` and `/custodian/key2`.
#[derive(Debug, Clone, PartialEq, Eq)]
pub struct CustodianReqPayload {
    pub key: String,
}

#[derive(Debug, Clone, PartialEq, Eq)]
pub struct CustodianRespPayload {
    pub message: String,
}

/// The value of a hexadecimal digit byte, either case.
pub open spec fn hex_value(b: u8) -> Option<u8> {
    if 48 <= b <= 57 {
        Some((b - 48) as u8)
    } else if 97 <= b <= 102 {
        Some((b - 87) as u8)
    } else if 65 <= b <= 70 {
        Some((b - 55) as u8)
    } else {
        None
    }
}

/// The bytes a hexadecimal text decodes to: two digits per byte, high nibble first; an
/// odd length or a non-hex byte decodes to nothing.
pub open spec fn hex_decoded(text: Seq<u8>) -> Option<Seq<u8>>
    decreases text.len(),
{
    if text.len() % 2 != 0 {
        None
    } else if text.len() == 0 {
        Some(Seq::empty())
    } else {
        match (hex_value(text[0]), hex_value(text[1]), hex_decoded(text.skip(2))) {
            (Some(h), Some(l), Some(rest)) => Some(seq![(h * 16 + l) as u8] + rest),
            _ => None,
        }
    }
}

/// Wraps `hex::decode` on the UTF-8 bytes of `text`.
#[verifier::external_body]
fn hex_decode(text: &str) -> (r: Option<Vec<u8>>)
    ensures
        r.deep_view() == hex_decoded(vstd::utf8::encode_utf8(text@)),
{
    hex::decode(text).ok()
}

/// Checks a custodian key half: it must be hexadecimal text of exactly `KEY_LENGTH`
/// bytes.
pub fn key_validation(key: &str) -> (r: Result<(), &'static str>)
    ensures
        match hex_decoded(vstd::utf8::encode_utf8(key@)) {
            None => r == Err::<(), &'static str>("error while parsing hex"),
            Some(bytes) => if bytes.len() == KEY_LENGTH {
                r == Ok::<(), &'static str>(())
            } else {
                r == Err::<(), &'static str>("Error while validating key")
            },
        },
{
    match hex_decode(key) {
        None => Err("error while parsing hex"),
        Some(bytes) => if bytes.len() == KEY_LENGTH {
            Ok(())
        } else {
            Err("Error while validating key")
        },
    }
}

/// A hexadecimal text decodes to half as many bytes as it has.
pub proof fn lemma_hex_decoded_length(text: Seq<u8>)
    ensures
        hex_decoded(text) matches Some(bytes) ==> bytes.len() * 2 == text.len(),
    decreases text.len(),
{
    if text.len() % 2 == 0 && text.len() > 0 {
        lemma_hex_decoded_length(text.skip(2));
    }
}

/// An accepted custodian key half is hexadecimal text of exactly `2 * KEY_LENGTH`
/// bytes.
pub proof fn lemma_accepted_key_length(key: Seq<char>)
    requires
        hex_decoded(vstd::utf8::encode_utf8(key)) matches Some(bytes) && bytes.len() == KEY_LENGTH,
    ensures
        vstd::utf8::encode_utf8(key).len() == 2 * KEY_LENGTH,
{
    lemma_hex_decoded_length(vstd::utf8::encode_utf8(key));
}

impl CustodianKeyState {
    /// Records the first key half.
    pub fn set_key1(&mut self, key: String)
        ensures
            final(self).key1 == Some(key),
            final(self).key2 == old(self).key2,
    {
        self.key1 = Some(key);
    }

    /// Records the second key half.
    pub fn set_key2(&mut self, key: String)
        ensures
            final(self).key2 == Some(key),
            final(self).key1 == old(self).key1,
    {
        self.key2 = Some(key);
    }

    /// Decryption needs both halves; it is refused otherwise.
    pub fn both_keys(&self) -> (r: Result<(String, String), ApiError>)
        ensures
            match (self.key1, self.key2) {
                (Some(k1), Some(k2)) => r matches Ok((a, b)) && a@ == k1@ && b@ == k2@,
                _ => r == Err::<(String, String), ApiError>(
                    ApiError::DecryptingKeysFailed(
                        "Both the custodain keys are not present to decrypt",
                    ),
                ),
            },
    {
        match (&self.key1, &self.key2) {
            (Some(k1), Some(k2)) => Ok((k1.clone(), k2.clone())),
            _ => Err(
                ApiError::DecryptingKeysFailed("Both the custodain keys are not present to decrypt"),
            ),
        }
    }

    /// The two halves for decryption. When one is missing, decryption is refused and
    /// both halves are discarded, so that they must be sent again; otherwise the state
    /// is left as it is.
    pub fn take_key_halves(&mut self) -> (r: Result<(String, String), ApiError>)
        ensures
            match (old(self).key1, old(self).key2) {
                (Some(k1), Some(k2)) => r matches Ok((a, b)) && a@ == k1@ && b@ == k2@
                    && *final(self) == *old(self),
                _ => r == Err::<(String, String), ApiError>(
                    ApiError::DecryptingKeysFailed(
                        "Both the custodain keys are not present to decrypt",
                    ),
                ) && final(self).key1 is None && final(self).key2 is None,
            },
    {
        let halves = self.both_keys();
        if halves.is_err() {
            self.key1 = None;
            self.key2 = None;
        }
        halves
    }
}

/// The key state of the tenant to unlock: a tenant without key state is unknown and is
/// refused, and nothing changes.
pub fn key_state_of_tenant<S>(state: Option<S>) -> (r: Result<S, ApiError>)
    ensures
        match state {
            Some(s) => r == Ok::<S, ApiError>(s),
            None => r == Err::<S, ApiError>(ApiError::TenantError("Tenant not found")),
        },
{
    match state {
        Some(s) => Ok(s),
        None => Err(ApiError::TenantError("Tenant not found")),
    }
}

/// The key that decrypts the master key: the two hexadecimal halves, concatenated and
/// decoded.
pub fn custodian_key_bytes(key1: &str, key2: &str) -> (r: Result<Vec<u8>, ApiError>)
    ensures
        match hex_decoded(vstd::utf8::encode_utf8(key1@ + key2@)) {
            Some(bytes) => r matches Ok(v) && v@ == bytes,
            None => r == Err::<Vec<u8>, ApiError>(
                ApiError::DecryptingKeysFailed("Hex dcoding failed"),
            ),
        },
{
    let joined = concat(key1, key2);
    match hex_decode(joined.as_str()) {
        Some(bytes) => Ok(bytes),
        None => Err(ApiError::DecryptingKeysFailed("Hex dcoding failed")),
    }
}

} // verus!
