//! Row models of the storage layer. Secrets are held as plain bytes and strings;
//! timestamps as nanoseconds since the Unix epoch (UTC).

use vstd::prelude::*;
use vstd::string::StrSliceExecFns;
use base64::Engine;

use super::kv::partition_key::{partition_key_text, PartitionKey};
use super::scheme::{storage_scheme_name, StorageScheme};
use super::utils::{generate_uuid, is_hyphenated_uuid};
use crate::error::ApiError;
use crate::routes::data::types::StoreCardRequest;
use crate::text::to_owned_string;
use crate::validations::{card_number_verdict, sanitize_card_number};

verus! {

/// A row of the `reverse_lookup` table: maps a secondary lookup id to the partition key
/// under which the resource is stored.
#[derive(Debug, Clone, PartialEq, Eq)]
pub struct ReverseLookup {
    pub lookup_id: String,
    pub secondary_key: String,
    pub partition_key: String,
    pub source: String,
    pub update_by: String,
}

/// A new `reverse_lookup` row.
#[derive(Debug, Clone, PartialEq, Eq)]
pub struct ReverseLookupNew {
    pub lookup_id: String,
    pub secondary_key: String,
    pub partition_key: String,
    pub source: String,
    pub update_by: String,
}

impl ReverseLookupNew {
    /// The row as stored.
    pub fn into_reverse_lookup(self) -> (r: ReverseLookup)
        ensures
            r.lookup_id == self.lookup_id,
            r.secondary_key == self.secondary_key,
            r.partition_key == self.partition_key,
            r.source == self.source,
            r.update_by == self.update_by,
    {
        ReverseLookup {
            lookup_id: self.lookup_id,
            secondary_key: self.secondary_key,
            partition_key: self.partition_key,
            source: self.source,
            update_by: self.update_by,
        }
    }
}

impl ReverseLookup {
    /// The partition key under which the looked-up resource is stored.
    pub fn get_partition_key(&self) -> (r: PartitionKey<'_>)
        ensures
            r is CombinationKey,
            partition_key_text(r) == self.partition_key@,
    {
        PartitionKey::CombinationKey { combination: self.partition_key.as_str() }
    }
}

impl ReverseLookupNew {
    /// Marks the record with the storage scheme chosen for the insert.
    pub fn set_storage_scheme(&mut self, scheme: StorageScheme)
        ensures
            final(self).update_by@ == storage_scheme_name(scheme)@,
            final(self).lookup_id == old(self).lookup_id,
            final(self).secondary_key == old(self).secondary_key,
            final(self).partition_key == old(self).partition_key,
            final(self).source == old(self).source,
    {
        self.update_by = to_owned_string(scheme.as_str());
    }
}

/// The index of a base64 digit in the standard alphabet.
pub open spec fn base64_digit(n: int) -> char {
    if n < 26 {
        (65 + n) as char
    } else if n < 52 {
        (97 + n - 26) as char
    } else if n < 62 {
        (48 + n - 52) as char
    } else if n == 62 {
        '+'
    } else {
        '/'
    }
}

/// Standard (RFC 4648) base64 text of `data`, padded with `=`.
pub open spec fn base64_standard(data: Seq<u8>) -> Seq<char>
    decreases data.len(),
{
    if data.len() == 0 {
        Seq::empty()
    } else if data.len() == 1 {
        seq![base64_digit((data[0] / 4) as int), base64_digit((data[0] % 4) * 16), '=', '=']
    } else if data.len() == 2 {
        seq![
            base64_digit((data[0] / 4) as int),
            base64_digit((data[0] % 4) * 16 + data[1] / 16),
            base64_digit((data[1] % 16) * 4),
            '=',
        ]
    } else {
        seq![
            base64_digit((data[0] / 4) as int),
            base64_digit((data[0] % 4) * 16 + data[1] / 16),
            base64_digit((data[1] % 16) * 4 + data[2] / 64),
            base64_digit((data[2] % 64) as int),
        ] + base64_standard(data.skip(3))
    }
}

/// The bytes that the standard base64 engine decodes from `text`, if it accepts it.
pub uninterp spec fn base64_standard_decoded(text: Seq<char>) -> Option<Seq<u8>>;

/// Wraps `base64::engine::general_purpose::STANDARD.encode`. The encoder panics only
/// when the encoded length overflows `usize`, which no slice can reach: a slice holds at
/// most `isize::MAX` bytes.
#[verifier::external_body]
pub(crate) fn base64_encode(data: &[u8]) -> (r: String)
    ensures
        r@ == base64_standard(data@),
{
    base64::engine::general_purpose::STANDARD.encode(data)
}

/// Wraps `base64::engine::general_purpose::STANDARD.decode`; its result is named
/// [`base64_standard_decoded`]. The engine accepts only the standard alphabet and
/// requires canonical padding and no trailing bits: it accepts exactly the standard
/// encodings, and decoding the encoding of any bytes gives the bytes back.
#[verifier::external_body]
fn base64_decode(text: &str) -> (r: Option<Vec<u8>>)
    ensures
        r.deep_view() == base64_standard_decoded(text@),
        r matches Some(bytes) ==> base64_standard(bytes@) == text@,
        forall|bytes: Seq<u8>| #[trigger] base64_standard(bytes) == text@ ==> r.deep_view() == Some(
            bytes,
        ),
{
    base64::engine::general_purpose::STANDARD.decode(text).ok()
}

/// Data stored in encrypted state in the database.
#[derive(Debug, Clone, PartialEq, Eq)]
pub struct Encrypted {
    pub inner: Vec<u8>,
}

impl Encrypted {
    pub fn new(item: Vec<u8>) -> (r: Self)
        ensures
            r.inner == item,
    {
        Encrypted { inner: item }
    }

    pub fn into_inner(self) -> (r: Vec<u8>)
        ensures
            r == self.inner,
    {
        self.inner
    }

    pub fn get_inner(&self) -> (r: &Vec<u8>)
        ensures
            r == &self.inner,
    {
        &self.inner
    }

    /// The serialized form: the standard base64 text of the bytes.
    pub fn to_base64(&self) -> (r: String)
        ensures
            r@ == base64_standard(self.inner@),
    {
        base64_encode(self.inner.as_slice())
    }

    /// Reads the serialized form: it succeeds exactly on the standard base64 encoding
    /// of some bytes, and then gives those bytes back.
    pub fn from_base64(text: &str) -> (r: Option<Self>)
        ensures
            match base64_standard_decoded(text@) {
                Some(bytes) => r matches Some(e) && e.inner@ == bytes,
                None => r is None,
            },
            forall|bytes: Seq<u8>| #[trigger] base64_standard(bytes) == text@ ==> (r matches Some(e)
                && e.inner@ == bytes),
            r matches Some(e) ==> base64_standard(e.inner@) == text@,
    {
        match base64_decode(text) {
            Some(bytes) => Some(Encrypted::new(bytes)),
            None => None,
        }
    }
}

/// Stored data, either still encrypted or already decrypted.
#[derive(Debug, Clone, PartialEq, Eq)]
pub enum Encryptable {
    Encrypted(Vec<u8>),
    Decrypted(Vec<u8>),
}

impl Encryptable {
    pub fn get_encrypted_inner_value(&self) -> (r: Option<Vec<u8>>)
        ensures
            match self {
                Encryptable::Encrypted(v) => r matches Some(x) && x@ == v@,
                Encryptable::Decrypted(_) => r is None,
            },
    {
        match self {
            Encryptable::Encrypted(secret) => Some(secret.clone()),
            Encryptable::Decrypted(_) => None,
        }
    }

    pub fn get_decrypted_inner_value(&self) -> (r: Option<Vec<u8>>)
        ensures
            match self {
                Encryptable::Encrypted(_) => r is None,
                Encryptable::Decrypted(v) => r matches Some(x) && x@ == v@,
            },
    {
        match self {
            Encryptable::Encrypted(_) => None,
            Encryptable::Decrypted(secret) => Some(secret.clone()),
        }
    }

    pub fn from_decrypted_data(decrypted_data: Vec<u8>) -> (r: Self)
        ensures
            r == Encryptable::Decrypted(decrypted_data),
    {
        Encryptable::Decrypted(decrypted_data)
    }

    /// Data read from the database: still encrypted.
    pub fn from_encrypted(value: Encrypted) -> (r: Self)
        ensures
            r == Encryptable::Encrypted(value.inner),
    {
        Encryptable::Encrypted(value.into_inner())
    }
}

#[derive(Debug, Clone, PartialEq, Eq)]
pub struct Merchant {
    pub merchant_id: String,
    pub enc_key: Vec<u8>,
    pub created_at: i128,
}

#[derive(Debug, Clone, PartialEq, Eq)]
pub struct MerchantNew<'a> {
    pub merchant_id: &'a str,
    pub enc_key: Vec<u8>,
}

/// A locker row as read from storage.
#[derive(Debug, Clone, PartialEq, Eq)]
pub struct LockerInner {
    pub id: i32,
    pub locker_id: String,
    pub merchant_id: String,
    pub customer_id: String,
    pub enc_data: Encrypted,
    pub created_at: i128,
    pub hash_id: String,
    pub ttl: Option<i128>,
    pub updated_by: StorageScheme,
}

/// A stored card, as handed to the API layer.
#[derive(Debug, Clone, PartialEq, Eq)]
pub struct Locker {
    pub locker_id: String,
    pub merchant_id: String,
    pub customer_id: String,
    pub data: Encryptable,
    pub created_at: i128,
    pub hash_id: String,
    pub ttl: Option<i128>,
    pub updated_by: StorageScheme,
}

/// A new locker row.
#[derive(Debug, Clone, PartialEq, Eq)]
pub struct LockerNew {
    pub locker_id: String,
    pub merchant_id: String,
    pub customer_id: String,
    pub enc_data: Encrypted,
    pub created_at: i128,
    pub hash_id: String,
    pub ttl: Option<i128>,
    pub updated_by: StorageScheme,
}

/// Wraps `time::OffsetDateTime::now_utc`: the current time in nanoseconds since the
/// Unix epoch.
#[verifier::external_body]
fn current_unix_nanos() -> (r: i128) {
    time::OffsetDateTime::now_utc().unix_timestamp_nanos()
}

/// The current UTC time, in nanoseconds since the Unix epoch.
pub fn now() -> (r: i128) {
    current_unix_nanos()
}

impl LockerNew {
    /// A new row for a store request: the caller's card reference, or a fresh UUID, as
    /// locker id; the request's merchant, customer and TTL; the current time; the hash
    /// id and encrypted data given. The storage scheme is set when the insert is routed.
    pub fn new(request: StoreCardRequest, hash_id: &str, enc_data: Encrypted) -> (r: Self)
        ensures
            match request.requestor_card_reference {
                Some(reference) => r.locker_id == reference,
                None => is_hyphenated_uuid(r.locker_id@, '7'),
            },
            r.merchant_id == request.merchant_id,
            r.customer_id == request.merchant_customer_id,
            r.enc_data == enc_data,
            r.hash_id@ == hash_id@,
            r.ttl == request.ttl,
            r.updated_by == StorageScheme::PostgresOnly,
    {
        let locker_id = match request.requestor_card_reference {
            Some(reference) => reference,
            None => generate_uuid(),
        };
        LockerNew {
            locker_id,
            merchant_id: request.merchant_id,
            customer_id: request.merchant_customer_id,
            enc_data,
            created_at: now(),
            hash_id: to_owned_string(hash_id),
            ttl: request.ttl,
            updated_by: StorageScheme::PostgresOnly,
        }
    }

    /// Marks the row with the storage scheme chosen for the insert.
    pub fn set_storage_scheme(&mut self, scheme: StorageScheme)
        ensures
            *final(self) == (LockerNew { updated_by: scheme, ..*old(self) }),
    {
        self.updated_by = scheme;
    }

    /// The row as a stored locker.
    pub fn into_locker(self) -> (r: Locker)
        ensures
            r == (Locker {
                locker_id: self.locker_id,
                merchant_id: self.merchant_id,
                customer_id: self.customer_id,
                data: Encryptable::Encrypted(self.enc_data.inner),
                created_at: self.created_at,
                hash_id: self.hash_id,
                ttl: self.ttl,
                updated_by: self.updated_by,
            }),
    {
        Locker {
            locker_id: self.locker_id,
            merchant_id: self.merchant_id,
            customer_id: self.customer_id,
            data: Encryptable::from_encrypted(self.enc_data),
            created_at: self.created_at,
            hash_id: self.hash_id,
            ttl: self.ttl,
            updated_by: self.updated_by,
        }
    }
}

impl LockerInner {
    /// The row a new locker becomes; its serial id is unknown (0) until the row reaches
    /// PostgreSQL.
    pub fn from_new(value: LockerNew) -> (r: Self)
        ensures
            r == (LockerInner {
                id: 0,
                locker_id: value.locker_id,
                merchant_id: value.merchant_id,
                customer_id: value.customer_id,
                enc_data: value.enc_data,
                created_at: value.created_at,
                hash_id: value.hash_id,
                ttl: value.ttl,
                updated_by: value.updated_by,
            }),
    {
        LockerInner {
            id: 0,
            locker_id: value.locker_id,
            merchant_id: value.merchant_id,
            customer_id: value.customer_id,
            enc_data: value.enc_data,
            created_at: value.created_at,
            hash_id: value.hash_id,
            ttl: value.ttl,
            updated_by: value.updated_by,
        }
    }

    /// The row as a stored locker, its data still encrypted.
    pub fn into_locker(self) -> (r: Locker)
        ensures
            r == (Locker {
                locker_id: self.locker_id,
                merchant_id: self.merchant_id,
                customer_id: self.customer_id,
                data: Encryptable::Encrypted(self.enc_data.inner),
                created_at: self.created_at,
                hash_id: self.hash_id,
                ttl: self.ttl,
                updated_by: self.updated_by,
            }),
    {
        Locker {
            locker_id: self.locker_id,
            merchant_id: self.merchant_id,
            customer_id: self.customer_id,
            data: Encryptable::from_encrypted(self.enc_data),
            created_at: self.created_at,
            hash_id: self.hash_id,
            ttl: self.ttl,
            updated_by: self.updated_by,
        }
    }
}

#[derive(Debug, Clone, PartialEq, Eq)]
pub struct HashTable {
    pub id: i32,
    pub hash_id: String,
    pub data_hash: Vec<u8>,
    pub created_at: i128,
    pub updated_by: StorageScheme,
}

#[derive(Debug, Clone, PartialEq, Eq)]
pub struct HashTableNew {
    pub hash_id: String,
    pub data_hash: Vec<u8>,
    pub created_at: i128,
    pub updated_by: StorageScheme,
}

impl HashTableNew {
    /// Marks the row with the storage scheme chosen for the insert.
    pub fn set_storage_scheme(&mut self, scheme: StorageScheme)
        ensures
            *final(self) == (HashTableNew { updated_by: scheme, ..*old(self) }),
    {
        self.updated_by = scheme;
    }
}

#[derive(Debug, Clone, PartialEq, Eq)]
pub struct Fingerprint {
    pub id: i32,
    pub fingerprint_hash: Vec<u8>,
    pub fingerprint_id: String,
    pub updated_by: StorageScheme,
}

#[derive(Debug, Clone, PartialEq, Eq)]
pub struct FingerprintTableNew {
    pub fingerprint_hash: Vec<u8>,
    pub fingerprint_id: String,
    pub updated_by: StorageScheme,
}

impl FingerprintTableNew {
    /// Marks the row with the storage scheme chosen for the insert.
    pub fn set_storage_scheme(&mut self, scheme: StorageScheme)
        ensures
            *final(self) == (FingerprintTableNew { updated_by: scheme, ..*old(self) }),
    {
        self.updated_by = scheme;
    }
}

impl Fingerprint {
    /// The row a new fingerprint becomes; its serial id is unknown (0) until the row
    /// reaches PostgreSQL.
    pub fn from_new(value: FingerprintTableNew) -> (r: Self)
        ensures
            r == (Fingerprint {
                id: 0,
                fingerprint_hash: value.fingerprint_hash,
                fingerprint_id: value.fingerprint_id,
                updated_by: value.updated_by,
            }),
    {
        Fingerprint {
            id: 0,
            fingerprint_hash: value.fingerprint_hash,
            fingerprint_id: value.fingerprint_id,
            updated_by: value.updated_by,
        }
    }
}

#[derive(Debug, Clone, PartialEq, Eq)]
pub struct Entity {
    pub id: i32,
    pub entity_id: String,
    pub enc_key_id: String,
    pub created_at: i128,
}

#[derive(Debug, Clone, PartialEq, Eq)]
pub struct EntityTableNew {
    pub entity_id: String,
    pub enc_key_id: String,
}

/// A card number, kept secret.
#[derive(Debug, Clone, PartialEq, Eq)]
pub struct CardNumber(pub String);

impl CardNumber {
    /// A card number is valid when it passes [`sanitize_card_number`] and its Luhn check.
    pub fn validate(&self) -> (r: Result<(), ApiError>)
        ensures
            match card_number_verdict(self.0@) {
                Ok(true) => r == Ok::<(), ApiError>(()),
                Ok(false) => r == Err::<(), ApiError>(ApiError::ValidationError("card number invalid")),
                Err(e) => r == Err::<(), ApiError>(e),
            },
    {
        match sanitize_card_number(self.0.as_str()) {
            Ok(true) => Ok(()),
            Ok(false) => Err(ApiError::ValidationError("card number invalid")),
            Err(e) => Err(e),
        }
    }

    /// The UTF-8 bytes of the card number.
    pub fn into_bytes(self) -> (r: Vec<u8>)
        ensures
            r@ == vstd::utf8::encode_utf8(self.0@),
    {
        self.0.as_str().as_bytes_vec()
    }
}

} // verus!
