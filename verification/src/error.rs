//! Error types of the library.

use vstd::prelude::*;

verus! {

/// Errors surfaced by the API layer.
#[derive(Debug, Clone, Copy, PartialEq, Eq)]
pub enum ApiError {
    ValidationError(&'static str),
    TenantError(&'static str),
    DecryptingKeysFailed(&'static str),
    BadRequest(&'static str),
    CustodianLocked,
    CustodianUnlocked,
    Unauthorized,
    NotFoundError,
    UnknownError,
    EncodingError,
    DecodingError,
}

} // verus!

verus! {

/// Errors of the KV (write-through Redis) layer.
#[derive(Debug, Clone, PartialEq, Eq)]
pub enum KvError {
    DuplicateValue { key: String },
    ValueNotFound(String),
    Backend,
    SerializationFailed,
}

/// Database errors of the reverse-lookup table.
#[derive(Debug, Clone, Copy, PartialEq, Eq, Structural)]
pub enum ReverseLookupDBError {
    Duplicate,
    NotFoundError,
    UnknownError,
}

/// Database errors of the locker and vault tables.
#[derive(Debug, Clone, Copy, PartialEq, Eq, Structural)]
pub enum VaultDBError {
    Duplicate,
    NotFoundError,
    UnknownError,
}

/// Database errors of the fingerprint table.
#[derive(Debug, Clone, Copy, PartialEq, Eq, Structural)]
pub enum FingerprintDBError {
    Duplicate,
    DBFilterError,
    UnknownError,
}

impl ReverseLookupDBError {
    /// The table error that a KV-layer error stands for.
    pub fn from_kv_error(e: &KvError) -> (r: Self)
        ensures
            r == (match e {
                KvError::DuplicateValue { .. } => ReverseLookupDBError::Duplicate,
                KvError::ValueNotFound(_) => ReverseLookupDBError::NotFoundError,
                KvError::Backend | KvError::SerializationFailed => ReverseLookupDBError::UnknownError,
            }),
    {
        match e {
            KvError::DuplicateValue { .. } => ReverseLookupDBError::Duplicate,
            KvError::ValueNotFound(_) => ReverseLookupDBError::NotFoundError,
            KvError::Backend | KvError::SerializationFailed => ReverseLookupDBError::UnknownError,
        }
    }
}

impl VaultDBError {
    /// The table error that a KV-layer error stands for.
    pub fn from_kv_error(e: &KvError) -> (r: Self)
        ensures
            r == (match e {
                KvError::DuplicateValue { .. } => VaultDBError::Duplicate,
                KvError::ValueNotFound(_) => VaultDBError::NotFoundError,
                KvError::Backend | KvError::SerializationFailed => VaultDBError::UnknownError,
            }),
    {
        match e {
            KvError::DuplicateValue { .. } => VaultDBError::Duplicate,
            KvError::ValueNotFound(_) => VaultDBError::NotFoundError,
            KvError::Backend | KvError::SerializationFailed => VaultDBError::UnknownError,
        }
    }
}

impl FingerprintDBError {
    /// The table error that a KV-layer error stands for.
    pub fn from_kv_error(e: &KvError) -> (r: Self)
        ensures
            r == (match e {
                KvError::DuplicateValue { .. } => FingerprintDBError::Duplicate,
                KvError::ValueNotFound(_) => FingerprintDBError::DBFilterError,
                KvError::Backend | KvError::SerializationFailed => FingerprintDBError::UnknownError,
            }),
    {
        match e {
            KvError::DuplicateValue { .. } => FingerprintDBError::Duplicate,
            KvError::ValueNotFound(_) => FingerprintDBError::DBFilterError,
            KvError::Backend | KvError::SerializationFailed => FingerprintDBError::UnknownError,
        }
    }
}

} // verus!

verus! {

/// Errors of the runtime-configuration service.
#[derive(Debug, Clone, PartialEq, Eq)]
pub enum RuntimeConfigError {
    InvalidValue(String),
    InvalidStateTransition(String),
    NoReplicaConfigured,
    ReplicaUnreachable,
}

/// Errors of the storage layer's setup and connections.
#[derive(Debug, Clone, Copy, PartialEq, Eq)]
pub enum StorageError {
    InitializationError(&'static str),
    ReplicaPoolNotConfigured,
    PoolClientFailure,
    DBPoolError,
}

/// Errors of the database self-test, by the stage that failed.
#[derive(Debug, Clone, Copy, PartialEq, Eq, Structural)]
pub enum TestDBError {
    DBConnectError,
    DBReadError,
    DBWriteError,
    DBDeleteError,
    UnknownError,
}

} // verus!
