//! Verified core of the card vault: card-number validation, the KV (write-through
//! Redis) routing decisions, Redis key derivation, runtime-config rules and the
//! storage models.

pub mod crypto;
pub mod error;
pub mod tenant;
pub mod text;
pub mod validations;
pub mod routes;
pub mod runtime_config;
pub mod storage;
