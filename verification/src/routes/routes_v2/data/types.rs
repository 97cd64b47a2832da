//! Models of the vault data API. JSON payloads are carried as their text.

use vstd::prelude::*;

verus! {

#[derive(Debug, Clone, PartialEq, Eq)]
pub struct DeleteDataRequest {
    pub entity_id: String,
    pub vault_id: String,
}

#[derive(Debug, Clone, PartialEq, Eq)]
pub struct DeleteDataResponse {
    pub entity_id: String,
    pub vault_id: String,
}

#[derive(Debug, Clone, PartialEq, Eq)]
pub struct RetrieveDataRequest {
    pub entity_id: String,
    pub vault_id: String,
}

#[derive(Debug, Clone, PartialEq, Eq)]
pub struct RetrieveDataResponse {
    pub data: String,
}

#[derive(Debug, Clone, PartialEq, Eq)]
pub struct StoreDataRequest {
    pub entity_id: String,
    pub vault_id: String,
    pub data: String,
    pub ttl: Option<i128>,
}

#[derive(Debug, Clone, PartialEq, Eq)]
pub struct StoreDataResponse {
    pub entity_id: String,
    pub vault_id: String,
}

} // verus!
