//! Tenant request and response models.

use vstd::prelude::*;

verus! {

#[derive(Debug, Clone, PartialEq, Eq)]
pub struct TenantCreateRequest {
    pub name: String,
    /// base 64 encoded public key for the merchant
    pub public_key: String,
}

#[derive(Debug, Clone, PartialEq, Eq)]
pub struct TenantCreateResponse {
    pub tenant_id: String,
    pub name: String,
    /// base64 encoded public key from locker
    pub public_key: String,
}

#[derive(Debug, Clone, PartialEq, Eq)]
pub struct TenantRetrieveRequest {
    pub tenant_id: String,
}

#[derive(Debug, Clone, PartialEq, Eq)]
pub struct TenentDeleteResponse {
    pub name: String,
}

} // verus!
