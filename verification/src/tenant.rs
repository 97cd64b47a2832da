//! Tenant admission checks.

use vstd::prelude::*;

use crate::error::ApiError;
use crate::routes::key_custodian::CustodianKeyState;
use crate::text::str_eq;

verus! {

/// A tenant id is accepted only when it is one of the configured tenants.
pub fn is_known_tenant(known_tenants: &Vec<String>, tenant_id: &str) -> (r: Result<(), ApiError>)
    ensures
        (exists|i: int| 0 <= i < known_tenants@.len() && (#[trigger] known_tenants@[i])@
            == tenant_id@) ==> r == Ok::<(), ApiError>(()),
        !(exists|i: int| 0 <= i < known_tenants@.len() && (#[trigger] known_tenants@[i])@
            == tenant_id@) ==> r == Err::<(), ApiError>(ApiError::TenantError("Invalid x-tenant-id")),
{
    let mut i: usize = 0;
    while i < known_tenants.len()
        invariant
            i <= known_tenants@.len(),
            forall|j: int| 0 <= j < i ==> (#[trigger] known_tenants@[j])@ != tenant_id@,
        decreases known_tenants@.len() - i,
    {
        if str_eq(known_tenants[i].as_str(), tenant_id) {
            return Ok(());
        }
        i = i + 1;
    }
    Err(ApiError::TenantError("Invalid x-tenant-id"))
}

/// The custodian key state of each known tenant at start-up, in the order given: no
/// key half has been received yet.
pub fn initial_key_states(known_tenants: &Vec<String>) -> (r: Vec<(String, CustodianKeyState)>)
    ensures
        r@.len() == known_tenants@.len(),
        forall|i: int|
            0 <= i < r@.len() ==> (#[trigger] r@[i]).0@ == known_tenants@[i]@ && r@[i].1.key1 is None
                && r@[i].1.key2 is None,
{
    let mut states: Vec<(String, CustodianKeyState)> = Vec::new();
    let mut i: usize = 0;
    while i < known_tenants.len()
        invariant
            i <= known_tenants@.len(),
            states@.len() == i,
            forall|j: int|
                0 <= j < i ==> (#[trigger] states@[j]).0@ == known_tenants@[j]@
                    && states@[j].1.key1 is None && states@[j].1.key2 is None,
        decreases known_tenants@.len() - i,
    {
        states.push((known_tenants[i].clone(), CustodianKeyState::default()));
        i = i + 1;
    }
    states
}

/// The application state of a tenant; a tenant without one is still locked by the key
/// custodian.
pub fn get_app_state_of_tenant<S>(state: Option<S>) -> (r: Result<S, ApiError>)
    ensures
        match state {
            Some(s) => r == Ok::<S, ApiError>(s),
            None => r == Err::<S, ApiError>(ApiError::CustodianLocked),
        },
{
    match state {
        Some(s) => Ok(s),
        None => Err(ApiError::CustodianLocked),
    }
}

/// Custodian endpoints are refused once the tenant is unlocked (has application state).
pub fn is_custodian_unlocked(has_app_state: bool) -> (r: Result<(), ApiError>)
    ensures
        has_app_state ==> r == Err::<(), ApiError>(ApiError::CustodianUnlocked),
        !has_app_state ==> r == Ok::<(), ApiError>(()),
{
    if has_app_state {
        Err(ApiError::CustodianUnlocked)
    } else {
        Ok(())
    }
}

} // verus!
