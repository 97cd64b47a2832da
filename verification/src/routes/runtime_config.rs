//! Admin endpoint for runtime config updates: the authorization of a request.

use vstd::prelude::*;

use crate::error::ApiError;
use crate::runtime_config::RuntimeConfigManager;

verus! {

/// Header carrying the shared admin secret.
pub const INTERNAL_API_KEY_HEADER: &'static str = "x-internal-api-key";

/// An update is accepted only with the admin key header, for a tenant whose runtime
/// config is enabled, when the header matches the configured admin key.
pub fn authorize_runtime_config_update(
    api_key_header: Option<&str>,
    manager: Option<&RuntimeConfigManager>,
) -> (r: Result<(), ApiError>)
    ensures
        match (api_key_header, manager) {
            (None, _) => r == Err::<(), ApiError>(ApiError::Unauthorized),
            (Some(_), None) => r == Err::<(), ApiError>(
                ApiError::BadRequest("Runtime config is not enabled for this tenant"),
            ),
            (Some(key), Some(m)) => if m.admin_api_key@ == key@ {
                r == Ok::<(), ApiError>(())
            } else {
                r == Err::<(), ApiError>(ApiError::Unauthorized)
            },
        },
{
    let key = match api_key_header {
        Some(key) => key,
        None => return Err(ApiError::Unauthorized),
    };
    let manager = match manager {
        Some(m) => m,
        None => return Err(ApiError::BadRequest("Runtime config is not enabled for this tenant")),
    };
    if !manager.verify_admin_api_key(key) {
        return Err(ApiError::Unauthorized);
    }
    Ok(())
}

} // verus!
