//! Store, retrieve and delete vault data.

pub mod types;

use vstd::prelude::*;

use crate::error::ApiError;

verus! {

/// Whether vault data with expiry `expires_at` has expired at time `now` (both UTC
/// nanoseconds since the Unix epoch): it has when `now` is past the expiry.
pub fn vault_data_expired(expires_at: Option<i128>, now: i128) -> (r: bool)
    ensures
        r == (expires_at matches Some(t) && now > t),
{
    match expires_at {
        Some(t) => now > t,
        None => false,
    }
}

/// The answer to a vault read at time `now`: expired data is reported as not found (and
/// is deleted by the caller); otherwise the decrypted bytes, or an unknown error when
/// the data could not be decrypted.
pub fn retrieved_data(expires_at: Option<i128>, now: i128, decrypted: Option<Vec<u8>>) -> (r: Result<
    Vec<u8>,
    ApiError,
>)
    ensures
        (expires_at matches Some(t) && now > t) ==> r == Err::<Vec<u8>, ApiError>(
            ApiError::NotFoundError,
        ),
        !(expires_at matches Some(t) && now > t) ==> r == (match decrypted {
            Some(d) => Ok::<Vec<u8>, ApiError>(d),
            None => Err(ApiError::UnknownError),
        }),
{
    if vault_data_expired(expires_at, now) {
        return Err(ApiError::NotFoundError);
    }
    match decrypted {
        Some(d) => Ok(d),
        None => Err(ApiError::UnknownError),
    }
}

} // verus!
