//! Constants of the storage layer and the HTTP interface.

use vstd::prelude::*;

verus! {

/// Characters to use for generating NanoID
pub const ALPHABETS: [char; 62] = [
    '0', '1', '2', '3', '4', '5', '6', '7', '8', '9', 'a', 'b', 'c', 'd', 'e', 'f', 'g', 'h', 'i',
    'j', 'k', 'l', 'm', 'n', 'o', 'p', 'q', 'r', 's', 't', 'u', 'v', 'w', 'x', 'y', 'z', 'A', 'B',
    'C', 'D', 'E', 'F', 'G', 'H', 'I', 'J', 'K', 'L', 'M', 'N', 'O', 'P', 'Q', 'R', 'S', 'T', 'U',
    'V', 'W', 'X', 'Y', 'Z',
];

/// Number of characters in a generated ID
pub const ID_LENGTH: usize = 20;

/// Header key for tenant ID
pub const X_TENANT_ID: &'static str = "x-tenant-id";

/// Header key for request ID
pub const X_REQUEST_ID: &'static str = "x-request-id";

/// Header key for caller-supplied fingerprint ID (optional)
pub const X_FINGERPRINT_ID: &'static str = "x-fingerprint-id";

/// Header key a caller uses to request a plain (unencrypted) response
pub const X_RESPONSE_ENCODING: &'static str = "x-response-encoding";

/// `x-response-encoding` value requesting a plain JSON response
pub const RESPONSE_ENCODING_PLAIN: &'static str = "plain";

/// Path suffix shared by `/cards/fingerprint` and `/api/v2/vault/fingerprint`
pub const FINGERPRINT_PATH_SUFFIX: &'static str = "/fingerprint";

/// Key written by the Redis health-check probe
pub const REDIS_HEALTH_CHECK_KEY: &'static str = "health_check_redis";

/// Value written by the Redis health-check probe
pub const REDIS_HEALTH_CHECK_VALUE: &'static str = "1";

/// TTL (seconds) on the probe key so Redis drops it even if the delete is skipped
pub const REDIS_HEALTH_CHECK_EXPIRY: i64 = 5;

/// TTL (seconds) of the cached runtime config in Redis
pub const RUNTIME_CONFIG_REDIS_TTL_SECS: i64 = 300;

} // verus!
