//! The fixed values of the service.

use vstd::prelude::*;

pub mod user_type;

verus! {

/// The number of characters of the key that a user's tokens are tied to.
pub const SECRET_KEY_LENGTH: usize = 32;

/// The issuer that every token names.
pub const ISSUER: &'static str = "mid";

/// How long an access token is good for, in seconds.
pub const ACCESS_TOKEN_EXPIRE_SECONDS: i64 = 1800;

/// How long a refresh token is good for, in seconds.
pub const REFRESH_TOKEN_EXPIRE_SECONDS: i64 = 3600 * 24 * 7;

} // verus!
