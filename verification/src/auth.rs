//! The pure decisions of the login path: whether supplied credentials match
//! the configured administrator, and what claims a session token carries.
//! Key handling, token signing and verification stay with the caller.

use vstd::prelude::*;

verus! {

/// How long an issued token stays valid, in seconds.
pub const TOKEN_VALIDITY_SECS: usize = 24 * 60 * 60;

/// The configured administrator account and signing secret.
pub struct AuthConfig {
    pub jwt_secret: String,
    pub admin_username: String,
    pub admin_password: String,
}

/// A login attempt.
pub struct LoginRequest {
    pub username: String,
    pub password: String,
}

/// The claims carried by a session token.
pub struct Claims {
    pub sub: String,
    pub exp: usize,
    pub iat: usize,
}

/// A login succeeds exactly when both the username and the password equal
/// the configured administrator credentials.
pub fn credentials_valid(config: &AuthConfig, request: &LoginRequest) -> (r: bool)
    ensures
        r == (request.username@ == config.admin_username@ && request.password@
            == config.admin_password@),
{
    request.username == config.admin_username && request.password == config.admin_password
}

/// The claims of a token issued at `now`: the subject is the user it was
/// issued to, and it expires one validity window later.
pub fn make_claims(username: String, now: usize) -> (r: Claims)
    requires
        now + TOKEN_VALIDITY_SECS <= usize::MAX,
    ensures
        r.sub@ == username@,
        r.iat == now,
        r.exp == now + TOKEN_VALIDITY_SECS,
{
    Claims { sub: username, exp: now + TOKEN_VALIDITY_SECS, iat: now }
}

} // verus!
