//! Access-token claims: who the token is for, the role, and its lifetime.
use vstd::prelude::*;
use vstd::string::*;
use crate::ids::{uuid_text, uuid_text_of};
use crate::utils::response::AppError;

verus! {

/// The claims carried by an access token.
#[derive(Clone, Debug, PartialEq, Eq)]
pub struct Claims {
    /// The user's identifier, as hyphenated UUID text.
    pub sub: String,
    pub role: String,
    /// Issued at, in seconds since the epoch.
    pub iat: usize,
    /// Expires at, in seconds since the epoch.
    pub exp: usize,
}

/// The claims of a token issued at `now` (seconds since the epoch) that lives
/// `ttl_secs` seconds: issued at `now`, expiring at `now + ttl_secs`.
pub fn build_claims(user_id: u128, role: &str, now: i64, ttl_secs: i64) -> (r: Claims)
    requires
        i64::MIN <= now + ttl_secs <= i64::MAX,
    ensures
        r.sub@ == uuid_text_of(user_id),
        r.role@ == role@,
        r.iat == now as usize,
        r.exp == (now + ttl_secs) as usize,
{
    let exp = now + ttl_secs;
    Claims {
        sub: uuid_text(user_id),
        role: String::from_str(role),
        iat: now as usize,
        exp: exp as usize,
    }
}

/// The error for a token that could not be encoded: "jwt encode: <reason>".
pub fn encode_failure(reason: String) -> (r: AppError)
    ensures
        r matches AppError::Internal(m) && m@ == "jwt encode: "@ + reason@,
{
    let mut m = String::from_str("jwt encode: ");
    m.append(reason.as_str());
    AppError::Internal(m)
}

/// The error for a token that does not verify, one and the same whatever the
/// reason (tampered, expired, signed with another secret, not a token): the
/// caller is unauthorized.
pub fn verify_failure() -> (r: AppError)
    ensures
        r matches AppError::Unauthorized(m) && m@ == "invalid or expired token"@,
{
    AppError::Unauthorized(String::from_str("invalid or expired token"))
}

} // verus!
