//! Accounts and the claims of a session token.

use vstd::prelude::*;

verus! {

/// An account. `created_at` is in milliseconds since the Unix epoch.
pub struct User {
    pub id: u128,
    pub username: String,
    pub password_hash: String,
    pub created_at: i64,
}

/// What a session token asserts: whom it was issued to, when, and until
/// when. Instants are seconds since the Unix epoch.
pub struct Claims {
    pub sub: String,
    pub exp: usize,
    pub iat: usize,
}

/// Seconds a session token stays valid.
pub const TOKEN_LIFETIME_SECONDS: usize = 86_400;

impl Claims {
    /// The claims of a token issued to `subject` at `now`, valid for a day.
    /// Nothing is issued where the expiry cannot be represented.
    pub fn issue(subject: String, now: usize) -> (claims: Option<Claims>)
        ensures
            match claims {
                Some(issued) => issued.sub@ == subject@ && issued.iat == now && issued.exp == now
                    + TOKEN_LIFETIME_SECONDS,
                None => now + TOKEN_LIFETIME_SECONDS > usize::MAX,
            },
    {
        if now > usize::MAX - TOKEN_LIFETIME_SECONDS {
            None
        } else {
            Some(Claims { sub: subject, exp: now + TOKEN_LIFETIME_SECONDS, iat: now })
        }
    }
}

} // verus!
