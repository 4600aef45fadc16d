//! Claims of the tokens that administrators sign in with.
use vstd::prelude::*;

verus! {

/// How long a token stays valid, in seconds.
pub const TOKEN_LIFETIME_SECS: usize = 8 * 60 * 60;

/// Subject, expiry and issue time (seconds since the Unix epoch).
pub struct Claims {
    pub sub: String,
    pub exp: usize,
    pub iat: usize,
}

/// Relies on std's SystemTime::now and duration_since: seconds since the Unix
/// epoch, zero for a clock set before it.
#[verifier::external_body]
fn unix_time_secs() -> usize {
    std::time::SystemTime::now().duration_since(std::time::UNIX_EPOCH).unwrap_or_default().as_secs() as usize
}

impl Claims {
    /// Claims for `username` issued at `now`, expiring one token lifetime
    /// later (at the end of time where that does not fit).
    pub fn issued_at(username: String, now: usize) -> (r: Claims)
        ensures
            r.sub == username,
            r.iat == now,
            r.exp == (if now + TOKEN_LIFETIME_SECS <= usize::MAX {
                now + TOKEN_LIFETIME_SECS
            } else {
                usize::MAX as int
            }),
    {
        Claims { sub: username, iat: now, exp: now.saturating_add(TOKEN_LIFETIME_SECS) }
    }

    /// Claims for `username` issued now.
    pub fn new(username: String) -> (r: Claims)
        ensures
            r.sub == username,
            r.exp == (if r.iat + TOKEN_LIFETIME_SECS <= usize::MAX {
                r.iat + TOKEN_LIFETIME_SECS
            } else {
                usize::MAX as int
            }),
    {
        let now = unix_time_secs();
        Claims::issued_at(username, now)
    }
}

} // verus!
