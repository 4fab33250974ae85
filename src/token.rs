use vstd::prelude::*;

use crate::error::AuthError;

verus! {

/// How long an access token stays usable after it is minted, in milliseconds
/// (thirty minutes).
pub const ACCESS_TOKEN_LIFETIME_MS: i64 = 1_800_000;

/// How long a refresh token stays usable after it is minted, in milliseconds
/// (seven days).
pub const REFRESH_TOKEN_LIFETIME_MS: i64 = 604_800_000;

/// What the token endpoint answered to a successful grant request.
#[derive(Debug, Clone)]
pub struct TokenGrant {
    pub access: String,
    pub refresh: Option<String>,
    pub token_type: String,
}

/// The persisted credential. Expiries are absolute, in milliseconds since
/// the Unix epoch, and are estimated on the client when the token is minted.
#[derive(Debug, Clone, PartialEq, Eq)]
pub struct Token {
    pub access: String,
    pub access_expires_in: i64,
    pub refresh: String,
    pub refresh_expires_in: i64,
    pub type_: String,
}

/// `now + lifetime`, when it fits in a timestamp.
pub open spec fn expiry_after(now: int, lifetime: int) -> Option<int> {
    if now + lifetime <= i64::MAX {
        Some(now + lifetime)
    } else {
        None
    }
}

/// Relies on chrono::Utc::now: the current time, in milliseconds since the
/// Unix epoch. Nothing is known of the value.
#[verifier::external_body]
fn current_time_millis() -> (r: i64) {
    chrono::Utc::now().timestamp_millis()
}

impl Token {
    /// Whether the token minted from `grant` at `now` is well defined:
    /// the grant carries a refresh token and both expiries fit.
    pub open spec fn mintable(grant: TokenGrant, now: int) -> bool {
        grant.refresh is Some && expiry_after(now, REFRESH_TOKEN_LIFETIME_MS as int) is Some
    }

    /// The token minted from `grant` at `now`.
    pub open spec fn minted(self, grant: TokenGrant, now: int) -> bool {
        &&& self.access@ == grant.access@
        &&& self.refresh@ == grant.refresh->Some_0@
        &&& self.type_@ == grant.token_type@
        &&& self.access_expires_in == now + ACCESS_TOKEN_LIFETIME_MS
        &&& self.refresh_expires_in == now + REFRESH_TOKEN_LIFETIME_MS
    }

    /// Builds the token for a first grant received at `now`: both expiries
    /// are `now` plus the fixed lifetimes.
    pub fn mint(grant: TokenGrant, now: i64) -> (r: Result<Token, AuthError>)
        ensures
            r is Ok <==> Token::mintable(grant, now as int),
            r matches Ok(t) ==> t.minted(grant, now as int),
            grant.refresh is None ==> r matches Err(AuthError::MissingRefreshToken),
            grant.refresh is Some && !Token::mintable(grant, now as int) ==> r matches Err(
                AuthError::TimestampOverflow,
            ),
    {
        match grant.refresh {
            None => Err(AuthError::MissingRefreshToken),
            Some(refresh) => {
                if now > i64::MAX - REFRESH_TOKEN_LIFETIME_MS {
                    Err(AuthError::TimestampOverflow)
                } else {
                    Ok(Token {
                        access: grant.access,
                        access_expires_in: now + ACCESS_TOKEN_LIFETIME_MS,
                        refresh,
                        refresh_expires_in: now + REFRESH_TOKEN_LIFETIME_MS,
                        type_: grant.token_type,
                    })
                }
            },
        }
    }

    /// Builds the token for a first grant, stamped with the current time.
    /// Whatever the clock reads, the access token expires exactly one
    /// access lifetime after it was minted and the refresh token one
    /// refresh lifetime after.
    pub fn mint_now(grant: TokenGrant) -> (r: Result<Token, AuthError>)
        ensures
            grant.refresh is None ==> r matches Err(AuthError::MissingRefreshToken),
            grant.refresh is Some ==> (r is Ok || r matches Err(AuthError::TimestampOverflow)),
            r matches Ok(t) ==> t.minted(grant, t.access_expires_in - ACCESS_TOKEN_LIFETIME_MS),
    {
        let now = current_time_millis();
        Token::mint(grant, now)
    }

    /// The token after a refresh grant received at `now`: a new access token
    /// and access expiry; the refresh token and its expiry are kept.
    pub fn refreshed(&self, grant: TokenGrant, now: i64) -> (r: Result<Token, AuthError>)
        ensures
            r is Ok <==> expiry_after(now as int, ACCESS_TOKEN_LIFETIME_MS as int) is Some,
            r is Err ==> r matches Err(AuthError::TimestampOverflow),
            r matches Ok(t) ==> {
                &&& t.access@ == grant.access@
                &&& t.type_@ == grant.token_type@
                &&& t.access_expires_in == now + ACCESS_TOKEN_LIFETIME_MS
                &&& t.refresh@ == self.refresh@
                &&& t.refresh_expires_in == self.refresh_expires_in
            },
    {
        if now > i64::MAX - ACCESS_TOKEN_LIFETIME_MS {
            Err(AuthError::TimestampOverflow)
        } else {
            Ok(Token {
                access: grant.access,
                access_expires_in: now + ACCESS_TOKEN_LIFETIME_MS,
                refresh: self.refresh.clone(),
                refresh_expires_in: self.refresh_expires_in,
                type_: grant.token_type,
            })
        }
    }

    /// Whether the access token may still be used at `now`.
    pub fn access_valid_at(&self, now: i64) -> (r: bool)
        ensures
            r == (now < self.access_expires_in),
    {
        now < self.access_expires_in
    }

    /// Whether the refresh token may still be used at `now`.
    pub fn refresh_valid_at(&self, now: i64) -> (r: bool)
        ensures
            r == (now < self.refresh_expires_in),
    {
        now < self.refresh_expires_in
    }
}

} // verus!
