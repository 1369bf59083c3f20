//! Tokens and token pairs: opaque random 128-bit identifiers with an
//! absolute expiry and a fixed lifetime. A pair couples an access token
//! (14 days) and a refresh token (31 days) to one user identity and is
//! never mutated after creation; rotation always builds a brand-new pair.

use vstd::prelude::*;
use crate::codec::{hex32, hex32_of};

verus! {

/// Lifetime of an access token, in seconds: 14 days.
pub const ACCESS_TOKEN_LIFETIME_SECS: i64 = 14 * 86400;

/// Lifetime of a refresh token, in seconds: 31 days.
pub const REFRESH_TOKEN_LIFETIME_SECS: i64 = 31 * 86400;

/// The absolute expiry of a token issued at `now_ms` with the given
/// lifetime: issue time plus the lifetime in milliseconds, saturating at
/// the largest representable timestamp.
pub open spec fn expiry_of(now_ms: int, duration_secs: int) -> int {
    if now_ms + duration_secs * 1000 <= i64::MAX {
        now_ms + duration_secs * 1000
    } else {
        i64::MAX as int
    }
}

/// Relies on uuid::Uuid::new_v4 for a fresh random 128-bit identifier;
/// nothing is promised of its value.
#[verifier::external_body]
fn fresh_token_id() -> (id: u128) {
    uuid::Uuid::new_v4().as_u128()
}

/// Relies on chrono::Local::now().timestamp_millis for the current
/// wall-clock time in milliseconds; nothing is promised of its value.
#[verifier::external_body]
fn current_millis() -> (now_ms: i64) {
    chrono::Local::now().timestamp_millis()
}

/// An unforgeable, time-bounded credential. Immutable once created;
/// two tokens are the same credential exactly when their ids are equal.
#[derive(Clone, Copy, Debug)]
pub struct Token {
    /// The opaque 128-bit identifier.
    pub token: u128,
    /// Absolute expiry, in milliseconds.
    pub expires_at: i64,
    /// The lifetime the token was issued with, in seconds (used as the
    /// store's time-to-live).
    pub duration: i64,
}

impl Token {
    /// Builds a token from an identifier, an issue time and a lifetime.
    pub fn from_parts(id: u128, now_ms: i64, duration_secs: i64) -> (t: Token)
        requires
            0 <= duration_secs,
            duration_secs <= i64::MAX / 1000,
        ensures
            t.token == id,
            t.duration == duration_secs,
            t.expires_at == expiry_of(now_ms as int, duration_secs as int),
    {
        proof {
            assert(duration_secs * 1000 <= (i64::MAX / 1000) * 1000) by (nonlinear_arith)
                requires duration_secs <= i64::MAX / 1000, 0 <= duration_secs;
        }
        let ms: i64 = duration_secs * 1000;
        let expires_at: i64 = match now_ms.checked_add(ms) {
            Some(v) => v,
            None => i64::MAX,
        };
        Token { token: id, expires_at, duration: duration_secs }
    }

    /// Issues a fresh token: a random identifier, expiring `duration_secs`
    /// from now. The identifier and the expiry depend on the random source
    /// and the clock; only the recorded lifetime is pinned down.
    pub fn new(duration_secs: i64) -> (t: Token)
        requires
            0 <= duration_secs,
            duration_secs <= i64::MAX / 1000,
        ensures
            t.duration == duration_secs,
    {
        Token::from_parts(fresh_token_id(), current_millis(), duration_secs)
    }

    /// Exact identifier equality: whether `token` names this credential.
    pub fn matches_id(&self, token: u128) -> (r: bool)
        ensures
            r == (self.token == token),
    {
        self.token == token
    }

    /// Whether the token's expiry has passed at the given time. This is
    /// the local check a caller can make before any store round-trip.
    pub fn expired_at(&self, now_ms: i64) -> (r: bool)
        ensures
            r == (self.expires_at < now_ms),
    {
        self.expires_at < now_ms
    }

    /// Whether the token's expiry has passed on the wall clock. The result
    /// follows `expired_at` applied to the current time, which cannot be
    /// pinned down here; use `expired_at` to reason about a known time.
    pub fn expired(&self) -> bool {
        let now_ms = current_millis();
        self.expired_at(now_ms)
    }
}

/// An access token and a refresh token bound to one user identity: the
/// unit of issuance. Created exactly once per successful login or refresh
/// and destroyed as a whole on logout, rotation, or expiry.
#[derive(Clone, Copy, Debug)]
pub struct TokenPair {
    /// The identity both tokens belong to.
    pub user: u128,
    /// The short(er)-lived credential presented on every request.
    pub access_token: Token,
    /// The longer-lived, single-use credential exchanged for a new pair.
    pub refresh_token: Token,
}

impl TokenPair {
    /// A well-formed pair: distinct token ids, and each token carrying its
    /// fixed lifetime.
    pub open spec fn wf(self) -> bool {
        &&& self.access_token.token != self.refresh_token.token
        &&& self.access_token.duration == ACCESS_TOKEN_LIFETIME_SECS
        &&& self.refresh_token.duration == REFRESH_TOKEN_LIFETIME_SECS
    }

    /// Issues a pair at an explicit time: fresh random identifiers (a
    /// colliding second draw is nudged to keep the ids distinct), with the
    /// access and refresh expiries computed from `now_ms`.
    pub fn new_at(user: u128, now_ms: i64) -> (pair: TokenPair)
        ensures
            pair.wf(),
            pair.user == user,
            pair.access_token.expires_at == expiry_of(now_ms as int, ACCESS_TOKEN_LIFETIME_SECS as int),
            pair.refresh_token.expires_at == expiry_of(now_ms as int, REFRESH_TOKEN_LIFETIME_SECS as int),
    {
        let access = Token::from_parts(fresh_token_id(), now_ms, ACCESS_TOKEN_LIFETIME_SECS);
        let mut refresh_id = fresh_token_id();
        if refresh_id == access.token {
            refresh_id = refresh_id.wrapping_add(1);
        }
        let refresh = Token::from_parts(refresh_id, now_ms, REFRESH_TOKEN_LIFETIME_SECS);
        TokenPair { user, access_token: access, refresh_token: refresh }
    }

    /// Issues a pair bound to `user` at the current wall-clock time.
    pub fn new(user: u128) -> (pair: TokenPair)
        ensures
            pair.wf(),
            pair.user == user,
    {
        TokenPair::new_at(user, current_millis())
    }

    /// The owning user's id in its canonical textual form.
    pub fn get_id_string(&self) -> (s: String)
        ensures
            s@ == hex32_of(self.user),
    {
        hex32(self.user)
    }

    /// The access token's id in its canonical textual form.
    pub fn get_access_token_string(&self) -> (s: String)
        ensures
            s@ == hex32_of(self.access_token.token),
    {
        hex32(self.access_token.token)
    }

    /// The refresh token's id in its canonical textual form.
    pub fn get_refresh_token_string(&self) -> (s: String)
        ensures
            s@ == hex32_of(self.refresh_token.token),
    {
        hex32(self.refresh_token.token)
    }
}

} // verus!
