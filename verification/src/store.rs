//! The token store: a key-value session index holding two families of
//! entries — access-token id to (user, refresh id) and refresh-token id to
//! (user, access id) — each entry expiring at its token's lifetime. This
//! in-memory store realizes the save/resolve/revoke capability exactly;
//! a networked store satisfying the same contracts can stand in for it.
//!
//! An entry whose expiry has passed counts as absent: resolution checks
//! the recorded expiry on every read, so an entry that has not yet been
//! evicted still fails to resolve.

use std::collections::HashMap;
use vstd::prelude::*;
use crate::fault::Fault;
use crate::token::TokenPair;

verus! {

broadcast use vstd::std_specs::hash::group_hash_axioms;

/// One stored session entry: the owning user and the sibling token of the
/// pair, together with the entry's absolute expiry. Storing the sibling's
/// id lets either half of a pair locate and tear down the other half.
#[derive(Clone, Copy, Debug, PartialEq, Eq, Structural)]
pub struct StoreEntry {
    /// The user the token pair belongs to.
    pub user: u128,
    /// The id of the other token of the same pair.
    pub sibling: u128,
    /// Absolute expiry of this entry, in milliseconds.
    pub expires_at: i64,
}

/// Whether a stored entry is still live at `now_ms` (its expiry has not passed).
pub open spec fn entry_live(e: StoreEntry, now_ms: i64) -> bool {
    !(e.expires_at < now_ms)
}

/// Whether looking `id` up in index `m` at time `now_ms` hits a live entry.
pub open spec fn token_hit(m: Map<u128, StoreEntry>, id: u128, now_ms: i64) -> bool {
    m.contains_key(id) && entry_live(m[id], now_ms)
}

/// The access-side entry written for a pair: owner, refresh sibling, and
/// the access token's expiry.
pub open spec fn access_entry_of(pair: TokenPair) -> StoreEntry {
    StoreEntry {
        user: pair.user,
        sibling: pair.refresh_token.token,
        expires_at: pair.access_token.expires_at,
    }
}

/// The refresh-side entry written for a pair: owner, access sibling, and
/// the refresh token's expiry.
pub open spec fn refresh_entry_of(pair: TokenPair) -> StoreEntry {
    StoreEntry {
        user: pair.user,
        sibling: pair.access_token.token,
        expires_at: pair.refresh_token.expires_at,
    }
}

/// The in-memory token store: the authoritative session state, with one
/// index per key family.
pub struct TokenStore {
    access: HashMap<u128, StoreEntry>,
    refresh: HashMap<u128, StoreEntry>,
}

impl TokenStore {
    /// The access index: access-token id to its session entry.
    pub closed spec fn access_index(self) -> Map<u128, StoreEntry> {
        self.access@
    }

    /// The refresh index: refresh-token id to its session entry.
    pub closed spec fn refresh_index(self) -> Map<u128, StoreEntry> {
        self.refresh@
    }

    /// An empty store: no session is active.
    pub fn new() -> (store: TokenStore)
        ensures
            store.access_index() == Map::<u128, StoreEntry>::empty(),
            store.refresh_index() == Map::<u128, StoreEntry>::empty(),
    {
        TokenStore { access: HashMap::new(), refresh: HashMap::new() }
    }

    /// Writes both halves of a pair, each with its own expiry. Both entries
    /// become visible together; an existing entry under either id is
    /// superseded.
    pub fn save_token_pair_for_user(&mut self, pair: &TokenPair) -> (r: Result<(), Fault>)
        ensures
            r == Ok::<(), Fault>(()),
            final(self).access_index() == old(self).access_index().insert(
                pair.access_token.token,
                access_entry_of(*pair),
            ),
            final(self).refresh_index() == old(self).refresh_index().insert(
                pair.refresh_token.token,
                refresh_entry_of(*pair),
            ),
    {
        let access_entry = StoreEntry {
            user: pair.user,
            sibling: pair.refresh_token.token,
            expires_at: pair.access_token.expires_at,
        };
        let refresh_entry = StoreEntry {
            user: pair.user,
            sibling: pair.access_token.token,
            expires_at: pair.refresh_token.expires_at,
        };
        self.access.insert(pair.access_token.token, access_entry);
        self.refresh.insert(pair.refresh_token.token, refresh_entry);
        Ok(())
    }

    /// Resolves an access token to its owning user. A missing or expired
    /// entry yields `NotLoggedIn`; a live entry yields its user, exactly.
    pub fn get_user_for_access_token(&self, access_token: u128, now_ms: i64) -> (r: Result<
        u128,
        Fault,
    >)
        ensures
            token_hit(self.access_index(), access_token, now_ms) ==> r == Ok::<u128, Fault>(
                self.access_index()[access_token].user,
            ),
            !token_hit(self.access_index(), access_token, now_ms) ==> r == Err::<u128, Fault>(
                Fault::NotLoggedIn,
            ),
    {
        match self.access.get(&access_token) {
            Some(e) => {
                if e.expires_at < now_ms {
                    Err(Fault::NotLoggedIn)
                } else {
                    Ok(e.user)
                }
            },
            None => Err(Fault::NotLoggedIn),
        }
    }

    /// Resolves a refresh token to its owning user without consuming it.
    pub fn get_user_from_refresh_token(&self, refresh_token: u128, now_ms: i64) -> (r: Result<
        u128,
        Fault,
    >)
        ensures
            token_hit(self.refresh_index(), refresh_token, now_ms) ==> r == Ok::<u128, Fault>(
                self.refresh_index()[refresh_token].user,
            ),
            !token_hit(self.refresh_index(), refresh_token, now_ms) ==> r == Err::<u128, Fault>(
                Fault::NotLoggedIn,
            ),
    {
        match self.refresh.get(&refresh_token) {
            Some(e) => {
                if e.expires_at < now_ms {
                    Err(Fault::NotLoggedIn)
                } else {
                    Ok(e.user)
                }
            },
            None => Err(Fault::NotLoggedIn),
        }
    }

    /// Deletes the access-side entry only, leaving the refresh side alone
    /// (used during rotation, after the refresh entry has been consumed).
    pub fn clear_token(&mut self, access_token: u128) -> (r: Result<(), Fault>)
        ensures
            r == Ok::<(), Fault>(()),
            final(self).access_index() == old(self).access_index().remove(access_token),
            final(self).refresh_index() == old(self).refresh_index(),
    {
        self.access.remove(&access_token);
        Ok(())
    }

    /// Atomically consumes a refresh token: the entry is removed whether or
    /// not it was live, and only a live entry yields its user and sibling
    /// access id. Once consumed, the same refresh id cannot resolve again.
    pub fn invalidate_refresh_token_and_get_result(
        &mut self,
        refresh_token: u128,
        now_ms: i64,
    ) -> (r: Result<(u128, u128), Fault>)
        ensures
            final(self).refresh_index() == old(self).refresh_index().remove(refresh_token),
            final(self).access_index() == old(self).access_index(),
            token_hit(old(self).refresh_index(), refresh_token, now_ms) ==> r == Ok::<
                (u128, u128),
                Fault,
            >(
                (
                    old(self).refresh_index()[refresh_token].user,
                    old(self).refresh_index()[refresh_token].sibling,
                ),
            ),
            !token_hit(old(self).refresh_index(), refresh_token, now_ms) ==> r == Err::<
                (u128, u128),
                Fault,
            >(Fault::NotLoggedIn),
    {
        match self.refresh.remove(&refresh_token) {
            Some(e) => {
                if e.expires_at < now_ms {
                    Err(Fault::NotLoggedIn)
                } else {
                    Ok((e.user, e.sibling))
                }
            },
            None => Err(Fault::NotLoggedIn),
        }
    }

    /// Tears down a whole session from its access side: consumes the
    /// access entry and, if it was live, deletes the paired refresh entry
    /// too. A missing or expired access entry yields `NotLoggedIn`.
    pub fn invalidate_session_by_access_token(&mut self, access_token: u128, now_ms: i64) -> (r:
        Result<(), Fault>)
        ensures
            final(self).access_index() == old(self).access_index().remove(access_token),
            token_hit(old(self).access_index(), access_token, now_ms) ==> r == Ok::<(), Fault>(())
                && final(self).refresh_index() == old(self).refresh_index().remove(
                old(self).access_index()[access_token].sibling,
            ),
            !token_hit(old(self).access_index(), access_token, now_ms) ==> r == Err::<(), Fault>(
                Fault::NotLoggedIn,
            ) && final(self).refresh_index() == old(self).refresh_index(),
    {
        match self.access.remove(&access_token) {
            Some(e) => {
                if e.expires_at < now_ms {
                    Err(Fault::NotLoggedIn)
                } else {
                    self.refresh.remove(&e.sibling);
                    Ok(())
                }
            },
            None => Err(Fault::NotLoggedIn),
        }
    }
}

/// Refresh tokens are single-use: once an id has been consumed, a later
/// resolution of the same id misses, at whatever time it is attempted.
pub proof fn lemma_refresh_single_use(
    m: Map<u128, StoreEntry>,
    refresh_token: u128,
    later_ms: i64,
)
    ensures
        !token_hit(m.remove(refresh_token), refresh_token, later_ms),
{
}

/// Logout revokes both halves: after a session is torn down from its
/// access side, neither the access id nor the paired refresh id hits.
pub proof fn lemma_logout_revokes_both(
    access: Map<u128, StoreEntry>,
    refresh: Map<u128, StoreEntry>,
    access_token: u128,
    now_ms: i64,
    later_ms: i64,
)
    requires
        token_hit(access, access_token, now_ms),
    ensures
        !token_hit(access.remove(access_token), access_token, later_ms),
        !token_hit(
            refresh.remove(access[access_token].sibling),
            access[access_token].sibling,
            later_ms,
        ),
{
}

/// A freshly saved pair resolves: while neither token's expiry has passed,
/// the access id and the refresh id both hit, both entries name the pair's
/// user, and each entry names the other token as its sibling.
pub proof fn lemma_saved_pair_resolves(
    access: Map<u128, StoreEntry>,
    refresh: Map<u128, StoreEntry>,
    pair: TokenPair,
    now_ms: i64,
)
    requires
        now_ms <= pair.access_token.expires_at,
        now_ms <= pair.refresh_token.expires_at,
    ensures
        token_hit(
            access.insert(pair.access_token.token, access_entry_of(pair)),
            pair.access_token.token,
            now_ms,
        ),
        access.insert(pair.access_token.token, access_entry_of(pair))[pair.access_token.token].user
            == pair.user,
        token_hit(
            refresh.insert(pair.refresh_token.token, refresh_entry_of(pair)),
            pair.refresh_token.token,
            now_ms,
        ),
        refresh.insert(
            pair.refresh_token.token,
            refresh_entry_of(pair),
        )[pair.refresh_token.token].user == pair.user,
        refresh.insert(
            pair.refresh_token.token,
            refresh_entry_of(pair),
        )[pair.refresh_token.token].sibling == pair.access_token.token,
{
}

} // verus!
