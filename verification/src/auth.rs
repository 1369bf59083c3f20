//! The session flows: login issues a token pair and writes it to the
//! store; refresh consumes a refresh token (one-shot, never rolled back)
//! and rotates in a brand-new pair; logout tears a session down from its
//! access side.

use vstd::prelude::*;
use crate::fault::Fault;
use crate::guard::{authorization_token_of, get_authorization_as_uuid, opt_str_view};
use crate::store::{
    StoreEntry, TokenStore, access_entry_of, lemma_saved_pair_resolves, refresh_entry_of,
    token_hit,
};
use crate::token::{
    ACCESS_TOKEN_LIFETIME_SECS, REFRESH_TOKEN_LIFETIME_SECS, TokenPair, expiry_of,
};
use crate::user::{User, UserDirectory, UserV, bcrypt_verify_of, find_by_name_spec};

verus! {

/// Whether a login attempt is accepted, and for which user: the named
/// record must exist, must not be blocked, and the password must verify
/// against its stored hash. An unknown username is rejected exactly like
/// a wrong password, so that the response does not reveal which of the
/// two failed.
pub open spec fn login_outcome(
    users: Seq<UserV>,
    username: Seq<char>,
    password: Seq<char>,
) -> Result<u128, Fault> {
    match find_by_name_spec(users, username) {
        None => Err(Fault::Unallowed),
        Some(u) => match credential_check(u, password) {
            Ok(accepted) => Ok(u.user_id),
            Err(f) => Err(f),
        },
    }
}

/// The credential decision for a loaded record: a blocked account is
/// rejected as blocked before the password is even checked; then exactly
/// the passwords the stored hash verifies are accepted.
pub open spec fn credential_check(u: UserV, password: Seq<char>) -> Result<(), Fault> {
    if u.blocked == Some(true) {
        Err(Fault::UserBlocked)
    } else if bcrypt_verify_of(password, u.password) == Some(true) {
        Ok(())
    } else {
        Err(Fault::Unallowed)
    }
}

/// Decides whether a password logs a loaded user record in, exactly as
/// `credential_check` says.
pub fn check_credentials(user: &User, password: &str) -> (r: Result<(), Fault>)
    ensures
        r == credential_check(user@, password@),
{
    match user.blocked {
        Some(true) => {
            return Err(Fault::UserBlocked);
        },
        _ => {},
    }
    user.verify_password(password)
}

/// Authenticates a user and issues a fresh token pair, writing both
/// halves to the store. Exactly the attempts `login_outcome` accepts
/// succeed; on any rejection the store is left untouched.
pub fn login_user(
    dir: &UserDirectory,
    store: &mut TokenStore,
    username: &String,
    password: &str,
    now_ms: i64,
) -> (r: Result<TokenPair, Fault>)
    ensures
        login_outcome(dir.records(), username@, password@) is Ok ==> r is Ok,
        r matches Err(f) ==> login_outcome(dir.records(), username@, password@) == Err::<
            u128,
            Fault,
        >(f) && final(store).access_index() == old(store).access_index() && final(store).refresh_index() == old(store).refresh_index(),
        r matches Ok(pair) ==> login_outcome(dir.records(), username@, password@) == Ok::<
            u128,
            Fault,
        >(pair.user) && pair.wf() && pair.access_token.expires_at == expiry_of(
            now_ms as int,
            ACCESS_TOKEN_LIFETIME_SECS as int,
        ) && pair.refresh_token.expires_at == expiry_of(
            now_ms as int,
            REFRESH_TOKEN_LIFETIME_SECS as int,
        ) && final(store).access_index() == old(store).access_index().insert(
            pair.access_token.token,
            access_entry_of(pair),
        ) && final(store).refresh_index() == old(store).refresh_index().insert(
            pair.refresh_token.token,
            refresh_entry_of(pair),
        ),
{
    let user = match dir.q_get_user_by_name(username) {
        Some(u) => u,
        None => {
            return Err(Fault::Unallowed);
        },
    };
    match check_credentials(user, password) {
        Ok(()) => {},
        Err(f) => {
            return Err(f);
        },
    }
    let pair = TokenPair::new_at(user.user_id, now_ms);
    let _ = store.save_token_pair_for_user(&pair);
    Ok(pair)
}

/// Exchanges a live refresh token for a brand-new pair. The refresh entry
/// is consumed first and never restored (one-shot); the sibling access
/// entry is revoked before the new pair is written, so the old access id
/// cannot be used after rotation.
pub fn refresh_user_token(store: &mut TokenStore, refresh_token: u128, now_ms: i64) -> (r: Result<
    TokenPair,
    Fault,
>)
    ensures
        !token_hit(old(store).refresh_index(), refresh_token, now_ms) ==> r == Err::<
            TokenPair,
            Fault,
        >(Fault::NotLoggedIn) && final(store).refresh_index() == old(store).refresh_index().remove(refresh_token) && final(store).access_index() == old(store).access_index(),
        token_hit(old(store).refresh_index(), refresh_token, now_ms) ==> r is Ok,
        r matches Ok(pair) ==> token_hit(old(store).refresh_index(), refresh_token, now_ms)
            && pair.wf() && pair.user == old(store).refresh_index()[refresh_token].user
            && pair.access_token.expires_at == expiry_of(
            now_ms as int,
            ACCESS_TOKEN_LIFETIME_SECS as int,
        ) && pair.refresh_token.expires_at == expiry_of(
            now_ms as int,
            REFRESH_TOKEN_LIFETIME_SECS as int,
        ) && final(store).access_index() == old(store).access_index().remove(
            old(store).refresh_index()[refresh_token].sibling,
        ).insert(pair.access_token.token, access_entry_of(pair)) && final(store).refresh_index()
            == old(store).refresh_index().remove(refresh_token).insert(
            pair.refresh_token.token,
            refresh_entry_of(pair),
        ),
{
    let resolved = match store.invalidate_refresh_token_and_get_result(refresh_token, now_ms) {
        Ok(p) => p,
        Err(f) => {
            return Err(f);
        },
    };
    let (user_id, old_access): (u128, u128) = resolved;
    let _ = store.clear_token(old_access);
    let pair = TokenPair::new_at(user_id, now_ms);
    let _ = store.save_token_pair_for_user(&pair);
    Ok(pair)
}

/// Tears down the caller's session: the bearer token named in the
/// `Authorization` header is resolved and both halves of its pair are
/// deleted. A header that is missing or does not parse counts as an
/// invalid session, as does a missing or expired entry: `NotLoggedIn`.
pub fn logout_user(store: &mut TokenStore, header: Option<&str>, now_ms: i64) -> (r: Result<
    (),
    Fault,
>)
    ensures
        authorization_token_of(opt_str_view(header)) is Err ==> r == Err::<(), Fault>(
            Fault::NotLoggedIn,
        ) && final(store).access_index() == old(store).access_index()
            && final(store).refresh_index() == old(store).refresh_index(),
        authorization_token_of(opt_str_view(header)) matches Ok(tok) ==> final(store).access_index() == old(store).access_index().remove(tok as u128) && (token_hit(
            old(store).access_index(),
            tok as u128,
            now_ms,
        ) ==> r == Ok::<(), Fault>(()) && final(store).refresh_index() == old(store).refresh_index().remove(old(store).access_index()[tok as u128].sibling)) && (!token_hit(
            old(store).access_index(),
            tok as u128,
            now_ms,
        ) ==> r == Err::<(), Fault>(Fault::NotLoggedIn) && final(store).refresh_index() == old(store).refresh_index()),
{
    match get_authorization_as_uuid(header) {
        Err(_) => Err(Fault::NotLoggedIn),
        Ok(token) => store.invalidate_session_by_access_token(token, now_ms),
    }
}

/// For all valid logins the issued pair resolves: the two token ids are
/// distinct and, with the store as login leaves it, each id hits at the
/// issuance time and names the pair's user. The premises are exactly what
/// `login_user` ensures of a successful call.
pub proof fn lemma_login_pair_resolves(
    access: Map<u128, StoreEntry>,
    refresh: Map<u128, StoreEntry>,
    pair: TokenPair,
    now_ms: i64,
)
    requires
        pair.wf(),
        pair.access_token.expires_at == expiry_of(
            now_ms as int,
            ACCESS_TOKEN_LIFETIME_SECS as int,
        ),
        pair.refresh_token.expires_at == expiry_of(
            now_ms as int,
            REFRESH_TOKEN_LIFETIME_SECS as int,
        ),
    ensures
        pair.access_token.token != pair.refresh_token.token,
        token_hit(
            access.insert(pair.access_token.token, access_entry_of(pair)),
            pair.access_token.token,
            now_ms,
        ),
        access.insert(pair.access_token.token, access_entry_of(pair))[pair.access_token.token].user
            == pair.user,
        token_hit(
            refresh.insert(pair.refresh_token.token, refresh_entry_of(pair)),
            pair.refresh_token.token,
            now_ms,
        ),
        refresh.insert(
            pair.refresh_token.token,
            refresh_entry_of(pair),
        )[pair.refresh_token.token].user == pair.user,
{
    lemma_saved_pair_resolves(access, refresh, pair, now_ms);
}

} // verus!
