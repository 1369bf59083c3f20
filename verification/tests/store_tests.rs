use rust_auth::fault::Fault;
use rust_auth::store::TokenStore;
use rust_auth::token::TokenPair;

const NOW: i64 = 1_000;

fn store_with(pair: &TokenPair) -> TokenStore {
    let mut store = TokenStore::new();
    store.save_token_pair_for_user(pair).unwrap();
    store
}

#[test]
fn saved_pair_resolves_to_the_same_user_from_both_sides() {
    let pair = TokenPair::new_at(77, NOW);
    let mut store = store_with(&pair);
    assert_eq!(
        store.get_user_for_access_token(pair.access_token.token, NOW),
        Ok(77)
    );
    assert_eq!(
        store.get_user_from_refresh_token(pair.refresh_token.token, NOW),
        Ok(77)
    );
    assert_eq!(
        store.invalidate_refresh_token_and_get_result(pair.refresh_token.token, NOW),
        Ok((77, pair.access_token.token))
    );
}

#[test]
fn unknown_token_fails_resolution() {
    let store = TokenStore::new();
    assert_eq!(
        store.get_user_for_access_token(123, NOW),
        Err(Fault::NotLoggedIn)
    );
    assert_eq!(
        store.get_user_from_refresh_token(123, NOW),
        Err(Fault::NotLoggedIn)
    );
}

#[test]
fn expired_entry_fails_resolution_even_though_still_stored() {
    let pair = TokenPair::new_at(8, 0);
    let store = store_with(&pair);
    let after_expiry = pair.access_token.expires_at + 1;
    assert_eq!(
        store.get_user_for_access_token(pair.access_token.token, after_expiry),
        Err(Fault::NotLoggedIn)
    );
    let after_refresh_expiry = pair.refresh_token.expires_at + 1;
    assert_eq!(
        store.get_user_from_refresh_token(pair.refresh_token.token, after_refresh_expiry),
        Err(Fault::NotLoggedIn)
    );
}

#[test]
fn refresh_token_is_single_use() {
    let pair = TokenPair::new_at(5, NOW);
    let mut store = store_with(&pair);
    let first = store.invalidate_refresh_token_and_get_result(pair.refresh_token.token, NOW);
    let second = store.invalidate_refresh_token_and_get_result(pair.refresh_token.token, NOW);
    assert_eq!(first, Ok((5, pair.access_token.token)));
    assert_eq!(second, Err(Fault::NotLoggedIn));
}

#[test]
fn logout_revokes_both_halves() {
    let pair = TokenPair::new_at(6, NOW);
    let mut store = store_with(&pair);
    assert_eq!(
        store.invalidate_session_by_access_token(pair.access_token.token, NOW),
        Ok(())
    );
    assert_eq!(
        store.get_user_for_access_token(pair.access_token.token, NOW),
        Err(Fault::NotLoggedIn)
    );
    assert_eq!(
        store.invalidate_refresh_token_and_get_result(pair.refresh_token.token, NOW),
        Err(Fault::NotLoggedIn)
    );
}

#[test]
fn logout_with_unknown_access_token_misses() {
    let mut store = TokenStore::new();
    assert_eq!(
        store.invalidate_session_by_access_token(9, NOW),
        Err(Fault::NotLoggedIn)
    );
}

#[test]
fn clear_token_removes_only_the_access_side() {
    let pair = TokenPair::new_at(4, NOW);
    let mut store = store_with(&pair);
    store.clear_token(pair.access_token.token).unwrap();
    assert_eq!(
        store.get_user_for_access_token(pair.access_token.token, NOW),
        Err(Fault::NotLoggedIn)
    );
    assert_eq!(
        store.get_user_from_refresh_token(pair.refresh_token.token, NOW),
        Ok(4)
    );
}

#[test]
fn saving_a_new_pair_supersedes_nothing_else() {
    let first = TokenPair::new_at(1, NOW);
    let second = TokenPair::new_at(2, NOW);
    let mut store = store_with(&first);
    store.save_token_pair_for_user(&second).unwrap();
    assert_eq!(
        store.get_user_for_access_token(first.access_token.token, NOW),
        Ok(1)
    );
    assert_eq!(
        store.get_user_for_access_token(second.access_token.token, NOW),
        Ok(2)
    );
}
