use rust_auth::codec::hex32;
use rust_auth::fault::Fault;
use rust_auth::guard::{admin_guard, get_authorization_as_uuid, logged_in_guard};
use rust_auth::store::TokenStore;
use rust_auth::token::TokenPair;
use rust_auth::user::{User, UserDirectory};

const NOW: i64 = 1_000;

fn user(id: u128, name: &str, admin: Option<bool>, blocked: Option<bool>) -> User {
    User {
        user_id: id,
        username: name.to_string(),
        password: "$2b$04$unused.hash.value.0000000000000000000000000000000000"
            .to_string(),
        admin,
        blocked,
    }
}

fn bearer(token_id: u128) -> String {
    format!("TOKEN {}", hex32(token_id))
}

fn session_for(dir_users: Vec<User>, user_id: u128) -> (TokenStore, UserDirectory, TokenPair) {
    let mut dir = UserDirectory::new();
    for u in dir_users {
        dir.add_user(u);
    }
    let mut store = TokenStore::new();
    let pair = TokenPair::new_at(user_id, NOW);
    store.save_token_pair_for_user(&pair).unwrap();
    (store, dir, pair)
}

#[test]
fn header_parsing_distinguishes_its_failures() {
    assert_eq!(get_authorization_as_uuid(None), Err(Fault::NotLoggedIn));
    assert_eq!(
        get_authorization_as_uuid(Some("no-space-here")),
        Err(Fault::MalformedAuthorization)
    );
    assert_eq!(
        get_authorization_as_uuid(Some("TOKEN not-a-token")),
        Err(Fault::UuidConversion)
    );
    let header = bearer(0xabc);
    assert_eq!(get_authorization_as_uuid(Some(&header)), Ok(0xabc));
}

#[test]
fn header_token_is_the_second_space_separated_chunk() {
    let header = format!("Bearer {} trailing", hex32(9));
    assert_eq!(get_authorization_as_uuid(Some(&header)), Ok(9));
}

#[test]
fn guard_admits_a_valid_non_blocked_user() {
    let (store, dir, pair) = session_for(vec![user(1, "alice", None, None)], 1);
    let header = bearer(pair.access_token.token);
    let admitted = logged_in_guard(&store, &dir, Some(&header), NOW).unwrap();
    assert_eq!(admitted.user_id, 1);
    assert_eq!(admitted.username, "alice");
}

#[test]
fn guard_rejects_missing_or_malformed_headers_as_unauthenticated() {
    let (store, dir, _pair) = session_for(vec![user(1, "alice", None, None)], 1);
    assert!(matches!(
        logged_in_guard(&store, &dir, None, NOW),
        Err(Fault::NotLoggedIn)
    ));
    assert!(matches!(
        logged_in_guard(&store, &dir, Some("garbage"), NOW),
        Err(Fault::NotLoggedIn)
    ));
}

#[test]
fn guard_rejects_unknown_and_expired_tokens() {
    let (store, dir, pair) = session_for(vec![user(1, "alice", None, None)], 1);
    let wrong = bearer(pair.access_token.token.wrapping_add(1));
    assert!(matches!(
        logged_in_guard(&store, &dir, Some(&wrong), NOW),
        Err(Fault::NotLoggedIn)
    ));
    let header = bearer(pair.access_token.token);
    let after_expiry = pair.access_token.expires_at + 1;
    assert!(matches!(
        logged_in_guard(&store, &dir, Some(&header), after_expiry),
        Err(Fault::NotLoggedIn)
    ));
}

#[test]
fn guard_treats_an_unresolvable_user_as_unauthenticated() {
    // The session resolves, but no user record carries the id.
    let (store, dir, pair) = session_for(vec![user(2, "bob", None, None)], 1);
    let header = bearer(pair.access_token.token);
    assert!(matches!(
        logged_in_guard(&store, &dir, Some(&header), NOW),
        Err(Fault::NotLoggedIn)
    ));
}

#[test]
fn blocked_user_is_rejected_even_with_a_store_valid_token() {
    let (store, dir, pair) = session_for(vec![user(1, "alice", Some(true), Some(true))], 1);
    let header = bearer(pair.access_token.token);
    assert!(matches!(
        logged_in_guard(&store, &dir, Some(&header), NOW),
        Err(Fault::UserBlocked)
    ));
    assert!(matches!(
        admin_guard(&store, &dir, Some(&header), NOW),
        Err(Fault::UserBlocked)
    ));
}

#[test]
fn admin_guard_rejects_every_non_admin_with_a_valid_session() {
    for admin in [None, Some(false)] {
        let (store, dir, pair) = session_for(vec![user(1, "alice", admin, Some(false))], 1);
        let header = bearer(pair.access_token.token);
        assert!(matches!(
            admin_guard(&store, &dir, Some(&header), NOW),
            Err(Fault::Unallowed)
        ));
    }
}

#[test]
fn admin_guard_admits_an_admin() {
    let (store, dir, pair) = session_for(vec![user(1, "root", Some(true), Some(false))], 1);
    let header = bearer(pair.access_token.token);
    let admitted = admin_guard(&store, &dir, Some(&header), NOW).unwrap();
    assert_eq!(admitted.user_id, 1);
}
