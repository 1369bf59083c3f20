use rust_auth::codec::hex32;
use rust_auth::fault::Fault;
use rust_auth::auth::{login_user, logout_user, refresh_user_token};
use rust_auth::guard::logged_in_guard;
use rust_auth::store::TokenStore;
use rust_auth::user::{hash_password, User, UserDirectory, UserInfo};

const NOW: i64 = 1_000;

fn seeded_directory() -> UserDirectory {
    let mut dir = UserDirectory::new();
    dir.add_user(User {
        user_id: 11,
        username: "alice".to_string(),
        password: hash_password("correct").unwrap(),
        admin: Some(false),
        blocked: Some(false),
    });
    dir.add_user(User {
        user_id: 12,
        username: "mallory".to_string(),
        password: hash_password("other").unwrap(),
        admin: None,
        blocked: Some(true),
    });
    dir
}

fn bearer(token_id: u128) -> String {
    format!("TOKEN {}", hex32(token_id))
}

#[test]
fn login_issues_a_pair_that_resolves_to_the_same_user_from_both_sides() {
    let dir = seeded_directory();
    let mut store = TokenStore::new();
    let pair = login_user(&dir, &mut store, &"alice".to_string(), "correct", NOW).unwrap();
    assert_eq!(pair.user, 11);
    assert_ne!(pair.access_token.token, pair.refresh_token.token);
    assert_eq!(
        store.get_user_for_access_token(pair.access_token.token, NOW),
        Ok(11)
    );
    assert_eq!(
        store.get_user_from_refresh_token(pair.refresh_token.token, NOW),
        Ok(11)
    );
}

#[test]
fn login_rejects_bad_credentials_and_blocked_accounts() {
    let dir = seeded_directory();
    let mut store = TokenStore::new();
    assert!(matches!(
        login_user(&dir, &mut store, &"alice".to_string(), "wrong", NOW),
        Err(Fault::Unallowed)
    ));
    assert!(matches!(
        login_user(&dir, &mut store, &"nobody".to_string(), "correct", NOW),
        Err(Fault::Unallowed)
    ));
    assert!(matches!(
        login_user(&dir, &mut store, &"mallory".to_string(), "other", NOW),
        Err(Fault::UserBlocked)
    ));
    // No rejected attempt left a session behind.
    assert!(matches!(
        logged_in_guard(&store, &dir, Some("TOKEN 0"), NOW),
        Err(Fault::NotLoggedIn)
    ));
}

#[test]
fn refresh_rotates_the_pair_and_consumes_the_refresh_token() {
    let dir = seeded_directory();
    let mut store = TokenStore::new();
    let pair = login_user(&dir, &mut store, &"alice".to_string(), "correct", NOW).unwrap();

    let rotated = refresh_user_token(&mut store, pair.refresh_token.token, NOW).unwrap();
    assert_eq!(rotated.user, 11);
    assert_ne!(rotated.access_token.token, pair.access_token.token);

    // The old access token was revoked during rotation, the new one lives.
    assert_eq!(
        store.get_user_for_access_token(pair.access_token.token, NOW),
        Err(Fault::NotLoggedIn)
    );
    assert_eq!(
        store.get_user_for_access_token(rotated.access_token.token, NOW),
        Ok(11)
    );

    // A second refresh with the consumed id deterministically loses.
    assert!(matches!(
        refresh_user_token(&mut store, pair.refresh_token.token, NOW),
        Err(Fault::NotLoggedIn)
    ));
}

#[test]
fn refresh_with_an_unknown_or_expired_token_is_unauthenticated() {
    let dir = seeded_directory();
    let mut store = TokenStore::new();
    assert!(matches!(
        refresh_user_token(&mut store, 404, NOW),
        Err(Fault::NotLoggedIn)
    ));
    let pair = login_user(&dir, &mut store, &"alice".to_string(), "correct", NOW).unwrap();
    let after_expiry = pair.refresh_token.expires_at + 1;
    assert!(matches!(
        refresh_user_token(&mut store, pair.refresh_token.token, after_expiry),
        Err(Fault::NotLoggedIn)
    ));
}

#[test]
fn logout_then_any_use_of_either_token_is_unauthenticated() {
    let dir = seeded_directory();
    let mut store = TokenStore::new();
    let pair = login_user(&dir, &mut store, &"alice".to_string(), "correct", NOW).unwrap();

    let header = bearer(pair.access_token.token);
    assert_eq!(logout_user(&mut store, Some(&header), NOW), Ok(()));

    assert!(matches!(
        logged_in_guard(&store, &dir, Some(&header), NOW),
        Err(Fault::NotLoggedIn)
    ));
    assert!(matches!(
        refresh_user_token(&mut store, pair.refresh_token.token, NOW),
        Err(Fault::NotLoggedIn)
    ));
    // A second logout with the same token also misses.
    assert_eq!(
        logout_user(&mut store, Some(&header), NOW),
        Err(Fault::NotLoggedIn)
    );
}

#[test]
fn logout_rejects_unparsable_headers_as_unauthenticated() {
    let mut store = TokenStore::new();
    assert_eq!(logout_user(&mut store, None, NOW), Err(Fault::NotLoggedIn));
    assert_eq!(
        logout_user(&mut store, Some("bare-token"), NOW),
        Err(Fault::NotLoggedIn)
    );
    assert_eq!(
        logout_user(&mut store, Some("TOKEN garbage"), NOW),
        Err(Fault::NotLoggedIn)
    );
}

#[test]
fn login_self_refresh_then_old_access_token_is_dead() {
    // Scenario: log in, identify through the guard, rotate, and check that
    // the original access token no longer works.
    let dir = seeded_directory();
    let mut store = TokenStore::new();

    let pair = login_user(&dir, &mut store, &"alice".to_string(), "correct", NOW).unwrap();

    let header = bearer(pair.access_token.token);
    let admitted = logged_in_guard(&store, &dir, Some(&header), NOW).unwrap();
    assert_eq!(admitted.username, "alice");
    let info = UserInfo::from(admitted.clone());
    assert_eq!(info.user_id, 11);
    assert_eq!(info.username, "alice");

    let rotated = refresh_user_token(&mut store, pair.refresh_token.token, NOW).unwrap();
    assert_ne!(rotated.access_token.token, pair.access_token.token);

    assert!(matches!(
        logged_in_guard(&store, &dir, Some(&header), NOW),
        Err(Fault::NotLoggedIn)
    ));
    let new_header = bearer(rotated.access_token.token);
    let readmitted = logged_in_guard(&store, &dir, Some(&new_header), NOW).unwrap();
    assert_eq!(readmitted.username, "alice");
}

#[test]
fn set_password_replaces_the_hash_and_keeps_the_record() {
    let mut u = User {
        user_id: 1,
        username: "carol".to_string(),
        password: hash_password("before").unwrap(),
        admin: Some(false),
        blocked: None,
    };
    assert!(u.verify_password("before").is_ok());
    u.set_password("after").unwrap();
    assert!(matches!(u.verify_password("before"), Err(Fault::Unallowed)));
    assert!(u.verify_password("after").is_ok());
    assert_eq!(u.username, "carol");
    assert_eq!(u.user_id, 1);
}

#[test]
fn verify_password_rejects_an_unreadable_hash() {
    let u = User {
        user_id: 1,
        username: "dave".to_string(),
        password: "not a bcrypt hash".to_string(),
        admin: None,
        blocked: None,
    };
    assert!(matches!(u.verify_password("anything"), Err(Fault::Unallowed)));
}
