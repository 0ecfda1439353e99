use judge_auth::auth::register;
use judge_auth::credentials::SaltedHash;
use judge_auth::models::NewUser;
use judge_auth::session::{get_session, resolve, resolve_token, resolve_with_user, ResolveError};
use judge_auth::store::UserStore;
use judge_auth::token::{encode_jwt_at, SECONDS_IN_1_WEEK, SECONDS_IN_20_MINUTES};

fn now_unix_seconds() -> u64 {
    std::time::SystemTime::now()
        .duration_since(std::time::UNIX_EPOCH)
        .map(|d| d.as_secs())
        .unwrap_or(0)
}

const KEY: &str = "resolver-key";
const NOW: u64 = 5_000_000;

fn store_with(users: &[(&str, &[&str])]) -> UserStore {
    let mut store = UserStore::new();
    for (name, perms) in users {
        let sh = SaltedHash::generate("pw").unwrap();
        store
            .insert(NewUser {
                username: name.to_string(),
                display_name: name.to_uppercase(),
                password_salt: sh.salt,
                password_hash: sh.hash,
                permissions: perms.iter().map(|p| p.to_string()).collect(),
            })
            .unwrap();
    }
    store
}

#[test]
fn valid_access_token_resolves() {
    let store = store_with(&[("alice", &[])]);
    let token = encode_jwt_at(KEY, "alice", SECONDS_IN_20_MINUTES, false, NOW);
    let session = resolve(&store, KEY, &token, None, NOW).unwrap();
    assert_eq!(session.user.username, "alice");
    assert_eq!(session.claims.sub, "alice");
    assert!(!session.claims.refresh);
}

#[test]
fn refresh_class_token_is_rejected_even_when_valid() {
    let store = store_with(&[("alice", &[])]);
    let token = encode_jwt_at(KEY, "alice", SECONDS_IN_1_WEEK, true, NOW);
    // Signature and expiry are fine; the class alone rejects it.
    let r = resolve(&store, KEY, &token, None, NOW);
    assert_eq!(r.unwrap_err(), ResolveError::Unauthorized);
}

#[test]
fn expired_token_is_unauthorized() {
    let store = store_with(&[("alice", &[])]);
    let token = encode_jwt_at(KEY, "alice", 10, false, NOW);
    let r = resolve(&store, KEY, &token, None, NOW + 10);
    assert_eq!(r.unwrap_err(), ResolveError::Unauthorized);
}

#[test]
fn token_for_deleted_user_is_unauthorized() {
    let store = store_with(&[("alice", &[])]);
    let token = encode_jwt_at(KEY, "ghost", SECONDS_IN_20_MINUTES, false, NOW);
    let r = resolve(&store, KEY, &token, None, NOW);
    assert_eq!(r.unwrap_err(), ResolveError::Unauthorized);
}

#[test]
fn bad_token_and_deleted_user_are_indistinguishable() {
    let store = store_with(&[("alice", &[])]);

    let user_gone = encode_jwt_at(KEY, "ghost", SECONDS_IN_20_MINUTES, false, NOW);
    let malformed = "not a token at all";
    let wrong_key = encode_jwt_at("other-key", "alice", SECONDS_IN_20_MINUTES, false, NOW);

    let a = resolve(&store, KEY, &user_gone, None, NOW).unwrap_err();
    let b = resolve(&store, KEY, malformed, None, NOW).unwrap_err();
    let c = resolve(&store, KEY, &wrong_key, None, NOW).unwrap_err();
    assert_eq!(a, ResolveError::Unauthorized);
    assert_eq!(a, b);
    assert_eq!(a, c);
}

#[test]
fn required_permission_is_judged_on_the_loaded_user() {
    let store = store_with(&[("plain", &[]), ("root", &["admin"]), ("other", &["judge"])]);

    let plain_token = encode_jwt_at(KEY, "plain", SECONDS_IN_20_MINUTES, false, NOW);
    let r = resolve(&store, KEY, &plain_token, Some("admin"), NOW);
    assert_eq!(r.unwrap_err(), ResolveError::Forbidden);

    let other_token = encode_jwt_at(KEY, "other", SECONDS_IN_20_MINUTES, false, NOW);
    let r = resolve(&store, KEY, &other_token, Some("admin"), NOW);
    assert_eq!(r.unwrap_err(), ResolveError::Forbidden);

    let root_token = encode_jwt_at(KEY, "root", SECONDS_IN_20_MINUTES, false, NOW);
    let session = resolve(&store, KEY, &root_token, Some("admin"), NOW).unwrap();
    assert_eq!(session.user.username, "root");
    assert!(session.user.is_admin());
}

#[test]
fn revoked_permission_takes_effect_on_next_resolution() {
    // The token says nothing about permissions: the same token resolves
    // differently once the store holds a different permission set.
    let with_admin = store_with(&[("carol", &["admin"])]);
    let without_admin = store_with(&[("carol", &[])]);
    let token = encode_jwt_at(KEY, "carol", SECONDS_IN_20_MINUTES, false, NOW);
    assert!(resolve(&with_admin, KEY, &token, Some("admin"), NOW).is_ok());
    let r = resolve(&without_admin, KEY, &token, Some("admin"), NOW);
    assert_eq!(r.unwrap_err(), ResolveError::Forbidden);
}

#[test]
fn get_session_follows_the_real_clock() {
    let store = store_with(&[("alice", &[]), ("root", &["admin"])]);
    assert_eq!(store.len(), 2);
    let now = now_unix_seconds();

    let live = encode_jwt_at(KEY, "alice", SECONDS_IN_20_MINUTES, false, now);
    let session = get_session(&store, KEY, &live, None).unwrap();
    assert_eq!(session.user.username, "alice");

    let refresh_class = encode_jwt_at(KEY, "alice", SECONDS_IN_1_WEEK, true, now);
    assert_eq!(
        get_session(&store, KEY, &refresh_class, None).unwrap_err(),
        ResolveError::Unauthorized
    );

    let stale = encode_jwt_at(KEY, "alice", 0, false, now - SECONDS_IN_20_MINUTES);
    assert_eq!(get_session(&store, KEY, &stale, None).unwrap_err(), ResolveError::Unauthorized);
}

#[test]
fn two_phase_resolution_matches_the_one_shot_form() {
    let store = store_with(&[("alice", &[]), ("root", &["admin"])]);
    let token = encode_jwt_at(KEY, "alice", SECONDS_IN_20_MINUTES, false, NOW);

    let claims = resolve_token(KEY, &token, NOW).unwrap();
    assert_eq!(claims.sub, "alice");
    let loaded = store.find_by_username(&claims.sub);
    let session = resolve_with_user(claims, loaded, None).unwrap();
    assert_eq!(session.user.username, "alice");

    let claims = resolve_token(KEY, &token, NOW).unwrap();
    assert_eq!(
        resolve_with_user(claims, None, None).unwrap_err(),
        ResolveError::Unauthorized
    );

    let claims = resolve_token(KEY, &token, NOW).unwrap();
    let loaded = store.find_by_username(&claims.sub);
    assert_eq!(
        resolve_with_user(claims, loaded, Some("admin")).unwrap_err(),
        ResolveError::Forbidden
    );
}

#[test]
fn duplicate_username_is_refused_by_the_store() {
    let mut store = store_with(&[("alice", &[])]);
    let sh = SaltedHash::generate("pw").unwrap();
    let r = store.insert(NewUser {
        username: "alice".to_string(),
        display_name: "Alice II".to_string(),
        password_salt: sh.salt,
        password_hash: sh.hash,
        permissions: vec![],
    });
    assert_eq!(r.unwrap_err(), judge_auth::store::StoreError::DuplicateUsername);
    assert_eq!(store.len(), 1);
}

#[test]
fn registered_user_has_no_permissions() {
    let mut store = UserStore::new();
    register(&mut store, "dave", "Dave", "pw").unwrap();
    let user = store.find_by_username("dave").unwrap();
    assert!(user.permissions.is_empty());
    assert!(!user.is_admin());
    assert!(!user.has_permission("judge"));
}
