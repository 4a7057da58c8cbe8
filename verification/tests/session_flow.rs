//! Session lifecycle scenarios: rotation, replay defense, logout, pruning.

use auth_core::account::register;
use auth_core::account::login;
use auth_core::account::logout;
use auth_core::errors::ApiError;
use auth_core::errors::AuthError;
use auth_core::password::PasswordContext;
use auth_core::session::create_session;
use auth_core::session::prune_excess_sessions;
use auth_core::session::rotate_session;
use auth_core::session::session_hoop_inner;
use auth_core::store::Store;
use auth_core::two_factor::TwoFactorContext;
use auth_core::MAX_SESSIONS_PER_USER;

const KEY_TEXT: &str = "0000000000000000000000000000000000000000000000000000000000000000";

fn contexts() -> (PasswordContext, TwoFactorContext) {
    (
        PasswordContext::new().unwrap(),
        TwoFactorContext::from_key_text(KEY_TEXT).unwrap(),
    )
}

#[test]
fn last_authenticated_only_moves_on_credential_proof() {
    // register -> login -> refresh-rotate five times -> reauth-rotate once:
    // last_authenticated_at changes only on login and the final rotation.
    let (pctx, tctx) = contexts();
    let mut store = Store::new();
    let (_, s0, _) = register(
        &pctx,
        &mut store,
        "a@example.com".to_owned(),
        "alice".to_owned(),
        "correct horse",
        "dev-1".to_owned(),
        None,
        None,
        1000,
    )
    .unwrap();
    assert_eq!(s0.last_authenticated_at, 1000);

    let (_, s1, _) = login(
        &pctx,
        &tctx,
        &mut store,
        &"a@example.com".to_owned(),
        "correct horse",
        None,
        "dev-1".to_owned(),
        None,
        None,
        2000,
    )
    .unwrap();
    assert_eq!(s1.id, s0.id);
    assert_eq!(s1.last_authenticated_at, 2000);

    let mut current = s1;
    for k in 0..5i64 {
        let now = 3000 + k;
        let (rotated, _) = rotate_session(
            &mut store,
            &current,
            false,
            "dev-1".to_owned(),
            None,
            None,
            now,
        )
        .unwrap();
        assert_eq!(rotated.id, current.id);
        assert_eq!(rotated.refreshed_at, now);
        assert_eq!(rotated.last_used_at, now);
        assert_eq!(rotated.last_authenticated_at, 2000);
        current = rotated;
    }

    let (reauthed, _) = rotate_session(
        &mut store,
        &current,
        true,
        "dev-1".to_owned(),
        None,
        None,
        9000,
    )
    .unwrap();
    assert_eq!(reauthed.last_authenticated_at, 9000);
}

#[test]
fn stale_rotation_never_succeeds() {
    // Two rotations from the same snapshot: exactly one succeeds; the one
    // presenting the superseded hash fails and changes nothing.
    let (_pctx, _tctx) = contexts();
    let mut store = Store::new();
    let (snapshot, _) = create_session(&mut store, 1, "dev".to_owned(), None, None, 100).unwrap();

    let first = rotate_session(&mut store, &snapshot, false, "dev".to_owned(), None, None, 200);
    assert!(first.is_ok());

    let sessions_before = store.sessions.len();
    let second = rotate_session(&mut store, &snapshot, false, "dev".to_owned(), None, None, 300);
    match second {
        Err(ApiError::Auth(AuthError::SessionMismatch)) => (),
        other => panic!("stale rotation yielded {:?}", other.map(|(s, _)| s.id)),
    }
    assert_eq!(store.sessions.len(), sessions_before);
    // The stored row still carries the first rotation's timestamps.
    assert_eq!(store.sessions[0].refreshed_at, 200);
}

#[test]
fn logout_then_refresh_demands_reauth() {
    // Logout forces last_authenticated_at to the epoch; a later lookup for a
    // refresh rotation fails with reauth-required.
    let mut store = Store::new();
    let (session, token) = create_session(&mut store, 1, "dev".to_owned(), None, None, 1000).unwrap();
    logout(&mut store, &session);
    assert_eq!(store.sessions[0].last_authenticated_at, 0);

    let cookie_value = token.encoded();
    let now = 5_000_000; // well past the forced window measured from the epoch
    let r = session_hoop_inner(&store, cookie_value.as_str(), true, now);
    assert!(matches!(r, Err(ApiError::Auth(AuthError::NeedReauth))));

    // The reauth endpoint's lookup does not enforce the windows and still
    // reaches the session.
    let r = session_hoop_inner(&store, cookie_value.as_str(), false, now);
    assert!(r.is_ok());
}

#[test]
fn session_lookup_by_cookie() {
    let mut store = Store::new();
    let (session, token) = create_session(&mut store, 4, "dev".to_owned(), None, None, 1000).unwrap();
    let found = session_hoop_inner(&store, token.encoded().as_str(), true, 1500).unwrap();
    assert_eq!(found.id, session.id);

    let missing = session_hoop_inner(&store, "?!bad!?", true, 1500);
    assert!(matches!(
        missing,
        Err(ApiError::Auth(AuthError::InvalidSessionToken))
    ));

    let other = auth_core::token::SessionToken::generate();
    let not_found = session_hoop_inner(&store, other.encoded().as_str(), true, 1500);
    assert!(matches!(
        not_found,
        Err(ApiError::Auth(AuthError::SessionNotFound))
    ));
}

#[test]
fn pruning_keeps_the_ten_most_recently_used() {
    // Twelve sessions with increasing last_used_at; after pruning exactly
    // ten remain and they are the ten most recently used.
    let mut store = Store::new();
    let mut ids = Vec::new();
    for k in 0..12i64 {
        let (s, _) = create_session(&mut store, 7, format!("dev-{}", k), None, None, 1000 + k).unwrap();
        ids.push(s.id);
    }
    // create_session prunes as it goes, keeping the newest session.
    assert_eq!(store.sessions.len(), MAX_SESSIONS_PER_USER);
    let kept: Vec<i32> = store.sessions.iter().map(|s| s.id).collect();
    for id in &ids[2..] {
        assert!(kept.contains(id), "recent session {} was pruned", id);
    }
    for id in &ids[..2] {
        assert!(!kept.contains(id), "stale session {} survived", id);
    }
}

#[test]
fn pruning_spares_other_users_and_the_kept_session() {
    let mut store = Store::new();
    let (other_user_session, _) =
        create_session(&mut store, 99, "dev-x".to_owned(), None, None, 10).unwrap();
    let mut last = None;
    for k in 0..12i64 {
        let (s, _) = create_session(&mut store, 7, format!("dev-{}", k), None, None, 1000 + k).unwrap();
        last = Some(s);
    }
    let removed = prune_excess_sessions(&mut store, 7, Some(last.as_ref().unwrap().id));
    assert_eq!(removed, 0); // creation already pruned down to the cap
    let kept: Vec<i32> = store.sessions.iter().map(|s| s.id).collect();
    assert!(kept.contains(&other_user_session.id));
    assert!(kept.contains(&last.unwrap().id));
}
