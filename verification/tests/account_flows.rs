//! Account flows: registration, login, password change, logout and session
//! management.

use auth_core::account::all_sessions;
use auth_core::account::change_pw;
use auth_core::account::delete_sessions;
use auth_core::account::login;
use auth_core::account::logout_other_sessions;
use auth_core::account::logout_sessions;
use auth_core::account::register;
use auth_core::account::UserSessionInfo;
use auth_core::errors::ApiError;
use auth_core::errors::AuthError;
use auth_core::errors::ValidationError;
use auth_core::password::PasswordContext;
use auth_core::store::Store;
use auth_core::two_factor::TwoFactorContext;

const KEY_TEXT: &str = "ffffffffffffffffffffffffffffffffffffffffffffffffffffffffffffffff";

fn contexts() -> (PasswordContext, TwoFactorContext) {
    (
        PasswordContext::new().unwrap(),
        TwoFactorContext::from_key_text(KEY_TEXT).unwrap(),
    )
}

fn registered(store: &mut Store, pctx: &PasswordContext) -> auth_core::models::Session {
    let (_, session, _) = register(
        pctx,
        store,
        "me@example.com".to_owned(),
        "merlin".to_owned(),
        "open sesame",
        "dev-main".to_owned(),
        Some("Firefox on Linux".to_owned()),
        None,
        1000,
    )
    .unwrap();
    session
}

#[test]
fn register_validates_inputs() {
    let (pctx, _) = contexts();
    let mut store = Store::new();
    let short_pw = register(
        &pctx, &mut store, "a@b.c".to_owned(), "alice".to_owned(), "short",
        "d".to_owned(), None, None, 1000,
    );
    assert!(matches!(
        short_pw,
        Err(ApiError::Validation(ValidationError::Length))
    ));
    let bad_nick = register(
        &pctx, &mut store, "a@b.c".to_owned(), "al ice".to_owned(), "long enough",
        "d".to_owned(), None, None, 1000,
    );
    assert!(matches!(bad_nick, Err(ApiError::Validation(_))));
    assert_eq!(store.users.len(), 0);
}

#[test]
fn register_rejects_taken_email_and_nickname() {
    let (pctx, _) = contexts();
    let mut store = Store::new();
    registered(&mut store, &pctx);
    let same_email = register(
        &pctx, &mut store, "me@example.com".to_owned(), "other".to_owned(),
        "long enough", "d".to_owned(), None, None, 2000,
    );
    assert!(matches!(same_email, Err(ApiError::Conflict)));
    let same_nick = register(
        &pctx, &mut store, "other@example.com".to_owned(), "merlin".to_owned(),
        "long enough", "d".to_owned(), None, None, 2000,
    );
    assert!(matches!(same_nick, Err(ApiError::Conflict)));
    assert_eq!(store.users.len(), 1);
}

#[test]
fn login_rejects_wrong_or_unknown_credentials() {
    let (pctx, tctx) = contexts();
    let mut store = Store::new();
    registered(&mut store, &pctx);
    let wrong = login(
        &pctx, &tctx, &mut store, &"me@example.com".to_owned(), "open sesane",
        None, "dev-main".to_owned(), None, None, 2000,
    );
    assert!(matches!(
        wrong,
        Err(ApiError::Auth(AuthError::InvalidCredentials))
    ));
    let unknown = login(
        &pctx, &tctx, &mut store, &"nobody@example.com".to_owned(), "open sesame",
        None, "dev-main".to_owned(), None, None, 2000,
    );
    assert!(matches!(
        unknown,
        Err(ApiError::Auth(AuthError::InvalidCredentials))
    ));
}

#[test]
fn login_reuses_the_device_session() {
    let (pctx, tctx) = contexts();
    let mut store = Store::new();
    let first = registered(&mut store, &pctx);
    let (_, same_device, _) = login(
        &pctx, &tctx, &mut store, &"me@example.com".to_owned(), "open sesame",
        None, "dev-main".to_owned(), None, None, 2000,
    )
    .unwrap();
    assert_eq!(same_device.id, first.id);
    let (_, new_device, _) = login(
        &pctx, &tctx, &mut store, &"me@example.com".to_owned(), "open sesame",
        None, "dev-other".to_owned(), None, None, 2100,
    )
    .unwrap();
    assert_ne!(new_device.id, first.id);
    assert_eq!(store.sessions.len(), 2);
}

#[test]
fn change_password_rotates_credentials_and_logs_others_out() {
    let (pctx, tctx) = contexts();
    let mut store = Store::new();
    let session = registered(&mut store, &pctx);
    let (_, other, _) = login(
        &pctx, &tctx, &mut store, &"me@example.com".to_owned(), "open sesame",
        None, "dev-other".to_owned(), None, None, 1500,
    )
    .unwrap();

    change_pw(
        &pctx, &tctx, &mut store, &session, "open sesame", None,
        "brand new pw", false, 2000,
    )
    .unwrap();

    // Old password no longer works, the new one does.
    let old_pw = login(
        &pctx, &tctx, &mut store, &"me@example.com".to_owned(), "open sesame",
        None, "dev-main".to_owned(), None, None, 2500,
    );
    assert!(matches!(
        old_pw,
        Err(ApiError::Auth(AuthError::InvalidCredentials))
    ));
    login(
        &pctx, &tctx, &mut store, &"me@example.com".to_owned(), "brand new pw",
        None, "dev-main".to_owned(), None, None, 2500,
    )
    .unwrap();

    // The other device's session was deauthenticated.
    let other_row = store.sessions.iter().find(|s| s.id == other.id).unwrap();
    assert_eq!(other_row.last_authenticated_at, 0);
}

#[test]
fn change_password_validates_the_new_password() {
    let (pctx, tctx) = contexts();
    let mut store = Store::new();
    let session = registered(&mut store, &pctx);
    let r = change_pw(
        &pctx, &tctx, &mut store, &session, "open sesame", None, "short", false, 2000,
    );
    assert!(matches!(
        r,
        Err(ApiError::Validation(ValidationError::Length))
    ));
    // The old password still works after the rejected change.
    login(
        &pctx, &tctx, &mut store, &"me@example.com".to_owned(), "open sesame",
        None, "dev-main".to_owned(), None, None, 2500,
    )
    .unwrap();
}

#[test]
fn nickname_errors_report_the_first_failed_rule() {
    let (pctx, _) = contexts();
    let mut store = Store::new();
    // Leading whitespace and a bad length: the trim rule is named first.
    let r = register(
        &pctx, &mut store, "t@example.com".to_owned(), " a".to_owned(),
        "long enough", "d".to_owned(), None, None, 1000,
    );
    assert!(matches!(r, Err(ApiError::Validation(ValidationError::Trim))));
}

#[test]
fn logout_sessions_signals_when_it_hits_the_current_session() {
    let (pctx, tctx) = contexts();
    let mut store = Store::new();
    let session = registered(&mut store, &pctx);
    let r = logout_sessions(
        &pctx, &tctx, &mut store, &session, "open sesame", None,
        &vec![session.id], 2000,
    );
    assert!(matches!(r, Err(ApiError::Auth(AuthError::DidLogout))));
    assert_eq!(store.sessions[0].last_authenticated_at, 0);
}

#[test]
fn logout_other_sessions_spares_the_current_one() {
    let (pctx, tctx) = contexts();
    let mut store = Store::new();
    let session = registered(&mut store, &pctx);
    login(
        &pctx, &tctx, &mut store, &"me@example.com".to_owned(), "open sesame",
        None, "dev-2".to_owned(), None, None, 1500,
    )
    .unwrap();
    logout_other_sessions(
        &pctx, &tctx, &mut store, &session, "open sesame", None, 2000,
    )
    .unwrap();
    for s in &store.sessions {
        if s.id == session.id {
            assert_ne!(s.last_authenticated_at, 0);
        } else {
            assert_eq!(s.last_authenticated_at, 0);
        }
    }
}

#[test]
fn delete_sessions_removes_rows() {
    let (pctx, tctx) = contexts();
    let mut store = Store::new();
    let session = registered(&mut store, &pctx);
    let (_, other, _) = login(
        &pctx, &tctx, &mut store, &"me@example.com".to_owned(), "open sesame",
        None, "dev-2".to_owned(), None, None, 1500,
    )
    .unwrap();
    delete_sessions(
        &pctx, &tctx, &mut store, &session, "open sesame", None,
        &vec![other.id], 2000,
    )
    .unwrap();
    assert_eq!(store.sessions.len(), 1);
    assert_eq!(store.sessions[0].id, session.id);
}

#[test]
fn all_sessions_lists_only_the_callers_rows() {
    let (pctx, tctx) = contexts();
    let mut store = Store::new();
    let session = registered(&mut store, &pctx);
    auth_core::session::create_session(&mut store, 999, "else".to_owned(), None, None, 1200)
        .unwrap();
    login(
        &pctx, &tctx, &mut store, &"me@example.com".to_owned(), "open sesame",
        None, "dev-2".to_owned(), None, None, 1500,
    )
    .unwrap();
    let infos = all_sessions(
        &pctx, &tctx, &mut store, &session, "open sesame", None, 2000,
    )
    .unwrap();
    assert_eq!(infos.len(), 2);
    for info in &infos {
        assert_eq!(info.user_id, session.user_id);
    }
    let wrong_pw = all_sessions(&pctx, &tctx, &mut store, &session, "nope nope", None, 2000);
    assert!(wrong_pw.is_err());
}

#[test]
fn user_session_info_reports_the_owner() {
    let (pctx, _) = contexts();
    let mut store = Store::new();
    let session = registered(&mut store, &pctx);
    let info = UserSessionInfo::from_session(&store, &session).unwrap();
    assert_eq!(info.user.id, session.user_id);
    assert_eq!(info.session.session_id, session.id);
    assert_eq!(
        info.session.jwt_valid_until,
        session.refreshed_at + auth_core::ACCESS_EXPIRY_SECS
    );
}
