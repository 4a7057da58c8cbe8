//! Access claims: issuance, cross-checks against the live session row, and
//! the cookies the core prescribes.

use auth_core::access::authenticate_access;
use auth_core::access::device_id_cookie;
use auth_core::access::jwt_cookie;
use auth_core::access::make_access_claims;
use auth_core::access::session_cookie;
use auth_core::errors::ApiError;
use auth_core::errors::AuthError;
use auth_core::session::create_session;
use auth_core::session::rotate_session;
use auth_core::store::Store;
use auth_core::token::SessionToken;
use auth_core::ACCESS_EXPIRY_SECS;
use auth_core::SESSION_COOKIE_MAX_AGE_SECS;

#[test]
fn claims_carry_the_session_binding() {
    let mut store = Store::new();
    let (session, _) = create_session(&mut store, 3, "dev".to_owned(), None, None, 1000).unwrap();
    let claims = make_access_claims(&session, session.token_hash.to_truncated(), 1000);
    assert_eq!(claims.sub, 3);
    assert_eq!(claims.sid, session.id);
    assert_eq!(claims.iat, 1000);
    assert_eq!(claims.exp, 1000 + ACCESS_EXPIRY_SECS);
}

#[test]
fn valid_claims_pass_the_cross_check() {
    let mut store = Store::new();
    let (session, _) = create_session(&mut store, 3, "dev".to_owned(), None, None, 1000).unwrap();
    let claims = make_access_claims(&session, session.token_hash.to_truncated(), 1000);
    let found = authenticate_access(&store, &claims, 1100).unwrap();
    assert_eq!(found.id, session.id);
}

#[test]
fn rotation_invalidates_outstanding_claims() {
    // The live-row cross-check makes a rotation revoke every access token
    // issued for the session, without a revocation list.
    let mut store = Store::new();
    let (session, _) = create_session(&mut store, 3, "dev".to_owned(), None, None, 1000).unwrap();
    let claims = make_access_claims(&session, session.token_hash.to_truncated(), 1000);
    rotate_session(&mut store, &session, false, "dev".to_owned(), None, None, 1100).unwrap();
    let r = authenticate_access(&store, &claims, 1200);
    assert!(matches!(r, Err(ApiError::Auth(AuthError::SessionMismatch))));
}

#[test]
fn ownership_mismatch_is_reported_like_a_stale_token() {
    let mut store = Store::new();
    let (session, _) = create_session(&mut store, 3, "dev".to_owned(), None, None, 1000).unwrap();
    let mut claims = make_access_claims(&session, session.token_hash.to_truncated(), 1000);
    claims.sub = 4;
    let r = authenticate_access(&store, &claims, 1100);
    assert!(matches!(r, Err(ApiError::Auth(AuthError::SessionMismatch))));
}

#[test]
fn unknown_session_is_not_found() {
    let store = Store::new();
    let token = SessionToken::generate();
    let claims = auth_core::access::AccessClaims {
        sub: 1,
        sid: 42,
        jti: token.to_hash().to_truncated(),
        exp: 2000,
        iat: 1000,
    };
    let r = authenticate_access(&store, &claims, 1100);
    assert!(matches!(r, Err(ApiError::Auth(AuthError::SessionNotFound))));
}

#[test]
fn expired_windows_demand_reauth() {
    let mut store = Store::new();
    let (session, _) = create_session(&mut store, 3, "dev".to_owned(), None, None, 1000).unwrap();
    let claims = make_access_claims(&session, session.token_hash.to_truncated(), 1000);
    let much_later = 1000 + auth_core::SESSION_EXPIRY_SECS;
    let r = authenticate_access(&store, &claims, much_later);
    assert!(matches!(r, Err(ApiError::Auth(AuthError::NeedReauth))));
}

#[test]
fn cookies_follow_the_contract() {
    let token = SessionToken::generate();
    let sc = session_cookie(&token);
    assert_eq!(sc.name, "session_token");
    assert_eq!(sc.value, token.encoded());
    assert_eq!(sc.path, "/api/auth/session-management/");
    assert!(sc.http_only && sc.secure && sc.same_site_lax);
    assert_eq!(sc.max_age_secs, SESSION_COOKIE_MAX_AGE_SECS);

    let jc = jwt_cookie("signed.jwt.value".to_owned());
    assert_eq!(jc.name, "access_token");
    assert_eq!(jc.path, "/api/");
    assert_eq!(jc.max_age_secs, ACCESS_EXPIRY_SECS);

    let dc = device_id_cookie(&"device-123".to_owned());
    assert_eq!(dc.name, "device_id");
    assert_eq!(dc.value, "device-123");
    assert_eq!(dc.path, "/");
}
