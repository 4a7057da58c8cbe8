//! Access token issuer and validator, and the cookies the core prescribes.
//!
//! An access claim set binds a short-lived signed token to a session row: the
//! subject is the user id, and the token id is the 16-byte truncated hash of
//! the session's current token. Validation cross-checks the claims against
//! the live row, so rotating a session immediately invalidates every access
//! token issued for it, without a revocation list. Signing and signature
//! checks happen at the transport layer with the process-wide key; the core
//! builds and cross-checks the claim values.

use vstd::prelude::*;

use crate::errors::ApiError;
use crate::errors::AuthError;
use crate::models::Session;
use crate::models::session_requires_reauth;
use crate::models::spec_requires_reauth;
use crate::models::ts_wf;
use crate::store::has_session_with_id;
use crate::store::Store;
use crate::token::spec_truncated;
use crate::token::SessionToken;
use crate::token::SessionTokenHashTruncated;
use crate::ACCESS_EXPIRY_SECS;
use crate::SESSION_COOKIE_MAX_AGE_SECS;

verus! {

/// The claim set of an access token: subject (user id), session id, token id
/// (truncated session-token hash), expiry and issue instants.
#[derive(Debug, Clone, Copy)]
pub struct AccessClaims {
    pub sub: i32,
    pub sid: i32,
    pub jti: SessionTokenHashTruncated,
    pub exp: i64,
    pub iat: i64,
}

/// Builds the claims of a fresh access token for this session: issued now,
/// expiring one access lifetime later, bound to the session's current token
/// generation through the truncated hash.
pub fn make_access_claims(session: &Session, jti: SessionTokenHashTruncated, now: i64) -> (r:
    AccessClaims)
    requires
        ts_wf(now),
    ensures
        r.sub == session.user_id,
        r.sid == session.id,
        r.jti@ == jti@,
        r.exp == now + ACCESS_EXPIRY_SECS,
        r.iat == now,
{
    AccessClaims { sub: session.user_id, sid: session.id, jti, exp: now + ACCESS_EXPIRY_SECS, iat: now }
}

/// Validates presented access claims against the live session row: the row
/// must exist, belong to the claim's subject, and still hold a token whose
/// hash starts with the claim's token id; a session past its reauth windows
/// is rejected. Either cross-check failing means the session was rotated or
/// re-owned since issuance, reported as the same `SessionMismatch` so a
/// stale token learns nothing more.
pub fn authenticate_access(store: &Store, claims: &AccessClaims, now: i64) -> (r: Result<
    Session,
    ApiError,
>)
    requires
        store.wf(),
        ts_wf(now),
    ensures
        match r {
            Ok(s) => {
                &&& store.sessions@.contains(s)
                &&& s.id == claims.sid
                &&& s.user_id == claims.sub
                &&& spec_truncated(s.token_hash@) == claims.jti@
                &&& !spec_requires_reauth(s, now)
            },
            Err(ApiError::Auth(AuthError::SessionNotFound)) => !has_session_with_id(
                store.sessions@,
                claims.sid,
            ),
            Err(ApiError::Auth(AuthError::SessionMismatch)) => (exists|s: Session|
                store.sessions@.contains(s) && s.id == claims.sid && (s.user_id != claims.sub
                    || spec_truncated(s.token_hash@) != claims.jti@)),
            Err(ApiError::Auth(AuthError::NeedReauth)) => (exists|s: Session|
                store.sessions@.contains(s) && s.id == claims.sid && s.user_id == claims.sub
                    && spec_truncated(s.token_hash@) == claims.jti@ && spec_requires_reauth(
                    s,
                    now,
                )),
            Err(_) => false,
        },
{
    let session = match store.find_session_by_id(claims.sid) {
        Some(s) => s,
        None => {
            return Err(ApiError::Auth(AuthError::SessionNotFound));
        },
    };
    if session.user_id != claims.sub {
        return Err(ApiError::Auth(AuthError::SessionMismatch));
    }
    if !session.token_hash.matches_truncated(&claims.jti) {
        return Err(ApiError::Auth(AuthError::SessionMismatch));
    }
    if session_requires_reauth(&session, now) {
        return Err(ApiError::Auth(AuthError::NeedReauth));
    }
    Ok(session)
}

/// A cookie the core prescribes: the transport layer turns it into a real
/// Set-Cookie header unchanged.
#[derive(Debug, Clone)]
pub struct CookieSpec {
    pub name: String,
    pub value: String,
    pub path: String,
    pub http_only: bool,
    pub secure: bool,
    pub same_site_lax: bool,
    pub max_age_secs: i64,
}

/// The refresh-session cookie: the opaque encoded token, path-restricted to
/// the session-management routes, long-lived in the browser (server-side
/// validity is governed by the reauth windows, not by this age).
pub fn session_cookie(token: &SessionToken) -> (r: CookieSpec)
    ensures
        r.name@ == "session_token"@,
        r.value@ == crate::primitives::b64url_of(token@),
        r.path@ == "/api/auth/session-management/"@,
        r.http_only && r.secure && r.same_site_lax,
        r.max_age_secs == SESSION_COOKIE_MAX_AGE_SECS,
{
    CookieSpec {
        name: "session_token".to_owned(),
        value: token.encoded(),
        path: "/api/auth/session-management/".to_owned(),
        http_only: true,
        secure: true,
        same_site_lax: true,
        max_age_secs: SESSION_COOKIE_MAX_AGE_SECS,
    }
}

/// The access cookie: the signed token, on the broader interface path, aged
/// exactly as long as the claims stay valid.
pub fn jwt_cookie(signed_token: String) -> (r: CookieSpec)
    ensures
        r.name@ == "access_token"@,
        r.value@ == signed_token@,
        r.path@ == "/api/"@,
        r.http_only && r.secure && r.same_site_lax,
        r.max_age_secs == ACCESS_EXPIRY_SECS,
{
    CookieSpec {
        name: "access_token".to_owned(),
        value: signed_token,
        path: "/api/".to_owned(),
        http_only: true,
        secure: true,
        same_site_lax: true,
        max_age_secs: ACCESS_EXPIRY_SECS,
    }
}

/// The device-id cookie: a non-secret identifier correlating logins from one
/// device, set on first contact.
pub fn device_id_cookie(device_id: &String) -> (r: CookieSpec)
    ensures
        r.name@ == "device_id"@,
        r.value@ == device_id@,
        r.path@ == "/"@,
        r.http_only && r.secure && r.same_site_lax,
        r.max_age_secs == SESSION_COOKIE_MAX_AGE_SECS,
{
    CookieSpec {
        name: "device_id".to_owned(),
        value: device_id.clone(),
        path: "/".to_owned(),
        http_only: true,
        secure: true,
        same_site_lax: true,
        max_age_secs: SESSION_COOKIE_MAX_AGE_SECS,
    }
}

/// The pair of cookies a successful rotation or creation issues.
pub fn auth_cookies(token: &SessionToken, signed_jwt: String) -> (r: (CookieSpec, CookieSpec))
    ensures
        r.0.name@ == "session_token"@ && r.0.value@ == crate::primitives::b64url_of(token@),
        r.1.name@ == "access_token"@ && r.1.value@ == signed_jwt@,
{
    (session_cookie(token), jwt_cookie(signed_jwt))
}

} // verus!
