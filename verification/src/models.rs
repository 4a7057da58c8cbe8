//! Data model of the core: account rows, session rows, recovery-code rows,
//! and the reauthentication policy over session timestamps.
//!
//! Times are Unix seconds. A session is mutated in place on every rotation;
//! `refreshed_at` advances on every rotation while `last_authenticated_at`
//! advances only when credentials were actually re-verified.

use vstd::prelude::*;

use crate::token::SessionTokenHash;
use crate::SESSION_EXPIRY_SECS;
use crate::SESSION_FORCED_EXPIRY_SECS;

verus! {

/// Latest representable instant (Unix seconds, end of year 9999); keeps
/// window arithmetic far from the integer bounds.
pub const MAX_TIMESTAMP: i64 = 253402300799;

/// A timestamp the core accepts: between the epoch and `MAX_TIMESTAMP`.
pub open spec fn ts_wf(t: i64) -> bool {
    0 <= t <= MAX_TIMESTAMP
}

/// An account row.
#[derive(Debug, Clone)]
pub struct User {
    pub id: i32,
    pub email: String,
    pub nickname: String,
    pub totp_enabled: bool,
    pub totp_secret_enc: Option<String>,
    pub totp_confirmed_at: Option<i64>,
    pub password_hash: String,
    pub created_at: i64,
    pub avatar_url: Option<String>,
}

/// An account row before insertion, without its generated id.
#[derive(Debug, Clone)]
pub struct NewUser {
    pub email: String,
    pub nickname: String,
    pub totp_enabled: bool,
    pub totp_secret_enc: Option<String>,
    pub totp_confirmed_at: Option<i64>,
    pub password_hash: String,
    pub created_at: i64,
    pub avatar_url: Option<String>,
}

/// A session row: one per logical client/device pairing.
#[derive(Debug, Clone)]
pub struct Session {
    pub id: i32,
    pub user_id: i32,
    pub token_hash: SessionTokenHash,
    pub device_id: String,
    pub device_name: Option<String>,
    pub ip_address: Option<String>,
    pub created_at: i64,
    pub refreshed_at: i64,
    pub last_used_at: i64,
    pub last_authenticated_at: i64,
}

/// A session row before insertion, without its generated id.
#[derive(Debug, Clone)]
pub struct NewSession {
    pub user_id: i32,
    pub token_hash: SessionTokenHash,
    pub device_id: String,
    pub device_name: Option<String>,
    pub ip_address: Option<String>,
    pub created_at: i64,
    pub refreshed_at: i64,
    pub last_used_at: i64,
    pub last_authenticated_at: i64,
}

/// A one-time recovery code row: the code's hash and whether it was consumed.
#[derive(Debug, Clone, Copy)]
pub struct TwoFaRecoveryCode {
    pub id: i32,
    pub user_id: i32,
    pub code_hash: [u8; 32],
    pub used_at: Option<i64>,
    pub created_at: i64,
}

/// A recovery-code row before insertion, without its generated id.
#[derive(Debug, Clone, Copy)]
pub struct NewTwoFaRecoveryCode {
    pub user_id: i32,
    pub code_hash: [u8; 32],
    pub used_at: Option<i64>,
    pub created_at: i64,
}

impl User {
    /// Timestamps of the row are in range.
    pub open spec fn wf(&self) -> bool {
        &&& ts_wf(self.created_at)
        &&& self.totp_confirmed_at matches Some(t) ==> ts_wf(t)
    }

    /// Copies the row, keeping its value.
    pub fn duplicate(&self) -> (r: User)
        ensures
            r == self,
    {
        User {
            id: self.id,
            email: self.email.clone(),
            nickname: self.nickname.clone(),
            totp_enabled: self.totp_enabled,
            totp_secret_enc: clone_opt_string(&self.totp_secret_enc),
            totp_confirmed_at: self.totp_confirmed_at,
            password_hash: self.password_hash.clone(),
            created_at: self.created_at,
            avatar_url: clone_opt_string(&self.avatar_url),
        }
    }
}

impl Session {
    /// The stored token hash is a full digest and timestamps are in range.
    pub open spec fn wf(&self) -> bool {
        &&& ts_wf(self.created_at)
        &&& ts_wf(self.refreshed_at)
        &&& ts_wf(self.last_used_at)
        &&& ts_wf(self.last_authenticated_at)
    }

    /// Copies the row, keeping its value.
    pub fn duplicate(&self) -> (r: Session)
        ensures
            r == self,
    {
        Session {
            id: self.id,
            user_id: self.user_id,
            token_hash: self.token_hash,
            device_id: self.device_id.clone(),
            device_name: clone_opt_string(&self.device_name),
            ip_address: clone_opt_string(&self.ip_address),
            created_at: self.created_at,
            refreshed_at: self.refreshed_at,
            last_used_at: self.last_used_at,
            last_authenticated_at: self.last_authenticated_at,
        }
    }

    /// The row after a rotation at `now`: same identity, new token hash and
    /// device metadata, `refreshed_at` and `last_used_at` advanced,
    /// `last_authenticated_at` untouched. Absent device metadata keeps the
    /// previous value.
    pub fn rotate(
        &self,
        token_hash: SessionTokenHash,
        device_id: String,
        device_name: Option<String>,
        ip_address: Option<String>,
        now: i64,
    ) -> (r: Session)
        ensures
            r.id == self.id,
            r.user_id == self.user_id,
            r.token_hash == token_hash,
            r.device_id@ == device_id@,
            r.created_at == self.created_at,
            r.refreshed_at == now,
            r.last_used_at == now,
            r.last_authenticated_at == self.last_authenticated_at,
            r.device_name == if device_name is Some {
                device_name
            } else {
                self.device_name
            },
            r.ip_address == if ip_address is Some {
                ip_address
            } else {
                self.ip_address
            },
    {
        let new_device_name: Option<String> = match device_name {
            Some(n) => Some(n),
            None => clone_opt_string(&self.device_name),
        };
        let new_ip_address: Option<String> = match ip_address {
            Some(ip) => Some(ip),
            None => clone_opt_string(&self.ip_address),
        };
        Session {
            id: self.id,
            user_id: self.user_id,
            token_hash,
            device_id,
            device_name: new_device_name,
            ip_address: new_ip_address,
            created_at: self.created_at,
            refreshed_at: now,
            last_used_at: now,
            last_authenticated_at: self.last_authenticated_at,
        }
    }
}

impl NewSession {
    /// A freshly created session: all four timestamps start at `now`.
    pub fn new(
        user_id: i32,
        token_hash: SessionTokenHash,
        device_id: String,
        device_name: Option<String>,
        ip_address: Option<String>,
        now: i64,
    ) -> (r: NewSession)
        ensures
            r.user_id == user_id,
            r.token_hash == token_hash,
            r.device_id@ == device_id@,
            r.device_name == device_name,
            r.ip_address == ip_address,
            r.created_at == now,
            r.refreshed_at == now,
            r.last_used_at == now,
            r.last_authenticated_at == now,
    {
        NewSession {
            user_id,
            token_hash,
            device_id,
            device_name,
            ip_address,
            created_at: now,
            refreshed_at: now,
            last_used_at: now,
            last_authenticated_at: now,
        }
    }
}

/// Clones an optional string, keeping its value.
pub fn clone_opt_string(s: &Option<String>) -> (r: Option<String>)
    ensures
        r == s,
{
    match s {
        Some(v) => Some(v.clone()),
        None => None,
    }
}

/// Whether a session must re-prove credentials at `now`: true exactly when
/// the rolling window since the last rotation or the forced window since the
/// last credential proof has elapsed. Elapsing exactly at the cutoff counts
/// as expired.
pub open spec fn spec_requires_reauth(s: Session, now: i64) -> bool {
    ||| now - s.refreshed_at >= SESSION_EXPIRY_SECS
    ||| now - s.last_authenticated_at >= SESSION_FORCED_EXPIRY_SECS
}

/// Decides whether a session requires reauthentication at `now`.
pub fn session_requires_reauth(session: &Session, now: i64) -> (r: bool)
    requires
        session.wf(),
        ts_wf(now),
    ensures
        r == spec_requires_reauth(*session, now),
{
    now - session.refreshed_at >= SESSION_EXPIRY_SECS
        || now - session.last_authenticated_at >= SESSION_FORCED_EXPIRY_SECS
}

/// The two instants at which the session's windows elapse: the rolling
/// cutoff after its last rotation and the forced cutoff after its last
/// credential proof.
pub fn session_requires_reauth_at(session: &Session) -> (r: (i64, i64))
    requires
        session.wf(),
    ensures
        r.0 == session.refreshed_at + SESSION_EXPIRY_SECS,
        r.1 == session.last_authenticated_at + SESSION_FORCED_EXPIRY_SECS,
{
    (
        session.refreshed_at + SESSION_EXPIRY_SECS,
        session.last_authenticated_at + SESSION_FORCED_EXPIRY_SECS,
    )
}

/// Law: the reauthentication policy is exactly the two-window formula, with
/// the boundary counting as expired.
pub proof fn lemma_requires_reauth_boundary(s: Session, now: i64)
    ensures
        spec_requires_reauth(s, now) <==> (now - s.refreshed_at >= SESSION_EXPIRY_SECS || now
            - s.last_authenticated_at >= SESSION_FORCED_EXPIRY_SECS),
        now == s.refreshed_at + SESSION_EXPIRY_SECS && now - s.last_authenticated_at
            < SESSION_FORCED_EXPIRY_SECS ==> spec_requires_reauth(s, now),
        s.refreshed_at <= now < s.refreshed_at + SESSION_EXPIRY_SECS && s.last_authenticated_at
            <= now < s.last_authenticated_at + SESSION_FORCED_EXPIRY_SECS
            ==> !spec_requires_reauth(s, now),
{
}

} // verus!
