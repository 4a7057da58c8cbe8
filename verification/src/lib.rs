//! Authentication and session-lifecycle core of a multi-user web application.
//!
//! The crate covers credential verification, long-lived refresh sessions with
//! token rotation and optimistic concurrency control, short-lived signed
//! access claims, optional two-factor authentication (TOTP plus one-time
//! recovery codes), and the per-user session pruning policy.

use vstd::prelude::*;

pub mod access;
pub mod account;
pub mod adaptive_buffer;
pub mod compress_cbor_codec;
pub mod config;
pub mod errors;
pub mod models;
pub mod password;
pub mod primitives;
pub mod session;
pub mod store;
pub mod token;
pub mod two_factor;
pub mod validate;

verus! {

/// Rolling window: a session must be refreshed at least this often (seconds).
pub const SESSION_EXPIRY_SECS: i64 = 604800;

/// Forced window: credentials must be re-proven at least this often (seconds).
pub const SESSION_FORCED_EXPIRY_SECS: i64 = 2592000;

/// Lifetime of a signed access claim set (seconds).
pub const ACCESS_EXPIRY_SECS: i64 = 900;

/// Maximum number of live sessions kept per user.
pub const MAX_SESSIONS_PER_USER: usize = 10;

/// How long the browser keeps the refresh-token cookie (ten years): bounds
/// browser retention, not server-side validity.
pub const SESSION_COOKIE_MAX_AGE_SECS: i64 = 315360000;

} // verus!
