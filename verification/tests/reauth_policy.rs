//! The reauthentication policy over session timestamps, including its exact
//! boundaries.

use auth_core::models::session_requires_reauth;
use auth_core::models::session_requires_reauth_at;
use auth_core::models::Session;
use auth_core::token::SessionTokenHash;
use auth_core::SESSION_EXPIRY_SECS;
use auth_core::SESSION_FORCED_EXPIRY_SECS;

fn session(refreshed_at: i64, last_authenticated_at: i64) -> Session {
    Session {
        id: 1,
        user_id: 1,
        token_hash: SessionTokenHash { bytes: [0u8; 32] },
        device_id: "dev".to_owned(),
        device_name: None,
        ip_address: None,
        created_at: 1000,
        refreshed_at,
        last_used_at: refreshed_at,
        last_authenticated_at,
    }
}

#[test]
fn fresh_session_needs_no_reauth() {
    let s = session(1000, 1000);
    assert!(!session_requires_reauth(&s, 1000));
    assert!(!session_requires_reauth(&s, 1000 + SESSION_EXPIRY_SECS - 1));
}

#[test]
fn rolling_window_boundary_counts_as_expired() {
    let s = session(1000, 1000);
    assert!(session_requires_reauth(&s, 1000 + SESSION_EXPIRY_SECS));
    assert!(!session_requires_reauth(&s, 1000 + SESSION_EXPIRY_SECS - 1));
}

#[test]
fn forced_window_boundary_counts_as_expired() {
    // Keep rotating (refreshed_at recent) but never re-prove credentials:
    // the hard 30-day cap still fires, exactly at the cutoff.
    let last_auth = 1000;
    let now_expired = last_auth + SESSION_FORCED_EXPIRY_SECS;
    let s = session(now_expired - 10, last_auth);
    assert!(session_requires_reauth(&s, now_expired));
    assert!(!session_requires_reauth(&s, now_expired - 1));
}

#[test]
fn reauth_cutoff_instants() {
    let s = session(5000, 3000);
    let (rolling, forced) = session_requires_reauth_at(&s);
    assert_eq!(rolling, 5000 + SESSION_EXPIRY_SECS);
    assert_eq!(forced, 3000 + SESSION_FORCED_EXPIRY_SECS);
}

#[test]
fn window_constants_are_seven_and_thirty_days() {
    assert_eq!(SESSION_EXPIRY_SECS, 7 * 24 * 60 * 60);
    assert_eq!(SESSION_FORCED_EXPIRY_SECS, 30 * 24 * 60 * 60);
}
