//! Session rotation engine and pruning policy.
//!
//! Rotation replaces a session's token while preserving the row identity,
//! guarded by a compare-and-swap on the previous token hash: a rotation
//! presenting a superseded hash affects no row and fails, which is the core
//! defense against refresh-token replay. Pruning caps how many sessions one
//! account keeps, dropping the least recently used first.

use vstd::prelude::*;

use crate::errors::ApiError;
use crate::errors::AuthError;
use crate::models::NewSession;
use crate::models::Session;
use crate::models::session_requires_reauth;
use crate::models::spec_requires_reauth;
use crate::models::ts_wf;
use crate::primitives::b64url_decode_of;
use crate::primitives::blake3_of;
use crate::store::has_session_with_hash;
use crate::store::Store;
use crate::token::SessionToken;
use crate::ACCESS_EXPIRY_SECS;
use crate::MAX_SESSIONS_PER_USER;
use crate::SESSION_FORCED_EXPIRY_SECS;

verus! {

/// A session the pruning pass may delete: it belongs to the user and is not
/// the explicitly kept one.
pub open spec fn is_prunable(s: Session, user_id: i32, keep: Option<i32>) -> bool {
    s.user_id == user_id && (keep matches Some(k) ==> s.id != k)
}

/// How many sessions the pruning pass may delete.
pub open spec fn count_prunable(sessions: Seq<Session>, user_id: i32, keep: Option<i32>) -> nat
    decreases sessions.len(),
{
    if sessions.len() == 0 {
        0
    } else {
        count_prunable(sessions.drop_last(), user_id, keep) + (
        if is_prunable(sessions.last(), user_id, keep) {
            1nat
        } else {
            0nat
        })
    }
}

/// `a` was used at least as recently as `b`: later `last_used_at`, with
/// `created_at` as the tie-breaker.
pub open spec fn session_key_ge(a: Session, b: Session) -> bool {
    a.last_used_at > b.last_used_at || (a.last_used_at == b.last_used_at && a.created_at
        >= b.created_at)
}

/// Removing one element changes the prunable count by exactly its own
/// contribution.
proof fn lemma_count_prunable_remove(
    sessions: Seq<Session>,
    user_id: i32,
    keep: Option<i32>,
    m: int,
)
    requires
        0 <= m < sessions.len(),
    ensures
        count_prunable(sessions.remove(m), user_id, keep) + (if is_prunable(
            sessions[m],
            user_id,
            keep,
        ) {
            1nat
        } else {
            0nat
        }) == count_prunable(sessions, user_id, keep),
    decreases sessions.len(),
{
    if m == sessions.len() - 1 {
        assert(sessions.remove(m) =~= sessions.drop_last());
    } else {
        let prefix = sessions.drop_last();
        lemma_count_prunable_remove(prefix, user_id, keep, m);
        assert(sessions.remove(m).drop_last() =~= prefix.remove(m));
        assert(sessions.remove(m).last() == sessions.last());
    }
}

/// Counts how many sessions the pruning pass may still delete.
fn count_prunable_exec(sessions: &Vec<Session>, user_id: i32, keep: Option<i32>) -> (r: usize)
    ensures
        r == count_prunable(sessions@, user_id, keep),
{
    let mut count: usize = 0;
    let mut i: usize = 0;
    while i < sessions.len()
        invariant
            i <= sessions@.len(),
            count <= i,
            count == count_prunable(sessions@.subrange(0, i as int), user_id, keep),
        decreases sessions@.len() - i,
    {
        proof {
            assert(sessions@.subrange(0, i + 1).drop_last() =~= sessions@.subrange(0, i as int));
            assert(sessions@.subrange(0, i + 1).last() == sessions@[i as int]);
        }
        let prunable = sessions[i].user_id == user_id && (match keep {
            Some(k) => sessions[i].id != k,
            None => true,
        });
        if prunable {
            count = count + 1;
        }
        i = i + 1;
    }
    proof {
        assert(sessions@.subrange(0, sessions@.len() as int) =~= sessions@);
    }
    count
}

/// Picks the least recently used prunable session.
fn find_least_recent_prunable(sessions: &Vec<Session>, user_id: i32, keep: Option<i32>) -> (r:
    Option<usize>)
    ensures
        match r {
            Some(m) => {
                &&& m < sessions@.len()
                &&& is_prunable(sessions@[m as int], user_id, keep)
                &&& forall|j: int|
                    0 <= j < sessions@.len() && is_prunable(
                        #[trigger] sessions@[j],
                        user_id,
                        keep,
                    ) ==> session_key_ge(sessions@[j], sessions@[m as int])
            },
            None => forall|j: int|
                0 <= j < sessions@.len() ==> !is_prunable(#[trigger] sessions@[j], user_id, keep),
        },
{
    let mut best: Option<usize> = None;
    let mut i: usize = 0;
    while i < sessions.len()
        invariant
            i <= sessions@.len(),
            match best {
                Some(m) => {
                    &&& m < i
                    &&& is_prunable(sessions@[m as int], user_id, keep)
                    &&& forall|j: int|
                        0 <= j < i && is_prunable(#[trigger] sessions@[j], user_id, keep)
                            ==> session_key_ge(sessions@[j], sessions@[m as int])
                },
                None => forall|j: int|
                    0 <= j < i ==> !is_prunable(#[trigger] sessions@[j], user_id, keep),
            },
        decreases sessions@.len() - i,
    {
        let prunable = sessions[i].user_id == user_id && (match keep {
            Some(k) => sessions[i].id != k,
            None => true,
        });
        if prunable {
            let lower = match best {
                Some(m) =>
                    sessions[i].last_used_at < sessions[m].last_used_at || (
                    sessions[i].last_used_at == sessions[m].last_used_at && sessions[i].created_at
                        < sessions[m].created_at),
                None => true,
            };
            if lower {
                best = Some(i);
            }
        }
        i = i + 1;
    }
    best
}

/// Deletes this user's least recently used sessions until at most the cap
/// remains, never touching other accounts' sessions nor the explicitly kept
/// one. Best-effort hygiene after session creation, not a security boundary.
/// Returns the number of deleted sessions.
#[verifier::rlimit(80)]
pub fn prune_excess_sessions(
    store: &mut Store,
    target_user_id: i32,
    keep_session_id: Option<i32>,
) -> (r: usize)
    requires
        old(store).wf(),
    ensures
        final(store).wf(),
        final(store).users == old(store).users,
        final(store).recovery_codes == old(store).recovery_codes,
        final(store).next_session_id == old(store).next_session_id,
        forall|i: int|
            0 <= i < final(store).sessions@.len() ==> old(store).sessions@.contains(
                #[trigger] final(store).sessions@[i],
            ),
        forall|j: int|
            0 <= j < old(store).sessions@.len() && !is_prunable(
                #[trigger] old(store).sessions@[j],
                target_user_id,
                keep_session_id,
            ) ==> final(store).sessions@.contains(old(store).sessions@[j]),
        count_prunable(final(store).sessions@, target_user_id, keep_session_id) == spec_allowed(
            count_prunable(old(store).sessions@, target_user_id, keep_session_id),
            keep_session_id,
        ),
        forall|i: int, j: int|
            0 <= i < final(store).sessions@.len() && 0 <= j < old(store).sessions@.len()
                && is_prunable(#[trigger] final(store).sessions@[i], target_user_id, keep_session_id)
                && is_prunable(#[trigger] old(store).sessions@[j], target_user_id, keep_session_id)
                && !final(store).sessions@.contains(old(store).sessions@[j]) ==> session_key_ge(
                final(store).sessions@[i],
                old(store).sessions@[j],
            ),
        r + count_prunable(final(store).sessions@, target_user_id, keep_session_id)
            == count_prunable(old(store).sessions@, target_user_id, keep_session_id),
{
    let allowed: usize = match keep_session_id {
        Some(_) => MAX_SESSIONS_PER_USER - 1,
        None => MAX_SESSIONS_PER_USER,
    };
    let initial = count_prunable_exec(&store.sessions, target_user_id, keep_session_id);
    proof {
        lemma_count_prunable_le_len(old(store).sessions@, target_user_id, keep_session_id);
    }
    loop
        invariant
            old(store).wf(),
            count_prunable(old(store).sessions@, target_user_id, keep_session_id) <= old(
                store,
            ).sessions@.len(),
            store.wf(),
            store.users == old(store).users,
            store.recovery_codes == old(store).recovery_codes,
            store.next_session_id == old(store).next_session_id,
            store.next_user_id == old(store).next_user_id,
            store.next_code_id == old(store).next_code_id,
            allowed == (if keep_session_id is Some {
                MAX_SESSIONS_PER_USER - 1
            } else {
                MAX_SESSIONS_PER_USER as int
            }),
            forall|i: int|
                0 <= i < store.sessions@.len() ==> old(store).sessions@.contains(
                    #[trigger] store.sessions@[i],
                ),
            forall|j: int|
                0 <= j < old(store).sessions@.len() && !is_prunable(
                    #[trigger] old(store).sessions@[j],
                    target_user_id,
                    keep_session_id,
                ) ==> store.sessions@.contains(old(store).sessions@[j]),
            forall|i: int, j: int|
                0 <= i < store.sessions@.len() && 0 <= j < old(store).sessions@.len()
                    && is_prunable(#[trigger] store.sessions@[i], target_user_id, keep_session_id)
                    && is_prunable(
                    #[trigger] old(store).sessions@[j],
                    target_user_id,
                    keep_session_id,
                ) && !store.sessions@.contains(old(store).sessions@[j]) ==> session_key_ge(
                    store.sessions@[i],
                    old(store).sessions@[j],
                ),
            initial == count_prunable(old(store).sessions@, target_user_id, keep_session_id),
            count_prunable(store.sessions@, target_user_id, keep_session_id) <= initial,
            count_prunable(store.sessions@, target_user_id, keep_session_id) >= spec_allowed(
                count_prunable(old(store).sessions@, target_user_id, keep_session_id),
                keep_session_id,
            ),
        ensures
            count_prunable(store.sessions@, target_user_id, keep_session_id) == spec_allowed(
                count_prunable(old(store).sessions@, target_user_id, keep_session_id),
                keep_session_id,
            ),
        decreases count_prunable(store.sessions@, target_user_id, keep_session_id),
    {
        let count = count_prunable_exec(&store.sessions, target_user_id, keep_session_id);
        if count <= allowed {
            break ;
        }
        let m = match find_least_recent_prunable(&store.sessions, target_user_id, keep_session_id) {
            Some(m) => m,
            None => {
                proof {
                    assert(count_prunable(store.sessions@, target_user_id, keep_session_id) == 0)
                        by {
                        lemma_count_prunable_none(
                            store.sessions@,
                            target_user_id,
                            keep_session_id,
                        );
                    }
                    assert(false);
                }
                break ;
            },
        };
        let ghost s_before = store.sessions@;
        let ghost victim = store.sessions@[m as int];
        store.sessions.remove(m);
        proof {
            lemma_count_prunable_remove(s_before, target_user_id, keep_session_id, m as int);
            lemma_remove_keeps_store_wf(s_before, store.sessions@, m as int, store.next_session_id);
            assert forall|i: int|
                0 <= i < store.sessions@.len() implies old(store).sessions@.contains(
                #[trigger] store.sessions@[i]) by {
                if i < m {
                    assert(store.sessions@[i] == s_before[i]);
                } else {
                    assert(store.sessions@[i] == s_before[i + 1]);
                }
            }
            assert forall|j: int|
                0 <= j < old(store).sessions@.len() && !is_prunable(
                    #[trigger] old(store).sessions@[j],
                    target_user_id,
                    keep_session_id,
                ) implies store.sessions@.contains(old(store).sessions@[j]) by {
                assert(s_before.contains(old(store).sessions@[j]));
                let w = choose|w: int|
                    0 <= w < s_before.len() && s_before[w] == old(store).sessions@[j];
                assert(w != m);
                if w < m {
                    assert(store.sessions@[w] == s_before[w]);
                } else {
                    assert(store.sessions@[w - 1] == s_before[w]);
                }
            }
            assert forall|i: int, j: int|
                0 <= i < store.sessions@.len() && 0 <= j < old(store).sessions@.len()
                    && is_prunable(#[trigger] store.sessions@[i], target_user_id, keep_session_id)
                    && is_prunable(
                    #[trigger] old(store).sessions@[j],
                    target_user_id,
                    keep_session_id,
                ) && !store.sessions@.contains(old(store).sessions@[j]) implies session_key_ge(
                store.sessions@[i],
                old(store).sessions@[j],
            ) by {
                let x = store.sessions@[i];
                assert(s_before.contains(x)) by {
                    if i < m {
                        assert(x == s_before[i]);
                    } else {
                        assert(x == s_before[i + 1]);
                    }
                }
                let xw = choose|xw: int| 0 <= xw < s_before.len() && s_before[xw] == x;
                if s_before.contains(old(store).sessions@[j]) {
                    let w = choose|w: int|
                        0 <= w < s_before.len() && s_before[w] == old(store).sessions@[j];
                    assert forall|q: int|
                        0 <= q < store.sessions@.len() implies store.sessions@[q] != s_before[w] by {
                        if q < m {
                            assert(store.sessions@[q] == s_before[q]);
                        } else {
                            assert(store.sessions@[q] == s_before[q + 1]);
                        }
                    }
                    assert(s_before[w] == victim) by {
                        if w != m {
                            if w < m {
                                assert(store.sessions@[w] == s_before[w]);
                                assert(store.sessions@.contains(s_before[w]));
                            } else {
                                assert(store.sessions@[w - 1] == s_before[w]);
                                assert(store.sessions@.contains(s_before[w]));
                            }
                        }
                    }
                    assert(session_key_ge(s_before[xw], victim));
                } else {
                    assert(session_key_ge(s_before[xw], old(store).sessions@[j]));
                }
            }
        }
    }
    let remaining = count_prunable_exec(&store.sessions, target_user_id, keep_session_id);
    initial - remaining
}

/// The prunable count the pass leaves behind: the cap where it applies, the
/// previous count where it was already within bounds.
pub open spec fn spec_allowed(total: nat, keep: Option<i32>) -> nat {
    let cap: nat = if keep is Some {
        (MAX_SESSIONS_PER_USER - 1) as nat
    } else {
        MAX_SESSIONS_PER_USER as nat
    };
    if total <= cap {
        total
    } else {
        cap
    }
}

/// The prunable count never exceeds the table's length.
proof fn lemma_count_prunable_le_len(sessions: Seq<Session>, user_id: i32, keep: Option<i32>)
    ensures
        count_prunable(sessions, user_id, keep) <= sessions.len(),
    decreases sessions.len(),
{
    if sessions.len() > 0 {
        lemma_count_prunable_le_len(sessions.drop_last(), user_id, keep);
    }
}

/// A table with no prunable session has a prunable count of zero.
proof fn lemma_count_prunable_none(sessions: Seq<Session>, user_id: i32, keep: Option<i32>)
    requires
        forall|j: int| 0 <= j < sessions.len() ==> !is_prunable(#[trigger] sessions[j], user_id, keep),
    ensures
        count_prunable(sessions, user_id, keep) == 0,
    decreases sessions.len(),
{
    if sessions.len() > 0 {
        let prefix = sessions.drop_last();
        assert(forall|j: int| 0 <= j < prefix.len() ==> prefix[j] == sessions[j]);
        lemma_count_prunable_none(prefix, user_id, keep);
        assert(sessions[sessions.len() - 1] == sessions.last());
    }
}

/// Removing a row keeps ids unique and rows well formed.
proof fn lemma_remove_keeps_store_wf(
    s0: Seq<Session>,
    s1: Seq<Session>,
    m: int,
    next_session_id: i32,
)
    requires
        0 <= m < s0.len(),
        s1 == s0.remove(m),
        forall|j: int| 0 <= j < s0.len() ==> (#[trigger] s0[j]).wf(),
        forall|j: int| 0 <= j < s0.len() ==> 1 <= (#[trigger] s0[j]).id < next_session_id,
        forall|j: int, k: int|
            0 <= j < k < s0.len() ==> (#[trigger] s0[j]).id != (#[trigger] s0[k]).id,
    ensures
        forall|j: int| 0 <= j < s1.len() ==> (#[trigger] s1[j]).wf(),
        forall|j: int| 0 <= j < s1.len() ==> 1 <= (#[trigger] s1[j]).id < next_session_id,
        forall|j: int, k: int|
            0 <= j < k < s1.len() ==> (#[trigger] s1[j]).id != (#[trigger] s1[k]).id,
{
    assert forall|j: int| 0 <= j < s1.len() implies (#[trigger] s1[j]).wf() && 1 <= s1[j].id
        < next_session_id by {
        if j < m {
            assert(s1[j] == s0[j]);
        } else {
            assert(s1[j] == s0[j + 1]);
        }
    }
    assert forall|j: int, k: int|
        0 <= j < k < s1.len() implies (#[trigger] s1[j]).id != (#[trigger] s1[k]).id by {
        if j < m {
            assert(s1[j] == s0[j]);
        } else {
            assert(s1[j] == s0[j + 1]);
        }
        if k < m {
            assert(s1[k] == s0[k]);
        } else {
            assert(s1[k] == s0[k + 1]);
        }
    }
}


/// Rotates a session: replaces its token hash and device metadata and
/// advances `refreshed_at` and `last_used_at`; `last_authenticated_at`
/// advances only when credentials were re-verified (`do_reauth`). The update
/// is guarded on the token hash the caller's snapshot holds: if another
/// request rotated the session first, nothing changes and the rotation fails
/// with `SessionMismatch`, so no cookies are ever issued for a token that is
/// not stored.
pub fn rotate_session(
    store: &mut Store,
    session: &Session,
    do_reauth: bool,
    device_id: String,
    device_name: Option<String>,
    ip_address: Option<String>,
    now: i64,
) -> (r: Result<(Session, SessionToken), ApiError>)
    requires
        old(store).wf(),
        session.wf(),
        ts_wf(now),
    ensures
        final(store).wf(),
        final(store).users == old(store).users,
        final(store).recovery_codes == old(store).recovery_codes,
        final(store).next_session_id == old(store).next_session_id,
        (r is Ok) <==> (exists|i: int|
            0 <= i < old(store).sessions@.len() && (#[trigger] old(store).sessions@[i]).id
                == session.id && old(store).sessions@[i].token_hash@ == session.token_hash@),
        match r {
            Ok((rotated, token)) => {
                &&& rotated.id == session.id
                &&& rotated.user_id == session.user_id
                &&& rotated.token_hash@ == blake3_of(token@)
                &&& rotated.device_id@ == device_id@
                &&& rotated.created_at == session.created_at
                &&& rotated.refreshed_at == now
                &&& rotated.last_used_at == now
                &&& rotated.last_authenticated_at == (if do_reauth {
                    now
                } else {
                    session.last_authenticated_at
                })
                &&& exists|i: int|
                    {
                        &&& 0 <= i < old(store).sessions@.len()
                        &&& (#[trigger] old(store).sessions@[i]).id == session.id
                        &&& old(store).sessions@[i].token_hash@ == session.token_hash@
                        &&& final(store).sessions@ == old(store).sessions@.update(i, rotated)
                    }
            },
            Err(e) => {
                &&& e == ApiError::Auth(AuthError::SessionMismatch)
                &&& final(store).sessions == old(store).sessions
            },
        },
{
    let token = SessionToken::generate();
    let hashed_token = token.to_hash();
    let mut rotated = session.rotate(hashed_token, device_id, device_name, ip_address, now);
    if do_reauth {
        rotated.last_authenticated_at = now;
    }
    let row = rotated.duplicate();
    let updated = store.update_session_guarded(session.id, &session.token_hash, row);
    if updated {
        Ok((rotated, token))
    } else {
        Err(ApiError::Auth(AuthError::SessionMismatch))
    }
}

/// Creates a fresh session for the user at `now` and prunes the account's
/// oldest sessions beyond the cap, never deleting the session just created.
/// Hands back the stored row and the raw token for the client.
pub fn create_session(
    store: &mut Store,
    user_id: i32,
    device_id: String,
    device_name: Option<String>,
    ip_address: Option<String>,
    now: i64,
) -> (r: Result<(Session, SessionToken), ApiError>)
    requires
        old(store).wf(),
        ts_wf(now),
    ensures
        final(store).wf(),
        final(store).users == old(store).users,
        final(store).recovery_codes == old(store).recovery_codes,
        match r {
            Ok((s, token)) => {
                &&& s.user_id == user_id
                &&& s.token_hash@ == blake3_of(token@)
                &&& s.device_id@ == device_id@
                &&& s.created_at == now
                &&& s.refreshed_at == now
                &&& s.last_used_at == now
                &&& s.last_authenticated_at == now
                &&& final(store).sessions@.contains(s)
                &&& forall|i: int|
                    0 <= i < final(store).sessions@.len() ==> (old(store).sessions@.contains(
                        #[trigger] final(store).sessions@[i],
                    ) || final(store).sessions@[i] == s)
                &&& forall|j: int|
                    0 <= j < old(store).sessions@.len() && (
                    #[trigger] old(store).sessions@[j]).user_id != user_id ==> final(
                        store
                    ).sessions@.contains(old(store).sessions@[j])
                &&& count_prunable(final(store).sessions@, user_id, Some(s.id))
                    <= MAX_SESSIONS_PER_USER - 1
            },
            Err(e) => {
                &&& e == ApiError::Internal
                &&& final(store).sessions == old(store).sessions
            },
        },
        (r is Err) <==> old(store).next_session_id == i32::MAX,
{
    let token = SessionToken::generate();
    let token_hash = token.to_hash();
    let new_session = NewSession::new(
        user_id,
        token_hash,
        device_id,
        device_name,
        ip_address,
        now,
    );
    let session = match store.insert_session(new_session) {
        Ok(s) => s,
        Err(e) => {
            return Err(e);
        },
    };
    let ghost mid = store.sessions@;
    proof {
        assert(mid == old(store).sessions@.push(session));
        assert(mid[mid.len() - 1] == session);
        assert(mid.contains(session));
    }
    prune_excess_sessions(store, user_id, Some(session.id));
    proof {
        assert(!is_prunable(session, user_id, Some(session.id)));
        assert(final(store).sessions@.contains(session)) by {
            assert(mid[mid.len() - 1] == session);
        }
        assert forall|i: int|
            0 <= i < store.sessions@.len() implies (old(store).sessions@.contains(
            #[trigger] store.sessions@[i]) || store.sessions@[i] == session) by {
            assert(mid.contains(store.sessions@[i]));
            let w = choose|w: int| 0 <= w < mid.len() && mid[w] == store.sessions@[i];
            if w < old(store).sessions@.len() {
                assert(old(store).sessions@[w] == mid[w]);
                assert(old(store).sessions@.contains(mid[w]));
            }
        }
        assert forall|j: int|
            0 <= j < old(store).sessions@.len() && (#[trigger] old(store).sessions@[j]).user_id
                != user_id implies store.sessions@.contains(old(store).sessions@[j]) by {
            assert(mid[j] == old(store).sessions@[j]);
            assert(!is_prunable(mid[j], user_id, Some(session.id)));
        }
    }
    Ok((session, token))
}

/// Loads the session a presented cookie value identifies: decodes the opaque
/// token, hashes it, and looks the hash up. With `enforce_reauth` set, a
/// session whose rolling or forced window elapsed is rejected with
/// `NeedReauth` instead of being handed out; the endpoint that performs
/// reauthentication passes false, so it stays reachable.
pub fn session_hoop_inner(store: &Store, cookie_value: &str, enforce_reauth: bool, now: i64) -> (r:
    Result<Session, ApiError>)
    requires
        store.wf(),
        ts_wf(now),
    ensures
        match r {
            Ok(s) => {
                &&& store.sessions@.contains(s)
                &&& s.wf()
                &&& (exists|t: Seq<u8>|
                    b64url_decode_of(cookie_value@) == Some(t) && s.token_hash@ == blake3_of(t))
                &&& (enforce_reauth ==> !spec_requires_reauth(s, now))
            },
            Err(ApiError::Auth(AuthError::InvalidSessionToken)) => {
                ||| b64url_decode_of(cookie_value@) is None
                ||| (b64url_decode_of(cookie_value@) matches Some(t) && t.len() != 32)
            },
            Err(ApiError::Auth(AuthError::SessionNotFound)) => (exists|t: Seq<u8>|
                b64url_decode_of(cookie_value@) == Some(t) && !has_session_with_hash(
                    store.sessions@,
                    blake3_of(t),
                )),
            Err(ApiError::Auth(AuthError::NeedReauth)) => {
                &&& enforce_reauth
                &&& (exists|s: Session, t: Seq<u8>|
                    {
                        &&& store.sessions@.contains(s)
                        &&& b64url_decode_of(cookie_value@) == Some(t)
                        &&& s.token_hash@ == blake3_of(t)
                        &&& spec_requires_reauth(s, now)
                    })
            },
            Err(_) => false,
        },
{
    let session_token = match SessionToken::try_from(cookie_value) {
        Ok(t) => t,
        Err(_) => {
            return Err(ApiError::Auth(AuthError::InvalidSessionToken));
        },
    };
    let hash = session_token.to_hash();
    let session = match store.find_session_by_token_hash(&hash) {
        Some(s) => s,
        None => {
            return Err(ApiError::Auth(AuthError::SessionNotFound));
        },
    };
    if enforce_reauth && session_requires_reauth(&session, now) {
        return Err(ApiError::Auth(AuthError::NeedReauth));
    }
    Ok(session)
}

/// Session facts reported to the client: identity, device metadata, and the
/// instants until which the current access claim and the login stay valid.
#[derive(Debug, Clone)]
pub struct SessionInfo {
    pub session_id: i32,
    pub user_id: i32,
    pub device_name: Option<String>,
    pub ip_address: Option<String>,
    pub created_at: i64,
    pub last_used_at: i64,
    pub jwt_valid_until: i64,
    pub logged_in_until: i64,
}

impl SessionInfo {
    /// Reports a session row to the client.
    pub fn from_session(session: &Session) -> (r: SessionInfo)
        requires
            session.wf(),
        ensures
            r.session_id == session.id,
            r.user_id == session.user_id,
            r.device_name == session.device_name,
            r.ip_address == session.ip_address,
            r.created_at == session.created_at,
            r.last_used_at == session.last_used_at,
            r.jwt_valid_until == session.refreshed_at + ACCESS_EXPIRY_SECS,
            r.logged_in_until == session.last_authenticated_at + SESSION_FORCED_EXPIRY_SECS,
    {
        let cutoffs = crate::models::session_requires_reauth_at(session);
        SessionInfo {
            session_id: session.id,
            user_id: session.user_id,
            device_name: crate::models::clone_opt_string(&session.device_name),
            ip_address: crate::models::clone_opt_string(&session.ip_address),
            created_at: session.created_at,
            last_used_at: session.last_used_at,
            jwt_valid_until: session.refreshed_at + ACCESS_EXPIRY_SECS,
            logged_in_until: cutoffs.1,
        }
    }
}

/// Law: a rotation never survives a replay. Once a session row was replaced
/// by a rotation whose new token hash differs from the superseded one, no
/// row matches the superseded (id, token hash) pair any more, so a second
/// rotation presenting it fails with `SessionMismatch`.
pub proof fn lemma_stale_rotation_fails(
    s0: Seq<Session>,
    s1: Seq<Session>,
    i: int,
    snapshot: Session,
    rotated: Session,
)
    requires
        forall|j: int, k: int|
            0 <= j < k < s0.len() ==> (#[trigger] s0[j]).id != (#[trigger] s0[k]).id,
        0 <= i < s0.len(),
        s0[i].id == snapshot.id,
        rotated.id == snapshot.id,
        rotated.token_hash@ != snapshot.token_hash@,
        s1 == s0.update(i, rotated),
    ensures
        !(exists|j: int|
            0 <= j < s1.len() && (#[trigger] s1[j]).id == snapshot.id && s1[j].token_hash@
                == snapshot.token_hash@),
{
    assert forall|j: int|
        0 <= j < s1.len() implies !((#[trigger] s1[j]).id == snapshot.id && s1[j].token_hash@
        == snapshot.token_hash@) by {
        if j != i {
            assert(s1[j] == s0[j]);
            if j < i {
                assert(s0[j].id != s0[i].id);
            }
            if j > i {
                assert(s0[i].id != s0[j].id);
            }
        }
    }
}

/// Law: logout is terminal. Forcing `last_authenticated_at` to the epoch
/// makes the session require reauthentication at every instant from the
/// forced window onward, so a subsequent refresh rotation is rejected with
/// `NeedReauth` before it reaches the store.
pub proof fn lemma_logout_forces_reauth(s: Session, now: i64)
    requires
        s.last_authenticated_at == 0,
        now >= SESSION_FORCED_EXPIRY_SECS,
    ensures
        spec_requires_reauth(s, now),
{
}

} // verus!
