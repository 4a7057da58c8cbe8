//! The credential store the core runs against: three row collections with
//! the atomic single-row operations the engines need — fetch by id or
//! filter, conditional update returning the affected-row count, and
//! insert-returning-row. Row ids are unique and grow monotonically;
//! emails and nicknames are unique across accounts.

use vstd::prelude::*;

use crate::errors::ApiError;
use crate::models::NewSession;
use crate::models::NewTwoFaRecoveryCode;
use crate::models::NewUser;
use crate::models::Session;
use crate::models::TwoFaRecoveryCode;
use crate::models::ts_wf;
use crate::models::User;
use crate::token::SessionTokenHash;

verus! {

/// The store: users, sessions, and recovery codes, with their id counters.
#[derive(Debug)]
pub struct Store {
    pub users: Vec<User>,
    pub sessions: Vec<Session>,
    pub recovery_codes: Vec<TwoFaRecoveryCode>,
    pub next_user_id: i32,
    pub next_session_id: i32,
    pub next_code_id: i32,
}

/// Some account in `users` holds this email.
pub open spec fn has_user_with_email(users: Seq<User>, email: Seq<char>) -> bool {
    exists|i: int| 0 <= i < users.len() && (#[trigger] users[i]).email@ == email
}

/// Some account in `users` holds this nickname.
pub open spec fn has_user_with_nickname(users: Seq<User>, nickname: Seq<char>) -> bool {
    exists|i: int| 0 <= i < users.len() && (#[trigger] users[i]).nickname@ == nickname
}

/// Some account in `users` holds this id.
pub open spec fn has_user_with_id(users: Seq<User>, id: i32) -> bool {
    exists|i: int| 0 <= i < users.len() && (#[trigger] users[i]).id == id
}

/// Some session in `sessions` holds this id.
pub open spec fn has_session_with_id(sessions: Seq<Session>, id: i32) -> bool {
    exists|i: int| 0 <= i < sessions.len() && (#[trigger] sessions[i]).id == id
}

/// Some session holds this token hash.
pub open spec fn has_session_with_hash(sessions: Seq<Session>, hash: Seq<u8>) -> bool {
    exists|i: int| 0 <= i < sessions.len() && (#[trigger] sessions[i]).token_hash@ == hash
}

/// Some session belongs to this user and device.
pub open spec fn has_session_for_device(
    sessions: Seq<Session>,
    user_id: i32,
    device_id: Seq<char>,
) -> bool {
    exists|i: int|
        0 <= i < sessions.len() && (#[trigger] sessions[i]).user_id == user_id
            && sessions[i].device_id@ == device_id
}

impl Store {
    /// Invariant of the user table: rows well formed, ids unique and below
    /// the counter, emails and nicknames unique.
    pub open spec fn users_wf(&self) -> bool {
        &&& 1 <= self.next_user_id
        &&& forall|i: int| 0 <= i < self.users@.len() ==> (#[trigger] self.users@[i]).wf()
        &&& forall|i: int|
            0 <= i < self.users@.len() ==> 1 <= (#[trigger] self.users@[i]).id
                < self.next_user_id
        &&& forall|i: int, j: int|
            0 <= i < j < self.users@.len() ==> (#[trigger] self.users@[i]).id
                != (#[trigger] self.users@[j]).id
        &&& forall|i: int, j: int|
            0 <= i < j < self.users@.len() ==> (#[trigger] self.users@[i]).email@
                != (#[trigger] self.users@[j]).email@
        &&& forall|i: int, j: int|
            0 <= i < j < self.users@.len() ==> (#[trigger] self.users@[i]).nickname@
                != (#[trigger] self.users@[j]).nickname@
    }

    /// Invariant of the session table: rows well formed, ids unique and
    /// below the counter.
    pub open spec fn sessions_wf(&self) -> bool {
        &&& 1 <= self.next_session_id
        &&& forall|i: int| 0 <= i < self.sessions@.len() ==> (#[trigger] self.sessions@[i]).wf()
        &&& forall|i: int|
            0 <= i < self.sessions@.len() ==> 1 <= (#[trigger] self.sessions@[i]).id
                < self.next_session_id
        &&& forall|i: int, j: int|
            0 <= i < j < self.sessions@.len() ==> (#[trigger] self.sessions@[i]).id
                != (#[trigger] self.sessions@[j]).id
    }

    /// Invariant of the recovery-code table: rows well formed, ids unique
    /// and below the counter.
    pub open spec fn codes_wf(&self) -> bool {
        &&& 1 <= self.next_code_id
        &&& forall|i: int|
            0 <= i < self.recovery_codes@.len() ==> ts_wf(
                (#[trigger] self.recovery_codes@[i]).created_at,
            ) && (self.recovery_codes@[i].used_at matches Some(t) ==> ts_wf(t))
        &&& forall|i: int|
            0 <= i < self.recovery_codes@.len() ==> 1 <= (#[trigger] self.recovery_codes@[i]).id
                < self.next_code_id
        &&& forall|i: int, j: int|
            0 <= i < j < self.recovery_codes@.len() ==> (#[trigger] self.recovery_codes@[i]).id
                != (#[trigger] self.recovery_codes@[j]).id
    }

    /// The store invariant.
    pub open spec fn wf(&self) -> bool {
        self.users_wf() && self.sessions_wf() && self.codes_wf()
    }

    /// An empty store.
    pub fn new() -> (r: Store)
        ensures
            r.wf(),
            r.users@.len() == 0,
            r.sessions@.len() == 0,
            r.recovery_codes@.len() == 0,
    {
        Store {
            users: Vec::new(),
            sessions: Vec::new(),
            recovery_codes: Vec::new(),
            next_user_id: 1,
            next_session_id: 1,
            next_code_id: 1,
        }
    }

    /// Inserts an account and returns the stored row. Fails with `Conflict`
    /// when the email or nickname is already taken, leaving the store
    /// unchanged.
    pub fn insert_user(&mut self, new_user: NewUser) -> (r: Result<User, ApiError>)
        requires
            old(self).wf(),
            ts_wf(new_user.created_at),
            new_user.totp_confirmed_at matches Some(t) ==> ts_wf(t),
        ensures
            final(self).wf(),
            final(self).sessions == old(self).sessions,
            final(self).recovery_codes == old(self).recovery_codes,
            final(self).next_session_id == old(self).next_session_id,
            final(self).next_code_id == old(self).next_code_id,
            match r {
                Ok(u) => {
                    &&& !has_user_with_email(old(self).users@, new_user.email@)
                    &&& !has_user_with_nickname(old(self).users@, new_user.nickname@)
                    &&& u.id == old(self).next_user_id
                    &&& u.email@ == new_user.email@
                    &&& u.nickname@ == new_user.nickname@
                    &&& u.totp_enabled == new_user.totp_enabled
                    &&& u.totp_secret_enc == new_user.totp_secret_enc
                    &&& u.totp_confirmed_at == new_user.totp_confirmed_at
                    &&& u.password_hash@ == new_user.password_hash@
                    &&& u.created_at == new_user.created_at
                    &&& final(self).users@ == old(self).users@.push(u)
                    &&& final(self).next_user_id == old(self).next_user_id + 1
                },
                Err(e) => {
                    &&& final(self).users == old(self).users
                    &&& final(self).next_user_id == old(self).next_user_id
                    &&& (e == ApiError::Conflict <==> (has_user_with_email(
                        old(self).users@,
                        new_user.email@,
                    ) || has_user_with_nickname(old(self).users@, new_user.nickname@)))
                    &&& (e == ApiError::Conflict || e == ApiError::Internal)
                    &&& (e == ApiError::Internal ==> old(self).next_user_id == i32::MAX)
                },
            },
            (!has_user_with_email(old(self).users@, new_user.email@) && !has_user_with_nickname(
                old(self).users@,
                new_user.nickname@,
            ) && old(self).next_user_id < i32::MAX) ==> r is Ok,
    {
        let mut i: usize = 0;
        while i < self.users.len()
            invariant
                *self == *old(self),
                old(self).wf(),
                i <= self.users@.len(),
                forall|j: int|
                    0 <= j < i ==> (#[trigger] self.users@[j]).email@ != new_user.email@
                        && self.users@[j].nickname@ != new_user.nickname@,
            decreases self.users@.len() - i,
        {
            if string_eq(&self.users[i].email, &new_user.email) || string_eq(
                &self.users[i].nickname,
                &new_user.nickname,
            ) {
                return Err(ApiError::Conflict);
            }
            i = i + 1;
        }
        if self.next_user_id == i32::MAX {
            return Err(ApiError::Internal);
        }
        let user = User {
            id: self.next_user_id,
            email: new_user.email,
            nickname: new_user.nickname,
            totp_enabled: new_user.totp_enabled,
            totp_secret_enc: new_user.totp_secret_enc,
            totp_confirmed_at: new_user.totp_confirmed_at,
            password_hash: new_user.password_hash,
            created_at: new_user.created_at,
            avatar_url: new_user.avatar_url,
        };
        let stored = user.duplicate();
        self.users.push(user);
        self.next_user_id = self.next_user_id + 1;
        Ok(stored)
    }

    /// Fetches the account with this id, if any.
    pub fn find_user_by_id(&self, id: i32) -> (r: Option<User>)
        requires
            self.wf(),
        ensures
            match r {
                Some(u) => self.users@.contains(u) && u.id == id,
                None => !has_user_with_id(self.users@, id),
            },
    {
        let mut i: usize = 0;
        while i < self.users.len()
            invariant
                i <= self.users@.len(),
                forall|j: int| 0 <= j < i ==> (#[trigger] self.users@[j]).id != id,
            decreases self.users@.len() - i,
        {
            if self.users[i].id == id {
                let u = self.users[i].duplicate();
                proof {
                    assert(self.users@.contains(self.users@[i as int]));
                }
                return Some(u);
            }
            i = i + 1;
        }
        None
    }

    /// Fetches the account with this email, if any.
    pub fn find_user_by_email(&self, email: &String) -> (r: Option<User>)
        requires
            self.wf(),
        ensures
            match r {
                Some(u) => self.users@.contains(u) && u.email@ == email@,
                None => !has_user_with_email(self.users@, email@),
            },
    {
        let mut i: usize = 0;
        while i < self.users.len()
            invariant
                i <= self.users@.len(),
                forall|j: int| 0 <= j < i ==> (#[trigger] self.users@[j]).email@ != email@,
            decreases self.users@.len() - i,
        {
            if string_eq(&self.users[i].email, email) {
                let u = self.users[i].duplicate();
                proof {
                    assert(self.users@.contains(self.users@[i as int]));
                }
                return Some(u);
            }
            i = i + 1;
        }
        None
    }
}


/// A session row after logout: `last_authenticated_at` forced to the epoch,
/// which makes every subsequent reauth check fail.
pub open spec fn spec_deauthed(s: Session) -> Session {
    Session { last_authenticated_at: 0, ..s }
}

/// How many sessions of this user stand in `ids`.
pub open spec fn count_deauth_targets(sessions: Seq<Session>, user_id: i32, ids: Seq<i32>) -> nat
    decreases sessions.len(),
{
    if sessions.len() == 0 {
        0
    } else {
        count_deauth_targets(sessions.drop_last(), user_id, ids) + (
        if sessions.last().user_id == user_id && ids.contains(sessions.last().id) {
            1nat
        } else {
            0nat
        })
    }
}

/// The session table after deleting this user's rows whose ids stand in
/// `ids`; other rows keep their order.
pub open spec fn spec_without(sessions: Seq<Session>, user_id: i32, ids: Seq<i32>) -> Seq<Session>
    decreases sessions.len(),
{
    if sessions.len() == 0 {
        Seq::empty()
    } else {
        let rest = spec_without(sessions.drop_last(), user_id, ids);
        if sessions.last().user_id == user_id && ids.contains(sessions.last().id) {
            rest
        } else {
            rest.push(sessions.last())
        }
    }
}

/// Everything `spec_without` keeps was present before, ids stay unique, and
/// rows that are not deletion targets survive.
proof fn lemma_without_preserves(sessions: Seq<Session>, user_id: i32, ids: Seq<i32>)
    ensures
        spec_without(sessions, user_id, ids).len() + count_deauth_targets(sessions, user_id, ids)
            == sessions.len(),
        forall|k: int|
            0 <= k < spec_without(sessions, user_id, ids).len() ==> sessions.contains(
                #[trigger] spec_without(sessions, user_id, ids)[k],
            ),
        forall|j: int|
            0 <= j < sessions.len() && !((#[trigger] sessions[j]).user_id == user_id
                && ids.contains(sessions[j].id)) ==> spec_without(sessions, user_id, ids).contains(
                sessions[j],
            ),
    decreases sessions.len(),
{
    if sessions.len() == 0 {
    } else {
        let prefix = sessions.drop_last();
        lemma_without_preserves(prefix, user_id, ids);
        let r = spec_without(sessions, user_id, ids);
        let rp = spec_without(prefix, user_id, ids);
        assert(forall|k: int|
            0 <= k < prefix.len() ==> prefix[k] == sessions[k] && sessions.contains(
                #[trigger] sessions[k],
            ));
        assert forall|k: int| 0 <= k < r.len() implies sessions.contains(#[trigger] r[k]) by {
            if k < rp.len() {
                assert(prefix.contains(rp[k]));
                let w = choose|w: int| 0 <= w < prefix.len() && prefix[w] == rp[k];
                assert(sessions[w] == rp[k]);
            } else {
                assert(r[k] == sessions.last());
                assert(sessions[sessions.len() - 1] == sessions.last());
            }
        }
        assert forall|j: int|
            0 <= j < sessions.len() && !((#[trigger] sessions[j]).user_id == user_id
                && ids.contains(sessions[j].id)) implies r.contains(sessions[j]) by {
            if j < prefix.len() {
                assert(prefix[j] == sessions[j]);
                assert(rp.contains(sessions[j]));
                let w = choose|w: int| 0 <= w < rp.len() && rp[w] == sessions[j];
                if sessions.last().user_id == user_id && ids.contains(sessions.last().id) {
                    assert(r[w] == sessions[j]);
                } else {
                    assert(r[w] == sessions[j]);
                }
            } else {
                assert(sessions[j] == sessions.last());
                assert(r[r.len() - 1] == sessions.last());
            }
        }
    }
}

/// Tests whether an id stands in the list.
pub fn ids_contain(ids: &Vec<i32>, id: i32) -> (r: bool)
    ensures
        r == ids@.contains(id),
{
    let mut i: usize = 0;
    while i < ids.len()
        invariant
            i <= ids@.len(),
            forall|j: int| 0 <= j < i ==> ids@[j] != id,
        decreases ids@.len() - i,
    {
        if ids[i] == id {
            return true;
        }
        i = i + 1;
    }
    false
}

/// Optional strings hold the same contents.
pub open spec fn opt_str_matches(a: Option<String>, b: Option<String>) -> bool {
    match (a, b) {
        (Some(x), Some(y)) => x@ == y@,
        (None, None) => true,
        _ => false,
    }
}

/// Compares two optional strings by contents.
pub fn opt_string_eq(a: &Option<String>, b: &Option<String>) -> (r: bool)
    ensures
        r == opt_str_matches(*a, *b),
{
    match (a, b) {
        (Some(x), Some(y)) => string_eq(x, y),
        (None, None) => true,
        _ => false,
    }
}

/// Compares two strings by contents.
pub fn string_eq(a: &String, b: &String) -> (r: bool)
    ensures
        r == (a@ == b@),
{
    *a == *b
}


impl Store {
    /// Inserts a session and returns the stored row.
    pub fn insert_session(&mut self, new_session: NewSession) -> (r: Result<Session, ApiError>)
        requires
            old(self).wf(),
            ts_wf(new_session.created_at),
            ts_wf(new_session.refreshed_at),
            ts_wf(new_session.last_used_at),
            ts_wf(new_session.last_authenticated_at),
        ensures
            final(self).wf(),
            final(self).users == old(self).users,
            final(self).recovery_codes == old(self).recovery_codes,
            final(self).next_user_id == old(self).next_user_id,
            final(self).next_code_id == old(self).next_code_id,
            match r {
                Ok(s) => {
                    &&& s.id == old(self).next_session_id
                    &&& s.user_id == new_session.user_id
                    &&& s.token_hash == new_session.token_hash
                    &&& s.device_id@ == new_session.device_id@
                    &&& opt_str_matches(s.device_name, new_session.device_name)
                    &&& opt_str_matches(s.ip_address, new_session.ip_address)
                    &&& s.created_at == new_session.created_at
                    &&& s.refreshed_at == new_session.refreshed_at
                    &&& s.last_used_at == new_session.last_used_at
                    &&& s.last_authenticated_at == new_session.last_authenticated_at
                    &&& final(self).sessions@ == old(self).sessions@.push(s)
                    &&& final(self).next_session_id == old(self).next_session_id + 1
                },
                Err(e) => {
                    &&& final(self).sessions == old(self).sessions
                    &&& final(self).next_session_id == old(self).next_session_id
                    &&& e == ApiError::Internal
                },
            },
            (r is Err) <==> old(self).next_session_id == i32::MAX,
    {
        if self.next_session_id == i32::MAX {
            return Err(ApiError::Internal);
        }
        let session = Session {
            id: self.next_session_id,
            user_id: new_session.user_id,
            token_hash: new_session.token_hash,
            device_id: new_session.device_id,
            device_name: new_session.device_name,
            ip_address: new_session.ip_address,
            created_at: new_session.created_at,
            refreshed_at: new_session.refreshed_at,
            last_used_at: new_session.last_used_at,
            last_authenticated_at: new_session.last_authenticated_at,
        };
        let stored = session.duplicate();
        self.sessions.push(session);
        self.next_session_id = self.next_session_id + 1;
        Ok(stored)
    }

    /// Fetches the session with this id, if any.
    pub fn find_session_by_id(&self, id: i32) -> (r: Option<Session>)
        requires
            self.wf(),
        ensures
            match r {
                Some(s) => self.sessions@.contains(s) && s.id == id && s.wf(),
                None => !has_session_with_id(self.sessions@, id),
            },
    {
        let mut i: usize = 0;
        while i < self.sessions.len()
            invariant
                self.wf(),
                i <= self.sessions@.len(),
                forall|j: int| 0 <= j < i ==> (#[trigger] self.sessions@[j]).id != id,
            decreases self.sessions@.len() - i,
        {
            if self.sessions[i].id == id {
                let s = self.sessions[i].duplicate();
                proof {
                    assert(self.sessions@.contains(self.sessions@[i as int]));
                }
                return Some(s);
            }
            i = i + 1;
        }
        None
    }

    /// Fetches a session holding this token hash, if any.
    pub fn find_session_by_token_hash(&self, hash: &SessionTokenHash) -> (r: Option<Session>)
        requires
            self.wf(),
        ensures
            match r {
                Some(s) => self.sessions@.contains(s) && s.token_hash@ == hash@ && s.wf(),
                None => !has_session_with_hash(self.sessions@, hash@),
            },
    {
        let mut i: usize = 0;
        while i < self.sessions.len()
            invariant
                self.wf(),
                i <= self.sessions@.len(),
                forall|j: int| 0 <= j < i ==> (#[trigger] self.sessions@[j]).token_hash@ != hash@,
            decreases self.sessions@.len() - i,
        {
            if self.sessions[i].token_hash.equals(hash) {
                let s = self.sessions[i].duplicate();
                proof {
                    assert(self.sessions@.contains(self.sessions@[i as int]));
                }
                return Some(s);
            }
            i = i + 1;
        }
        None
    }

    /// Fetches a session of this user for this device, if any.
    pub fn find_session_for_device(&self, user_id: i32, device_id: &String) -> (r: Option<Session>)
        requires
            self.wf(),
        ensures
            match r {
                Some(s) => {
                    &&& self.sessions@.contains(s)
                    &&& s.user_id == user_id
                    &&& s.device_id@ == device_id@
                    &&& s.wf()
                },
                None => !has_session_for_device(self.sessions@, user_id, device_id@),
            },
    {
        let mut i: usize = 0;
        while i < self.sessions.len()
            invariant
                self.wf(),
                i <= self.sessions@.len(),
                forall|j: int|
                    0 <= j < i ==> !((#[trigger] self.sessions@[j]).user_id == user_id
                        && self.sessions@[j].device_id@ == device_id@),
            decreases self.sessions@.len() - i,
        {
            if self.sessions[i].user_id == user_id && string_eq(
                &self.sessions[i].device_id,
                device_id,
            ) {
                let s = self.sessions[i].duplicate();
                proof {
                    assert(self.sessions@.contains(self.sessions@[i as int]));
                }
                return Some(s);
            }
            i = i + 1;
        }
        None
    }

    /// The conditional update guarding every rotation: replaces the session
    /// row only if it still holds the token hash the caller believes is
    /// current. Affecting zero rows means another request rotated first.
    pub fn update_session_guarded(
        &mut self,
        session_id: i32,
        expected_hash: &SessionTokenHash,
        rotated: Session,
    ) -> (updated: bool)
        requires
            old(self).wf(),
            rotated.id == session_id,
            rotated.wf(),
        ensures
            final(self).wf(),
            final(self).users == old(self).users,
            final(self).recovery_codes == old(self).recovery_codes,
            final(self).next_session_id == old(self).next_session_id,
            final(self).next_user_id == old(self).next_user_id,
            final(self).next_code_id == old(self).next_code_id,
            updated <==> (exists|i: int|
                0 <= i < old(self).sessions@.len() && (#[trigger] old(self).sessions@[i]).id
                    == session_id && old(self).sessions@[i].token_hash@ == expected_hash@),
            updated ==> (exists|i: int|
                {
                    &&& 0 <= i < old(self).sessions@.len()
                    &&& (#[trigger] old(self).sessions@[i]).id == session_id
                    &&& old(self).sessions@[i].token_hash@ == expected_hash@
                    &&& final(self).sessions@ == old(self).sessions@.update(i, rotated)
                }),
            !updated ==> final(self).sessions == old(self).sessions,
    {
        let mut i: usize = 0;
        while i < self.sessions.len()
            invariant
                *self == *old(self),
                old(self).wf(),
                rotated.id == session_id,
                rotated.wf(),
                i <= self.sessions@.len(),
                forall|j: int|
                    0 <= j < i ==> !((#[trigger] self.sessions@[j]).id == session_id
                        && self.sessions@[j].token_hash@ == expected_hash@),
            decreases self.sessions@.len() - i,
        {
            if self.sessions[i].id == session_id && self.sessions[i].token_hash.equals(
                expected_hash,
            ) {
                proof {
                    assert(self.sessions@[i as int].id == session_id);
                }
                self.sessions.set(i, rotated);
                proof {
                    let s0 = old(self).sessions@;
                    let s1 = self.sessions@;
                    assert(s1 =~= s0.update(i as int, rotated));
                    assert forall|j: int, k: int| 0 <= j < k < s1.len() implies (
                    #[trigger] s1[j]).id != (#[trigger] s1[k]).id by {
                        assert(s0[j].id != s0[k].id);
                        assert(s0[i as int].id == session_id);
                        if j != i {
                            assert(s1[j] == s0[j]);
                        }
                        if k != i {
                            assert(s1[k] == s0[k]);
                        }
                    }
                    assert forall|j: int| 0 <= j < s1.len() implies (#[trigger] s1[j]).wf() && 1
                        <= s1[j].id < self.next_session_id by {
                        assert(s0[j].wf() && 1 <= s0[j].id < self.next_session_id);
                        assert(s0[i as int].id == session_id);
                        if j != i {
                            assert(s1[j] == s0[j]);
                        }
                    }
                }
                return true;
            }
            i = i + 1;
        }
        false
    }
}


impl Store {
    /// Forces `last_authenticated_at` to the epoch on every session of this
    /// user whose id stands in `ids`; the logout primitive. Returns the
    /// affected-row count.
    pub fn deauth_sessions_by_ids(&mut self, user_id: i32, ids: &Vec<i32>) -> (r: usize)
        requires
            old(self).wf(),
        ensures
            final(self).wf(),
            final(self).users == old(self).users,
            final(self).recovery_codes == old(self).recovery_codes,
            final(self).next_session_id == old(self).next_session_id,
            final(self).next_user_id == old(self).next_user_id,
            final(self).next_code_id == old(self).next_code_id,
            final(self).sessions@.len() == old(self).sessions@.len(),
            forall|j: int|
                0 <= j < old(self).sessions@.len() ==> final(self).sessions@[j] == (
                if (#[trigger] old(self).sessions@[j]).user_id == user_id && ids@.contains(
                    old(self).sessions@[j].id,
                ) {
                    spec_deauthed(old(self).sessions@[j])
                } else {
                    old(self).sessions@[j]
                }),
            r == count_deauth_targets(old(self).sessions@, user_id, ids@),
    {
        let ghost s0 = self.sessions@;
        let mut count: usize = 0;
        let mut i: usize = 0;
        while i < self.sessions.len()
            invariant
                old(self).wf(),
                s0 == old(self).sessions@,
                self.users == old(self).users,
                self.recovery_codes == old(self).recovery_codes,
                self.next_session_id == old(self).next_session_id,
                self.next_user_id == old(self).next_user_id,
                self.next_code_id == old(self).next_code_id,
                i <= s0.len(),
                self.sessions@.len() == s0.len(),
                count <= i,
                forall|j: int|
                    0 <= j < i ==> self.sessions@[j] == (if (#[trigger] s0[j]).user_id == user_id
                        && ids@.contains(s0[j].id) {
                        spec_deauthed(s0[j])
                    } else {
                        s0[j]
                    }),
                forall|j: int| i <= j < s0.len() ==> self.sessions@[j] == s0[j],
                count == count_deauth_targets(s0.subrange(0, i as int), user_id, ids@),
            decreases s0.len() - i,
        {
            proof {
                assert(s0.subrange(0, i + 1).drop_last() =~= s0.subrange(0, i as int));
                assert(s0.subrange(0, i + 1).last() == s0[i as int]);
            }
            if self.sessions[i].user_id == user_id && ids_contain(ids, self.sessions[i].id) {
                let mut row = self.sessions[i].duplicate();
                row.last_authenticated_at = 0;
                self.sessions.set(i, row);
                count = count + 1;
            }
            i = i + 1;
        }
        proof {
            assert(s0.subrange(0, s0.len() as int) =~= s0);
            assert forall|j: int, k: int|
                0 <= j < k < self.sessions@.len() implies (#[trigger] self.sessions@[j]).id != (
            #[trigger] self.sessions@[k]).id by {
                assert(s0[j].id != s0[k].id);
            }
            assert forall|j: int|
                0 <= j < self.sessions@.len() implies (#[trigger] self.sessions@[j]).wf() && 1
                <= self.sessions@[j].id < self.next_session_id by {
                assert(s0[j].wf() && 1 <= s0[j].id < self.next_session_id);
            }
        }
        count
    }

    /// Deletes every session of this user whose id stands in `ids`; the
    /// remaining rows keep their order. Returns the deleted-row count.
    pub fn delete_sessions_by_ids(&mut self, user_id: i32, ids: &Vec<i32>) -> (r: usize)
        requires
            old(self).wf(),
        ensures
            final(self).wf(),
            final(self).users == old(self).users,
            final(self).recovery_codes == old(self).recovery_codes,
            final(self).next_session_id == old(self).next_session_id,
            final(self).next_user_id == old(self).next_user_id,
            final(self).next_code_id == old(self).next_code_id,
            final(self).sessions@ == spec_without(old(self).sessions@, user_id, ids@),
            r == count_deauth_targets(old(self).sessions@, user_id, ids@),
            final(self).sessions@.len() + r == old(self).sessions@.len(),
    {
        let ghost s0 = self.sessions@;
        let mut kept: Vec<Session> = Vec::new();
        let mut i: usize = 0;
        while i < self.sessions.len()
            invariant
                *self == *old(self),
                old(self).wf(),
                s0 == old(self).sessions@,
                i <= s0.len(),
                kept@ == spec_without(s0.subrange(0, i as int), user_id, ids@),
                kept@.len() + count_deauth_targets(s0.subrange(0, i as int), user_id, ids@)
                    == i,
            decreases s0.len() - i,
        {
            proof {
                assert(s0.subrange(0, i + 1).drop_last() =~= s0.subrange(0, i as int));
                assert(s0.subrange(0, i + 1).last() == s0[i as int]);
                lemma_without_preserves(s0.subrange(0, i + 1), user_id, ids@);
            }
            if self.sessions[i].user_id == user_id && ids_contain(ids, self.sessions[i].id) {
            } else {
                let row = self.sessions[i].duplicate();
                kept.push(row);
            }
            i = i + 1;
        }
        proof {
            assert(s0.subrange(0, s0.len() as int) =~= s0);
            lemma_without_preserves(s0, user_id, ids@);
        }
        let deleted = self.sessions.len() - kept.len();
        self.sessions = kept;
        proof {
            let s1 = self.sessions@;
            assert forall|j: int, k: int| 0 <= j < k < s1.len() implies (#[trigger] s1[j]).id != (
            #[trigger] s1[k]).id by {
                lemma_without_distinct(s0, user_id, ids@);
            }
            assert forall|j: int| 0 <= j < s1.len() implies (#[trigger] s1[j]).wf() && 1 <= s1[j].id
                < self.next_session_id by {
                assert(s0.contains(s1[j]));
                let w = choose|w: int| 0 <= w < s0.len() && s0[w] == s1[j];
                assert(s0[w].wf() && 1 <= s0[w].id < self.next_session_id);
            }
        }
        deleted
    }
}

/// When the table's ids are pairwise distinct, so are the ids of what
/// `spec_without` keeps.
proof fn lemma_without_distinct(sessions: Seq<Session>, user_id: i32, ids: Seq<i32>)
    requires
        forall|i: int, j: int|
            0 <= i < j < sessions.len() ==> (#[trigger] sessions[i]).id != (
            #[trigger] sessions[j]).id,
    ensures
        forall|k: int, l: int|
            0 <= k < l < spec_without(sessions, user_id, ids).len() ==> (#[trigger] spec_without(
                sessions,
                user_id,
                ids,
            )[k]).id != (#[trigger] spec_without(sessions, user_id, ids)[l]).id,
    decreases sessions.len(),
{
    if sessions.len() == 0 {
    } else {
        let prefix = sessions.drop_last();
        assert(forall|i: int| 0 <= i < prefix.len() ==> prefix[i] == sessions[i]);
        lemma_without_distinct(prefix, user_id, ids);
        lemma_without_preserves(prefix, user_id, ids);
        let r = spec_without(sessions, user_id, ids);
        let rp = spec_without(prefix, user_id, ids);
        if sessions.last().user_id == user_id && ids.contains(sessions.last().id) {
        } else {
            assert forall|k: int, l: int| 0 <= k < l < r.len() implies (#[trigger] r[k]).id != (
            #[trigger] r[l]).id by {
                if l < rp.len() {
                    assert(r[k] == rp[k] && r[l] == rp[l]);
                } else {
                    assert(r[l] == sessions.last());
                    assert(r[k] == rp[k]);
                    assert(prefix.contains(rp[k]));
                    let w = choose|w: int| 0 <= w < prefix.len() && prefix[w] == rp[k];
                    assert(sessions[w] == rp[k]);
                    assert(sessions[w].id != sessions[sessions.len() - 1].id);
                }
            }
        }
    }
}


/// A recovery-code row that this consumption attempt would consume: owned by
/// the user, hash equal, not yet used.
pub open spec fn is_consumable(c: TwoFaRecoveryCode, user_id: i32, hash: Seq<u8>) -> bool {
    c.user_id == user_id && c.code_hash@ == hash && c.used_at is None
}

/// A consumed recovery-code row: `used_at` set at `now`.
pub open spec fn spec_consumed(c: TwoFaRecoveryCode, now: i64) -> TwoFaRecoveryCode {
    TwoFaRecoveryCode { used_at: Some(now), ..c }
}

/// How many rows this consumption attempt would consume.
pub open spec fn count_consumable(codes: Seq<TwoFaRecoveryCode>, user_id: i32, hash: Seq<u8>) -> nat
    decreases codes.len(),
{
    if codes.len() == 0 {
        0
    } else {
        count_consumable(codes.drop_last(), user_id, hash) + (
        if is_consumable(codes.last(), user_id, hash) {
            1nat
        } else {
            0nat
        })
    }
}

/// How many recovery-code rows belong to this user.
pub open spec fn count_codes_of_user(codes: Seq<TwoFaRecoveryCode>, user_id: i32) -> nat
    decreases codes.len(),
{
    if codes.len() == 0 {
        0
    } else {
        count_codes_of_user(codes.drop_last(), user_id) + (
        if codes.last().user_id == user_id {
            1nat
        } else {
            0nat
        })
    }
}

/// The recovery-code table after deleting this user's rows; other rows keep
/// their order.
pub open spec fn spec_codes_without(codes: Seq<TwoFaRecoveryCode>, user_id: i32) -> Seq<
    TwoFaRecoveryCode,
>
    decreases codes.len(),
{
    if codes.len() == 0 {
        Seq::empty()
    } else {
        let rest = spec_codes_without(codes.drop_last(), user_id);
        if codes.last().user_id == user_id {
            rest
        } else {
            rest.push(codes.last())
        }
    }
}

/// Everything `spec_codes_without` keeps was present before, and nothing of
/// other users is lost.
proof fn lemma_codes_without_preserves(codes: Seq<TwoFaRecoveryCode>, user_id: i32)
    ensures
        spec_codes_without(codes, user_id).len() + count_codes_of_user(codes, user_id)
            == codes.len(),
        forall|k: int|
            0 <= k < spec_codes_without(codes, user_id).len() ==> codes.contains(
                #[trigger] spec_codes_without(codes, user_id)[k],
            ),
        forall|j: int|
            0 <= j < codes.len() && (#[trigger] codes[j]).user_id != user_id ==> spec_codes_without(
                codes,
                user_id,
            ).contains(codes[j]),
    decreases codes.len(),
{
    if codes.len() == 0 {
    } else {
        let prefix = codes.drop_last();
        lemma_codes_without_preserves(prefix, user_id);
        let r = spec_codes_without(codes, user_id);
        let rp = spec_codes_without(prefix, user_id);
        assert(forall|k: int| 0 <= k < prefix.len() ==> prefix[k] == codes[k]);
        assert forall|k: int| 0 <= k < r.len() implies codes.contains(#[trigger] r[k]) by {
            if k < rp.len() {
                assert(prefix.contains(rp[k]));
                let w = choose|w: int| 0 <= w < prefix.len() && prefix[w] == rp[k];
                assert(codes[w] == rp[k]);
            } else {
                assert(r[k] == codes.last());
                assert(codes[codes.len() - 1] == codes.last());
            }
        }
        assert forall|j: int|
            0 <= j < codes.len() && (#[trigger] codes[j]).user_id != user_id implies r.contains(
            codes[j]) by {
            if j < prefix.len() {
                assert(rp.contains(codes[j]));
                let w = choose|w: int| 0 <= w < rp.len() && rp[w] == codes[j];
                assert(r[w] == codes[j]);
            } else {
                assert(codes[j] == codes.last());
                assert(r[r.len() - 1] == codes.last());
            }
        }
    }
}

/// After deleting a user's rows, no row of that user remains.
pub proof fn lemma_codes_without_none(codes: Seq<TwoFaRecoveryCode>, user_id: i32)
    ensures
        count_codes_of_user(spec_codes_without(codes, user_id), user_id) == 0,
        forall|k: int|
            0 <= k < spec_codes_without(codes, user_id).len() ==> (#[trigger] spec_codes_without(
                codes,
                user_id,
            )[k]).user_id != user_id,
    decreases codes.len(),
{
    if codes.len() > 0 {
        lemma_codes_without_none(codes.drop_last(), user_id);
        let r = spec_codes_without(codes, user_id);
        let rp = spec_codes_without(codes.drop_last(), user_id);
        assert forall|k: int| 0 <= k < r.len() implies (#[trigger] r[k]).user_id != user_id by {
            if k < rp.len() {
                assert(r[k] == rp[k]);
            }
        }
        lemma_count_codes_none(r, user_id);
    }
}

/// A table with no row of the user counts zero rows for the user.
proof fn lemma_count_codes_none(codes: Seq<TwoFaRecoveryCode>, user_id: i32)
    requires
        forall|k: int| 0 <= k < codes.len() ==> (#[trigger] codes[k]).user_id != user_id,
    ensures
        count_codes_of_user(codes, user_id) == 0,
    decreases codes.len(),
{
    if codes.len() > 0 {
        let prefix = codes.drop_last();
        assert(forall|k: int| 0 <= k < prefix.len() ==> prefix[k] == codes[k]);
        lemma_count_codes_none(prefix, user_id);
        assert(codes[codes.len() - 1] == codes.last());
    }
}

/// When the table's ids are pairwise distinct, so are the ids of what
/// `spec_codes_without` keeps.
proof fn lemma_codes_without_distinct(codes: Seq<TwoFaRecoveryCode>, user_id: i32)
    requires
        forall|i: int, j: int|
            0 <= i < j < codes.len() ==> (#[trigger] codes[i]).id != (#[trigger] codes[j]).id,
    ensures
        forall|k: int, l: int|
            0 <= k < l < spec_codes_without(codes, user_id).len() ==> (
            #[trigger] spec_codes_without(codes, user_id)[k]).id != (#[trigger] spec_codes_without(
                codes,
                user_id,
            )[l]).id,
    decreases codes.len(),
{
    if codes.len() == 0 {
    } else {
        let prefix = codes.drop_last();
        assert(forall|i: int| 0 <= i < prefix.len() ==> prefix[i] == codes[i]);
        lemma_codes_without_distinct(prefix, user_id);
        lemma_codes_without_preserves(prefix, user_id);
        let r = spec_codes_without(codes, user_id);
        let rp = spec_codes_without(prefix, user_id);
        if codes.last().user_id == user_id {
        } else {
            assert forall|k: int, l: int| 0 <= k < l < r.len() implies (#[trigger] r[k]).id != (
            #[trigger] r[l]).id by {
                if l < rp.len() {
                    assert(r[k] == rp[k] && r[l] == rp[l]);
                } else {
                    assert(r[l] == codes.last());
                    assert(r[k] == rp[k]);
                    assert(prefix.contains(rp[k]));
                    let w = choose|w: int| 0 <= w < prefix.len() && prefix[w] == rp[k];
                    assert(codes[w] == rp[k]);
                    assert(codes[w].id != codes[codes.len() - 1].id);
                }
            }
        }
    }
}

/// Compares two 32-byte hashes.
pub fn hash32_eq(a: &[u8; 32], b: &[u8; 32]) -> (r: bool)
    ensures
        r == (a@ == b@),
{
    let mut i: usize = 0;
    while i < 32
        invariant
            i <= 32,
            forall|j: int| 0 <= j < i ==> a@[j] == b@[j],
        decreases 32 - i,
    {
        if a[i] != b[i] {
            return false;
        }
        i = i + 1;
    }
    proof {
        assert(a@ =~= b@);
    }
    true
}


impl Store {
    /// Stores a freshly encrypted pending TOTP secret, guarded on two-factor
    /// authentication being disabled, so a completed confirmation can never
    /// be clobbered. Returns the affected-row count.
    pub fn set_pending_totp_secret(&mut self, user_id: i32, secret_enc: String) -> (updated: usize)
        requires
            old(self).wf(),
        ensures
            final(self).wf(),
            final(self).sessions == old(self).sessions,
            final(self).recovery_codes == old(self).recovery_codes,
            final(self).next_user_id == old(self).next_user_id,
            final(self).next_session_id == old(self).next_session_id,
            final(self).next_code_id == old(self).next_code_id,
            updated <= 1,
            (updated == 1) <==> (exists|i: int|
                0 <= i < old(self).users@.len() && (#[trigger] old(self).users@[i]).id == user_id
                    && !old(self).users@[i].totp_enabled),
            updated == 1 ==> (exists|i: int|
                {
                    &&& 0 <= i < old(self).users@.len()
                    &&& (#[trigger] old(self).users@[i]).id == user_id
                    &&& !old(self).users@[i].totp_enabled
                    &&& final(self).users@ == old(self).users@.update(
                        i,
                        (User {
                            totp_secret_enc: Some(secret_enc),
                            totp_confirmed_at: None,
                            ..old(self).users@[i]
                        }),
                    )
                }),
            updated == 0 ==> final(self).users == old(self).users,
    {
        let mut i: usize = 0;
        while i < self.users.len()
            invariant
                *self == *old(self),
                old(self).wf(),
                i <= self.users@.len(),
                forall|j: int|
                    0 <= j < i ==> !((#[trigger] self.users@[j]).id == user_id
                        && !self.users@[j].totp_enabled),
            decreases self.users@.len() - i,
        {
            if self.users[i].id == user_id && !self.users[i].totp_enabled {
                let mut row = self.users[i].duplicate();
                row.totp_secret_enc = Some(secret_enc);
                row.totp_confirmed_at = None;
                self.users.set(i, row);
                proof {
                    lemma_user_row_update(old(self).users@, self.users@, i as int, self.next_user_id);
                }
                return 1;
            }
            i = i + 1;
        }
        0
    }

    /// Flips two-factor authentication on, guarded on it being off and on the
    /// pending secret still being the one that was just validated. Returns
    /// the affected-row count; zero means a concurrent request raced.
    pub fn confirm_totp(
        &mut self,
        user_id: i32,
        expected_secret: &Option<String>,
        now: i64,
    ) -> (updated: usize)
        requires
            old(self).wf(),
            ts_wf(now),
        ensures
            final(self).wf(),
            final(self).sessions == old(self).sessions,
            final(self).recovery_codes == old(self).recovery_codes,
            final(self).next_user_id == old(self).next_user_id,
            final(self).next_session_id == old(self).next_session_id,
            final(self).next_code_id == old(self).next_code_id,
            updated <= 1,
            (updated == 1) <==> (exists|i: int|
                0 <= i < old(self).users@.len() && (#[trigger] old(self).users@[i]).id == user_id
                    && !old(self).users@[i].totp_enabled && opt_str_matches(
                    old(self).users@[i].totp_secret_enc,
                    *expected_secret,
                )),
            updated == 1 ==> (exists|i: int|
                {
                    &&& 0 <= i < old(self).users@.len()
                    &&& (#[trigger] old(self).users@[i]).id == user_id
                    &&& !old(self).users@[i].totp_enabled
                    &&& opt_str_matches(old(self).users@[i].totp_secret_enc, *expected_secret)
                    &&& final(self).users@ == old(self).users@.update(
                        i,
                        (User {
                            totp_enabled: true,
                            totp_confirmed_at: Some(now),
                            ..old(self).users@[i]
                        }),
                    )
                }),
            updated == 0 ==> final(self).users == old(self).users,
    {
        let mut i: usize = 0;
        while i < self.users.len()
            invariant
                *self == *old(self),
                old(self).wf(),
                ts_wf(now),
                i <= self.users@.len(),
                forall|j: int|
                    0 <= j < i ==> !((#[trigger] self.users@[j]).id == user_id
                        && !self.users@[j].totp_enabled && opt_str_matches(
                        self.users@[j].totp_secret_enc,
                        *expected_secret,
                    )),
            decreases self.users@.len() - i,
        {
            if self.users[i].id == user_id && !self.users[i].totp_enabled && opt_string_eq(
                &self.users[i].totp_secret_enc,
                expected_secret,
            ) {
                let mut row = self.users[i].duplicate();
                row.totp_enabled = true;
                row.totp_confirmed_at = Some(now);
                self.users.set(i, row);
                proof {
                    lemma_user_row_update(old(self).users@, self.users@, i as int, self.next_user_id);
                }
                return 1;
            }
            i = i + 1;
        }
        0
    }

    /// Clears two-factor enrollment, guarded on the stored secret still
    /// matching what the caller validated against. Returns the affected-row
    /// count; zero means a concurrent request raced.
    pub fn disable_totp(&mut self, user_id: i32, expected_secret: &Option<String>) -> (updated:
        usize)
        requires
            old(self).wf(),
        ensures
            final(self).wf(),
            final(self).sessions == old(self).sessions,
            final(self).recovery_codes == old(self).recovery_codes,
            final(self).next_user_id == old(self).next_user_id,
            final(self).next_session_id == old(self).next_session_id,
            final(self).next_code_id == old(self).next_code_id,
            updated <= 1,
            (updated == 1) <==> (exists|i: int|
                0 <= i < old(self).users@.len() && (#[trigger] old(self).users@[i]).id == user_id
                    && opt_str_matches(old(self).users@[i].totp_secret_enc, *expected_secret)),
            updated == 1 ==> (exists|i: int|
                {
                    &&& 0 <= i < old(self).users@.len()
                    &&& (#[trigger] old(self).users@[i]).id == user_id
                    &&& opt_str_matches(old(self).users@[i].totp_secret_enc, *expected_secret)
                    &&& final(self).users@ == old(self).users@.update(
                        i,
                        (User {
                            totp_enabled: false,
                            totp_secret_enc: None,
                            totp_confirmed_at: None,
                            ..old(self).users@[i]
                        }),
                    )
                }),
            updated == 0 ==> final(self).users == old(self).users,
    {
        let mut i: usize = 0;
        while i < self.users.len()
            invariant
                *self == *old(self),
                old(self).wf(),
                i <= self.users@.len(),
                forall|j: int|
                    0 <= j < i ==> !((#[trigger] self.users@[j]).id == user_id && opt_str_matches(
                        self.users@[j].totp_secret_enc,
                        *expected_secret,
                    )),
            decreases self.users@.len() - i,
        {
            if self.users[i].id == user_id && opt_string_eq(
                &self.users[i].totp_secret_enc,
                expected_secret,
            ) {
                let mut row = self.users[i].duplicate();
                row.totp_enabled = false;
                row.totp_secret_enc = None;
                row.totp_confirmed_at = None;
                self.users.set(i, row);
                proof {
                    lemma_user_row_update(old(self).users@, self.users@, i as int, self.next_user_id);
                }
                return 1;
            }
            i = i + 1;
        }
        0
    }

    /// Replaces the stored password hash of this account. Returns the
    /// affected-row count.
    pub fn update_password_hash(&mut self, user_id: i32, new_hash: String) -> (updated: usize)
        requires
            old(self).wf(),
        ensures
            final(self).wf(),
            final(self).sessions == old(self).sessions,
            final(self).recovery_codes == old(self).recovery_codes,
            final(self).next_user_id == old(self).next_user_id,
            final(self).next_session_id == old(self).next_session_id,
            final(self).next_code_id == old(self).next_code_id,
            updated <= 1,
            (updated == 1) <==> has_user_with_id(old(self).users@, user_id),
            updated == 1 ==> (exists|i: int|
                {
                    &&& 0 <= i < old(self).users@.len()
                    &&& (#[trigger] old(self).users@[i]).id == user_id
                    &&& final(self).users@ == old(self).users@.update(
                        i,
                        (User { password_hash: new_hash, ..old(self).users@[i] }),
                    )
                }),
            updated == 0 ==> final(self).users == old(self).users,
    {
        let mut i: usize = 0;
        while i < self.users.len()
            invariant
                *self == *old(self),
                old(self).wf(),
                i <= self.users@.len(),
                forall|j: int| 0 <= j < i ==> (#[trigger] self.users@[j]).id != user_id,
            decreases self.users@.len() - i,
        {
            if self.users[i].id == user_id {
                let mut row = self.users[i].duplicate();
                row.password_hash = new_hash;
                self.users.set(i, row);
                proof {
                    lemma_user_row_update(old(self).users@, self.users@, i as int, self.next_user_id);
                }
                return 1;
            }
            i = i + 1;
        }
        0
    }
}

/// Replacing one user row with a row that keeps its id, email, nickname and
/// timestamps keeps the user table well formed.
proof fn lemma_user_row_update(s0: Seq<User>, s1: Seq<User>, i: int, next_user_id: i32)
    requires
        0 <= i < s0.len(),
        s1 == s0.update(i, s1[i]),
        s1.len() == s0.len(),
        s1[i].id == s0[i].id,
        s1[i].email@ == s0[i].email@,
        s1[i].nickname@ == s0[i].nickname@,
        s1[i].wf(),
        forall|j: int| 0 <= j < s0.len() ==> (#[trigger] s0[j]).wf(),
        forall|j: int| 0 <= j < s0.len() ==> 1 <= (#[trigger] s0[j]).id < next_user_id,
        forall|j: int, k: int|
            0 <= j < k < s0.len() ==> (#[trigger] s0[j]).id != (#[trigger] s0[k]).id,
        forall|j: int, k: int|
            0 <= j < k < s0.len() ==> (#[trigger] s0[j]).email@ != (#[trigger] s0[k]).email@,
        forall|j: int, k: int|
            0 <= j < k < s0.len() ==> (#[trigger] s0[j]).nickname@ != (#[trigger] s0[k]).nickname@,
    ensures
        forall|j: int| 0 <= j < s1.len() ==> (#[trigger] s1[j]).wf(),
        forall|j: int| 0 <= j < s1.len() ==> 1 <= (#[trigger] s1[j]).id < next_user_id,
        forall|j: int, k: int|
            0 <= j < k < s1.len() ==> (#[trigger] s1[j]).id != (#[trigger] s1[k]).id,
        forall|j: int, k: int|
            0 <= j < k < s1.len() ==> (#[trigger] s1[j]).email@ != (#[trigger] s1[k]).email@,
        forall|j: int, k: int|
            0 <= j < k < s1.len() ==> (#[trigger] s1[j]).nickname@ != (#[trigger] s1[k]).nickname@,
{
    assert forall|j: int| 0 <= j < s1.len() implies (#[trigger] s1[j]).wf() && 1 <= s1[j].id
        < next_user_id by {
        if j != i {
            assert(s1[j] == s0[j]);
        }
    }
    assert forall|j: int, k: int|
        0 <= j < k < s1.len() implies (#[trigger] s1[j]).id != (#[trigger] s1[k]).id && (
    s1[j]).email@ != (s1[k]).email@ && (s1[j]).nickname@ != (s1[k]).nickname@ by {
        assert(s0[j].id != s0[k].id && s0[j].email@ != s0[k].email@ && s0[j].nickname@
            != s0[k].nickname@);
        if j != i {
            assert(s1[j] == s0[j]);
        }
        if k != i {
            assert(s1[k] == s0[k]);
        }
    }
}


impl Store {
    /// Deletes every recovery code of this user. Returns the deleted-row
    /// count.
    pub fn delete_recovery_codes(&mut self, user_id: i32) -> (r: usize)
        requires
            old(self).wf(),
        ensures
            final(self).wf(),
            final(self).users == old(self).users,
            final(self).sessions == old(self).sessions,
            final(self).next_code_id == old(self).next_code_id,
            final(self).next_user_id == old(self).next_user_id,
            final(self).next_session_id == old(self).next_session_id,
            final(self).recovery_codes@ == spec_codes_without(old(self).recovery_codes@, user_id),
            r == count_codes_of_user(old(self).recovery_codes@, user_id),
            final(self).recovery_codes@.len() + r == old(self).recovery_codes@.len(),
    {
        let ghost c0 = self.recovery_codes@;
        let mut kept: Vec<TwoFaRecoveryCode> = Vec::new();
        let mut i: usize = 0;
        while i < self.recovery_codes.len()
            invariant
                *self == *old(self),
                old(self).wf(),
                c0 == old(self).recovery_codes@,
                i <= c0.len(),
                kept@ == spec_codes_without(c0.subrange(0, i as int), user_id),
                kept@.len() + count_codes_of_user(c0.subrange(0, i as int), user_id) == i,
            decreases c0.len() - i,
        {
            proof {
                assert(c0.subrange(0, i + 1).drop_last() =~= c0.subrange(0, i as int));
                assert(c0.subrange(0, i + 1).last() == c0[i as int]);
            }
            if self.recovery_codes[i].user_id != user_id {
                let row = self.recovery_codes[i];
                kept.push(row);
            }
            i = i + 1;
        }
        proof {
            assert(c0.subrange(0, c0.len() as int) =~= c0);
            lemma_codes_without_preserves(c0, user_id);
        }
        let deleted = self.recovery_codes.len() - kept.len();
        self.recovery_codes = kept;
        proof {
            let c1 = self.recovery_codes@;
            assert forall|j: int, k: int| 0 <= j < k < c1.len() implies (#[trigger] c1[j]).id != (
            #[trigger] c1[k]).id by {
                lemma_codes_without_distinct(c0, user_id);
            }
            assert forall|j: int|
                0 <= j < c1.len() implies ts_wf((#[trigger] c1[j]).created_at) && (
            c1[j].used_at matches Some(t) ==> ts_wf(t)) && 1 <= c1[j].id < self.next_code_id by {
                assert(c0.contains(c1[j]));
                let w = choose|w: int| 0 <= w < c0.len() && c0[w] == c1[j];
                assert(ts_wf(c0[w].created_at) && 1 <= c0[w].id < self.next_code_id);
            }
        }
        deleted
    }

    /// Inserts a batch of hashed recovery codes for this user, all unused.
    pub fn insert_recovery_codes(
        &mut self,
        user_id: i32,
        code_hashes: &Vec<[u8; 32]>,
        now: i64,
    ) -> (r: Result<(), ApiError>)
        requires
            old(self).wf(),
            ts_wf(now),
        ensures
            final(self).wf(),
            final(self).users == old(self).users,
            final(self).sessions == old(self).sessions,
            final(self).next_user_id == old(self).next_user_id,
            final(self).next_session_id == old(self).next_session_id,
            match r {
                Ok(()) => {
                    &&& final(self).recovery_codes@.len() == old(self).recovery_codes@.len()
                        + code_hashes@.len()
                    &&& forall|j: int|
                        0 <= j < old(self).recovery_codes@.len() ==> final(self).recovery_codes@[j]
                            == old(self).recovery_codes@[j]
                    &&& forall|k: int|
                        0 <= k < code_hashes@.len() ==> {
                            let row =
                                #[trigger] final(self).recovery_codes@[old(
                                self,
                            ).recovery_codes@.len() + k];
                            &&& row.user_id == user_id
                            &&& row.code_hash@ == code_hashes@[k]@
                            &&& row.used_at is None
                            &&& row.created_at == now
                        }
                },
                Err(e) => {
                    &&& final(self).recovery_codes == old(self).recovery_codes
                    &&& e == ApiError::Internal
                },
            },
            (code_hashes@.len() < i32::MAX && old(self).next_code_id < i32::MAX
                - code_hashes@.len()) ==> r is Ok,
    {
        if code_hashes.len() >= i32::MAX as usize || self.next_code_id >= i32::MAX - (
        code_hashes.len() as i32) {
            return Err(ApiError::Internal);
        }
        let ghost c0 = self.recovery_codes@;
        let mut k: usize = 0;
        while k < code_hashes.len()
            invariant
                old(self).wf(),
                ts_wf(now),
                c0 == old(self).recovery_codes@,
                self.users == old(self).users,
                self.sessions == old(self).sessions,
                self.next_user_id == old(self).next_user_id,
                self.next_session_id == old(self).next_session_id,
                k <= code_hashes@.len(),
                code_hashes@.len() < i32::MAX,
                old(self).next_code_id < i32::MAX - code_hashes@.len(),
                self.next_code_id == old(self).next_code_id + k,
                self.recovery_codes@.len() == c0.len() + k,
                forall|j: int| 0 <= j < c0.len() ==> self.recovery_codes@[j] == c0[j],
                forall|j: int|
                    0 <= j < k ==> {
                        let row = #[trigger] self.recovery_codes@[c0.len() + j];
                        &&& row.user_id == user_id
                        &&& row.code_hash@ == code_hashes@[j]@
                        &&& row.used_at is None
                        &&& row.created_at == now
                        &&& row.id == old(self).next_code_id + j
                    },
                self.codes_wf(),
            decreases code_hashes@.len() - k,
        {
            let row = TwoFaRecoveryCode {
                id: self.next_code_id,
                user_id,
                code_hash: code_hashes[k],
                used_at: None,
                created_at: now,
            };
            self.recovery_codes.push(row);
            self.next_code_id = self.next_code_id + 1;
            k = k + 1;
        }
        Ok(())
    }

    /// Consumes a recovery code: marks every unused row of this user holding
    /// this hash as used at `now`. Returns the affected-row count; consuming
    /// succeeded exactly when it is one.
    pub fn consume_recovery_code_row(
        &mut self,
        user_id: i32,
        code_hash: &[u8; 32],
        now: i64,
    ) -> (updated: usize)
        requires
            old(self).wf(),
            ts_wf(now),
        ensures
            final(self).wf(),
            final(self).users == old(self).users,
            final(self).sessions == old(self).sessions,
            final(self).next_code_id == old(self).next_code_id,
            final(self).next_user_id == old(self).next_user_id,
            final(self).next_session_id == old(self).next_session_id,
            final(self).recovery_codes@.len() == old(self).recovery_codes@.len(),
            forall|j: int|
                0 <= j < old(self).recovery_codes@.len() ==> final(self).recovery_codes@[j] == (
                if is_consumable(#[trigger] old(self).recovery_codes@[j], user_id, code_hash@) {
                    spec_consumed(old(self).recovery_codes@[j], now)
                } else {
                    old(self).recovery_codes@[j]
                }),
            updated == count_consumable(old(self).recovery_codes@, user_id, code_hash@),
            count_consumable(old(self).recovery_codes@, user_id, code_hash@) == 0 ==> final(self).recovery_codes
                == old(self).recovery_codes,
    {
        let ghost c0 = self.recovery_codes@;
        let mut count: usize = 0;
        let mut i: usize = 0;
        while i < self.recovery_codes.len()
            invariant
                old(self).wf(),
                ts_wf(now),
                c0 == old(self).recovery_codes@,
                self.users == old(self).users,
                self.sessions == old(self).sessions,
                self.next_user_id == old(self).next_user_id,
                self.next_session_id == old(self).next_session_id,
                self.next_code_id == old(self).next_code_id,
                count == 0 ==> self.recovery_codes == old(self).recovery_codes,
                i <= c0.len(),
                self.recovery_codes@.len() == c0.len(),
                count <= i,
                forall|j: int|
                    0 <= j < i ==> self.recovery_codes@[j] == (if is_consumable(
                        #[trigger] c0[j],
                        user_id,
                        code_hash@,
                    ) {
                        spec_consumed(c0[j], now)
                    } else {
                        c0[j]
                    }),
                forall|j: int| i <= j < c0.len() ==> self.recovery_codes@[j] == c0[j],
                count == count_consumable(c0.subrange(0, i as int), user_id, code_hash@),
            decreases c0.len() - i,
        {
            proof {
                assert(c0.subrange(0, i + 1).drop_last() =~= c0.subrange(0, i as int));
                assert(c0.subrange(0, i + 1).last() == c0[i as int]);
            }
            let consumable = self.recovery_codes[i].user_id == user_id && hash32_eq(
                &self.recovery_codes[i].code_hash,
                code_hash,
            ) && self.recovery_codes[i].used_at.is_none();
            if consumable {
                let mut row = self.recovery_codes[i];
                row.used_at = Some(now);
                self.recovery_codes.set(i, row);
                count = count + 1;
            }
            i = i + 1;
        }
        proof {
            assert(c0.subrange(0, c0.len() as int) =~= c0);
            assert forall|j: int, k: int|
                0 <= j < k < self.recovery_codes@.len() implies (
            #[trigger] self.recovery_codes@[j]).id != (#[trigger] self.recovery_codes@[k]).id by {
                assert(c0[j].id != c0[k].id);
            }
            assert forall|j: int|
                0 <= j < self.recovery_codes@.len() implies ts_wf(
                (#[trigger] self.recovery_codes@[j]).created_at,
            ) && (self.recovery_codes@[j].used_at matches Some(t) ==> ts_wf(t)) && 1
                <= self.recovery_codes@[j].id < self.next_code_id by {
                assert(ts_wf(c0[j].created_at) && 1 <= c0[j].id < self.next_code_id);
                assert(c0[j].used_at matches Some(t) ==> ts_wf(t));
            }
        }
        count
    }
}

} // verus!
