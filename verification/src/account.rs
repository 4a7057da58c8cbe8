//! Account flows: registration, login, reauthentication, logout, password
//! change, session listing and removal, and the two-factor lifecycle
//! endpoints' logic.
//!
//! Every flow takes the store and the process-wide contexts explicitly; the
//! transport layer only decodes inputs, hands over plain values, and renders
//! the results.

use vstd::prelude::*;
use vstd::string::StringSliceAdditionalSpecFns;

use crate::errors::ApiError;
use crate::errors::AuthError;
use crate::errors::TwoFactorError;
use crate::models::ts_wf;
use crate::models::NewUser;
use crate::models::Session;
use crate::models::User;
use crate::password::argon2_verifies;
use crate::password::hash_password;
use crate::password::verify_password;
use crate::password::PasswordContext;
use crate::primitives::blake3_of;
use crate::session::create_session;
use crate::session::rotate_session;
use crate::session::SessionInfo;
use crate::store::has_user_with_email;
use crate::store::has_user_with_id;
use crate::store::has_user_with_nickname;
use crate::store::Store;
use crate::token::SessionToken;
use crate::two_factor::check_totp_code;
use crate::two_factor::consume_pass;
use crate::two_factor::spec_looks_like_totp;
use crate::two_factor::submitted_code_hash;
use crate::two_factor::trim_of;
use crate::two_factor::encrypt_totp_secret;
use crate::two_factor::generate_recovery_codes;
use crate::two_factor::generate_totp_secret;
use crate::two_factor::replace_recovery_codes;
use crate::two_factor::require_mfa_if_enabled;
use crate::two_factor::TwoFactorContext;
use crate::validate;

verus! {

/// Some account row holds this id and a hash this password verifies against.
pub open spec fn credentials_match_id(users: Seq<User>, user_id: i32, password: Seq<char>) -> bool {
    exists|i: int|
        0 <= i < users.len() && (#[trigger] users[i]).id == user_id && argon2_verifies(
            password,
            users[i].password_hash@,
        )
}

/// Some account row holds this email and a hash this password verifies
/// against.
pub open spec fn credentials_match_email(
    users: Seq<User>,
    email: Seq<char>,
    password: Seq<char>,
) -> bool {
    exists|i: int|
        0 <= i < users.len() && (#[trigger] users[i]).email@ == email && argon2_verifies(
            password,
            users[i].password_hash@,
        )
}

/// The account holding this id has two-factor authentication enabled.
pub open spec fn account_enabled_by_id(users: Seq<User>, user_id: i32) -> bool {
    exists|i: int|
        0 <= i < users.len() && (#[trigger] users[i]).id == user_id && users[i].totp_enabled
}

/// The account holding this email has two-factor authentication enabled.
pub open spec fn account_enabled_by_email(users: Seq<User>, email: Seq<char>) -> bool {
    exists|i: int|
        0 <= i < users.len() && (#[trigger] users[i]).email@ == email && users[i].totp_enabled
}

/// Account rows are keyed by id: a row fetched for an id is the row any
/// id-indexed fact speaks of.
proof fn lemma_same_account_row(users: Seq<User>, u: User, i: int)
    requires
        forall|j: int, k: int|
            0 <= j < k < users.len() ==> (#[trigger] users[j]).id != (#[trigger] users[k]).id,
        users.contains(u),
        0 <= i < users.len(),
        users[i].id == u.id,
    ensures
        users[i] == u,
{
    let w = choose|w: int| 0 <= w < users.len() && users[w] == u;
    if i < w {
        assert(users[i].id != users[w].id);
    }
    if i > w {
        assert(users[w].id != users[i].id);
    }
}

/// Looks the account up by id and verifies the password in constant time;
/// an absent account burns the same hashing work and fails with the same
/// error as a wrong password.
pub fn check_password(
    pctx: &PasswordContext,
    store: &Store,
    user_id: i32,
    password: &str,
) -> (r: Result<User, ApiError>)
    requires
        pctx.wf(),
        store.wf(),
    ensures
        r matches Ok(u) ==> store.users@.contains(u) && u.id == user_id && u.wf() && u.id >= 1
            && argon2_verifies(password@, u.password_hash@),
        (r is Ok) <==> credentials_match_id(store.users@, user_id, password@),
        r is Err ==> (r == Err::<User, ApiError>(ApiError::Auth(AuthError::InvalidCredentials)) || r
            == Err::<User, ApiError>(ApiError::PasswordHash)),
{
    let user_opt = store.find_user_by_id(user_id);
    let stored: Option<&str> = match &user_opt {
        Some(u) => Some(u.password_hash.as_str()),
        None => None,
    };
    let checked = verify_password(pctx, password, stored);
    match checked {
        Ok(()) => match user_opt {
            Some(u) => {
                proof {
                    let w = choose|w: int|
                        0 <= w < store.users@.len() && store.users@[w] == u;
                    assert(store.users@[w].id == user_id && argon2_verifies(
                        password@,
                        store.users@[w].password_hash@,
                    ));
                }
                Ok(u)
            },
            None => Err(ApiError::Auth(AuthError::InvalidCredentials)),
        },
        Err(e) => {
            proof {
                match user_opt {
                    Some(u) => {
                        let w = choose|w: int|
                            0 <= w < store.users@.len() && store.users@[w] == u;
                        assert forall|i: int|
                            0 <= i < store.users@.len() && (#[trigger] store.users@[i]).id
                                == user_id implies !argon2_verifies(
                            password@,
                            store.users@[i].password_hash@,
                        ) by {
                            if i < w {
                                assert(store.users@[i].id != store.users@[w].id);
                            }
                            if i > w {
                                assert(store.users@[w].id != store.users@[i].id);
                            }
                            assert(i == w);
                            assert(store.users@[i] == u);
                        }
                    },
                    None => {},
                }
            }
            Err(e)
        },
    }
}

/// Looks the account up by email and verifies the password in constant
/// time; an unknown email burns the same hashing work and fails with the
/// same error as a wrong password.
pub fn get_user_by_credentials(
    pctx: &PasswordContext,
    store: &Store,
    email: &String,
    password: &str,
) -> (r: Result<User, ApiError>)
    requires
        pctx.wf(),
        store.wf(),
    ensures
        r matches Ok(u) ==> store.users@.contains(u) && u.email@ == email@ && u.wf() && u.id >= 1
            && argon2_verifies(password@, u.password_hash@),
        (r is Ok) <==> credentials_match_email(store.users@, email@, password@),
        r is Err ==> (r == Err::<User, ApiError>(ApiError::Auth(AuthError::InvalidCredentials)) || r
            == Err::<User, ApiError>(ApiError::PasswordHash)),
{
    let user_opt = store.find_user_by_email(email);
    let stored: Option<&str> = match &user_opt {
        Some(u) => Some(u.password_hash.as_str()),
        None => None,
    };
    let checked = verify_password(pctx, password, stored);
    match checked {
        Ok(()) => match user_opt {
            Some(u) => {
                proof {
                    let w = choose|w: int|
                        0 <= w < store.users@.len() && store.users@[w] == u;
                    assert(store.users@[w].email@ == email@ && argon2_verifies(
                        password@,
                        store.users@[w].password_hash@,
                    ));
                }
                Ok(u)
            },
            None => Err(ApiError::Auth(AuthError::InvalidCredentials)),
        },
        Err(e) => {
            proof {
                match user_opt {
                    Some(u) => {
                        let w = choose|w: int|
                            0 <= w < store.users@.len() && store.users@[w] == u;
                        assert forall|i: int|
                            0 <= i < store.users@.len() && (#[trigger] store.users@[i]).email@
                                == email@ implies !argon2_verifies(
                            password@,
                            store.users@[i].password_hash@,
                        ) by {
                            if i < w {
                                assert(store.users@[i].email@ != store.users@[w].email@);
                            }
                            if i > w {
                                assert(store.users@[w].email@ != store.users@[i].email@);
                            }
                            assert(i == w);
                            assert(store.users@[i] == u);
                        }
                    },
                    None => {},
                }
            }
            Err(e)
        },
    }
}

/// Verifies the password and, when the account has two-factor enabled, a
/// valid second factor; the credential check for every credentialed flow.
pub fn check_password_and_mfa_if_enabled(
    pctx: &PasswordContext,
    tctx: &TwoFactorContext,
    store: &mut Store,
    user_id: i32,
    password: &str,
    mfa_code: Option<&str>,
    now: i64,
) -> (r: Result<User, ApiError>)
    requires
        pctx.wf(),
        tctx.wf(),
        old(store).wf(),
        ts_wf(now),
    ensures
        final(store).wf(),
        final(store).users == old(store).users,
        final(store).sessions == old(store).sessions,
        final(store).next_code_id == old(store).next_code_id,
        final(store).next_user_id == old(store).next_user_id,
        final(store).next_session_id == old(store).next_session_id,
        match mfa_code {
            Some(c) => final(store).recovery_codes == old(store).recovery_codes || consume_pass(
                old(store).recovery_codes@,
                final(store).recovery_codes@,
                user_id,
                submitted_code_hash(c@),
                now,
            ),
            None => final(store).recovery_codes == old(store).recovery_codes,
        },
        r matches Ok(u) ==> old(store).users@.contains(u) && u.id == user_id && u.wf()
            && argon2_verifies(password@, u.password_hash@),
        r is Ok ==> credentials_match_id(old(store).users@, user_id, password@),
        !credentials_match_id(old(store).users@, user_id, password@) ==> r is Err,
        (credentials_match_id(old(store).users@, user_id, password@) && !account_enabled_by_id(
            old(store).users@,
            user_id,
        )) ==> (r is Ok && *final(store) == *old(store)),
        ({
            &&& credentials_match_id(old(store).users@, user_id, password@)
            &&& mfa_code matches Some(c) && trim_of(c@).len() > 0 && !spec_looks_like_totp(
                vstd::utf8::encode_utf8(trim_of(c@)),
            ) && crate::store::count_consumable(
                old(store).recovery_codes@,
                user_id,
                submitted_code_hash(c@),
            ) == 1
        }) ==> r is Ok,
        r is Err ==> (r == Err::<User, ApiError>(ApiError::Auth(AuthError::InvalidCredentials)) || r
            == Err::<User, ApiError>(ApiError::PasswordHash) || r == Err::<User, ApiError>(
            ApiError::Auth(AuthError::TwoFactorRequired),
        ) || r == Err::<User, ApiError>(ApiError::Auth(AuthError::TwoFactorInvalid)) || r == Err::<
            User,
            ApiError,
        >(ApiError::TwoFa(TwoFactorError::Internal))),
{
    let user = match check_password(pctx, store, user_id, password) {
        Ok(u) => u,
        Err(e) => {
            return Err(e);
        },
    };
    proof {
        assert(user.id >= 1);
        let w = choose|w: int| 0 <= w < store.users@.len() && store.users@[w] == user;
        if user.totp_enabled {
            assert(account_enabled_by_id(store.users@, user_id));
        }
    }
    match require_mfa_if_enabled(tctx, store, &user, mfa_code, now) {
        Ok(()) => Ok(user),
        Err(e) => Err(e),
    }
}

/// Registers a new account and opens its first session: validates the
/// inputs, stores the freshly hashed password, inserts the account (failing
/// with `Conflict` when the email or nickname is taken), and creates a
/// session whose four timestamps all start now.
pub fn register(
    pctx: &PasswordContext,
    store: &mut Store,
    email: String,
    nickname: String,
    password: &str,
    device_id: String,
    device_name: Option<String>,
    ip_address: Option<String>,
    now: i64,
) -> (r: Result<(User, Session, SessionToken), ApiError>)
    requires
        pctx.wf(),
        old(store).wf(),
        ts_wf(now),
    ensures
        final(store).wf(),
        final(store).recovery_codes == old(store).recovery_codes,
        match r {
            Ok((u, s, t)) => {
                &&& u.email@ == email@
                &&& u.nickname@ == nickname@
                &&& argon2_verifies(password@, u.password_hash@)
                &&& !u.totp_enabled
                &&& u.totp_secret_enc is None
                &&& u.created_at == now
                &&& !has_user_with_email(old(store).users@, email@)
                &&& !has_user_with_nickname(old(store).users@, nickname@)
                &&& final(store).users@ == old(store).users@.push(u)
                &&& s.user_id == u.id
                &&& s.device_id@ == device_id@
                &&& s.token_hash@ == blake3_of(t@)
                &&& s.created_at == now
                &&& s.refreshed_at == now
                &&& s.last_used_at == now
                &&& s.last_authenticated_at == now
                &&& final(store).sessions@.contains(s)
            },
            Err(ApiError::Validation(_)) => {
                &&& {
                    ||| !(8 <= password.spec_bytes().len() <= 128)
                    ||| !(3 <= vstd::utf8::encode_utf8(nickname@).len() <= 16)
                    ||| (exists|i: int|
                        0 <= i < vstd::utf8::encode_utf8(nickname@).len() && !validate::is_nickname_byte(
                            #[trigger] vstd::utf8::encode_utf8(nickname@)[i],
                        ))
                    ||| (exists|i: int|
                        0 <= i < vstd::utf8::encode_utf8(nickname@).len() && validate::is_space_byte(
                            #[trigger] vstd::utf8::encode_utf8(nickname@)[i],
                        ))
                }
                &&& *final(store) == *old(store)
            },
            Err(ApiError::Conflict) => (has_user_with_email(old(store).users@, email@)
                || has_user_with_nickname(old(store).users@, nickname@)) && *final(store) == *old(store),
            Err(ApiError::Internal) => true,
            Err(ApiError::PasswordHash) => false,
            Err(_) => false,
        },
        !(8 <= password.spec_bytes().len() <= 128) ==> r == Err::<
            (User, Session, SessionToken),
            ApiError,
        >(ApiError::Validation(crate::errors::ValidationError::Length)) && *final(store) == *old(
            store,
        ),
        ({
            &&& 8 <= password.spec_bytes().len() <= 128
            &&& validate::spec_nickname_check(vstd::utf8::encode_utf8(nickname@)) is Err
        }) ==> (r matches Err(e) && e == ApiError::Validation(
            validate::spec_nickname_check(vstd::utf8::encode_utf8(nickname@)) ->Err_0,
        )) && *final(store) == *old(store),
        r == Err::<(User, Session, SessionToken), ApiError>(ApiError::Internal) ==> (8
            <= password.spec_bytes().len() <= 128 && validate::spec_nickname_check(
            vstd::utf8::encode_utf8(nickname@),
        ) is Ok),
        ({
            &&& 8 <= password.spec_bytes().len() <= 128
            &&& validate::spec_nickname_check(vstd::utf8::encode_utf8(nickname@)) is Ok
            &&& has_user_with_email(old(store).users@, email@) || has_user_with_nickname(
                old(store).users@,
                nickname@,
            )
        }) ==> (r == Err::<(User, Session, SessionToken), ApiError>(ApiError::Conflict) || r
            == Err::<(User, Session, SessionToken), ApiError>(ApiError::Internal)),
        ({
            &&& 8 <= password.spec_bytes().len() <= 128
            &&& validate::spec_nickname_check(vstd::utf8::encode_utf8(nickname@)) is Ok
            &&& !has_user_with_email(old(store).users@, email@)
            &&& !has_user_with_nickname(old(store).users@, nickname@)
            &&& old(store).next_user_id < i32::MAX
            &&& old(store).next_session_id < i32::MAX
        }) ==> (r is Ok || r == Err::<(User, Session, SessionToken), ApiError>(ApiError::Internal)),
{
    if let Err(e) = validate::password(password) {
        return Err(ApiError::Validation(e));
    }
    if let Err(e) = validate::nickname(nickname.as_str()) {
        return Err(ApiError::Validation(e));
    }
    let password_hash = match hash_password(password) {
        Ok(h) => h,
        Err(e) => {
            return Err(e);
        },
    };
    let new_user = NewUser {
        email,
        nickname,
        totp_enabled: false,
        totp_secret_enc: None,
        totp_confirmed_at: None,
        password_hash,
        created_at: now,
        avatar_url: None,
    };
    let user = match store.insert_user(new_user) {
        Ok(u) => u,
        Err(e) => {
            return Err(e);
        },
    };
    let (session, token) = match create_session(
        store,
        user.id,
        device_id,
        device_name,
        ip_address,
        now,
    ) {
        Ok(st) => st,
        Err(e) => {
            return Err(e);
        },
    };
    Ok((user, session, token))
}

/// Logs an account in: verifies email and password (and the second factor
/// when enabled), then rotates the session already held by this device or
/// creates a fresh one. Either way the resulting session's
/// `last_authenticated_at` is now: login is a credential-verifying rotation.
pub fn login(
    pctx: &PasswordContext,
    tctx: &TwoFactorContext,
    store: &mut Store,
    email: &String,
    password: &str,
    mfa_code: Option<&str>,
    device_id: String,
    device_name: Option<String>,
    ip_address: Option<String>,
    now: i64,
) -> (r: Result<(User, Session, SessionToken), ApiError>)
    requires
        pctx.wf(),
        tctx.wf(),
        old(store).wf(),
        ts_wf(now),
    ensures
        final(store).wf(),
        final(store).users == old(store).users,
        match r {
            Ok((u, s, t)) => {
                &&& old(store).users@.contains(u)
                &&& u.email@ == email@
                &&& argon2_verifies(password@, u.password_hash@)
                &&& s.user_id == u.id
                &&& s.device_id@ == device_id@
                &&& s.token_hash@ == blake3_of(t@)
                &&& s.refreshed_at == now
                &&& s.last_used_at == now
                &&& s.last_authenticated_at == now
                &&& final(store).sessions@.contains(s)
            },
            Err(e) => {
                ||| e == ApiError::Auth(AuthError::InvalidCredentials)
                ||| e == ApiError::Auth(AuthError::TwoFactorRequired)
                ||| e == ApiError::Auth(AuthError::TwoFactorInvalid)
                ||| e == ApiError::Auth(AuthError::SessionMismatch)
                ||| e == ApiError::TwoFa(TwoFactorError::Internal)
                ||| e == ApiError::PasswordHash
                ||| e == ApiError::Internal
            },
        },
        !credentials_match_email(old(store).users@, email@, password@) ==> r is Err,
        ({
            &&& credentials_match_email(old(store).users@, email@, password@)
            &&& !account_enabled_by_email(old(store).users@, email@)
            &&& old(store).next_session_id < i32::MAX
        }) ==> r is Ok,
{
    let user = match get_user_by_credentials(pctx, store, email, password) {
        Ok(u) => u,
        Err(e) => {
            return Err(e);
        },
    };
    proof {
        let w = choose|w: int| 0 <= w < store.users@.len() && store.users@[w] == user;
        if user.totp_enabled {
            assert(account_enabled_by_email(store.users@, email@));
        }
    }
    if let Err(e) = require_mfa_if_enabled(tctx, store, &user, mfa_code, now) {
        return Err(e);
    }
    match store.find_session_for_device(user.id, &device_id) {
        Some(existing) => {
            let ghost pre_sessions = store.sessions@;
            proof {
                let w = choose|w: int|
                    0 <= w < pre_sessions.len() && pre_sessions[w] == existing;
                assert(pre_sessions[w].id == existing.id && pre_sessions[w].token_hash@
                    == existing.token_hash@);
            }
            match rotate_session(store, &existing, true, device_id, device_name, ip_address, now) {
                Ok((s, t)) => {
                    proof {
                        let w = choose|w: int|
                            {
                                &&& 0 <= w < pre_sessions.len()
                                &&& pre_sessions[w].id == existing.id
                                &&& pre_sessions[w].token_hash@ == existing.token_hash@
                                &&& store.sessions@ == pre_sessions.update(w, s)
                            };
                        assert(store.sessions@[w] == s);
                    }
                    Ok((user, s, t))
                },
                Err(e) => Err(e),
            }
        },
        None => {
            match create_session(store, user.id, device_id, device_name, ip_address, now) {
                Ok((s, t)) => Ok((user, s, t)),
                Err(e) => Err(e),
            }
        },
    }
}

/// Reauthenticates the current session: verifies the password (and second
/// factor when enabled) and performs a credential-verifying rotation, which
/// resets the forced-expiry timer. This flow does not itself enforce the
/// reauth windows — it is exactly how an expired session becomes fresh
/// again.
pub fn reauth(
    pctx: &PasswordContext,
    tctx: &TwoFactorContext,
    store: &mut Store,
    session: &Session,
    password: &str,
    mfa_code: Option<&str>,
    device_id: String,
    device_name: Option<String>,
    ip_address: Option<String>,
    now: i64,
) -> (r: Result<(Session, SessionToken), ApiError>)
    requires
        pctx.wf(),
        tctx.wf(),
        old(store).wf(),
        session.wf(),
        ts_wf(now),
    ensures
        final(store).wf(),
        final(store).users == old(store).users,
        match r {
            Ok((s, t)) => {
                &&& credentials_match_id(old(store).users@, session.user_id, password@)
                &&& s.id == session.id
                &&& s.user_id == session.user_id
                &&& s.token_hash@ == blake3_of(t@)
                &&& s.refreshed_at == now
                &&& s.last_used_at == now
                &&& s.last_authenticated_at == now
                &&& final(store).sessions@.contains(s)
            },
            Err(e) => {
                ||| e == ApiError::Auth(AuthError::InvalidCredentials)
                ||| e == ApiError::Auth(AuthError::TwoFactorRequired)
                ||| e == ApiError::Auth(AuthError::TwoFactorInvalid)
                ||| e == ApiError::Auth(AuthError::SessionMismatch)
                ||| e == ApiError::TwoFa(TwoFactorError::Internal)
                ||| e == ApiError::PasswordHash
            },
        },
        !credentials_match_id(old(store).users@, session.user_id, password@) ==> r is Err,
        ({
            &&& credentials_match_id(old(store).users@, session.user_id, password@)
            &&& !account_enabled_by_id(old(store).users@, session.user_id)
            &&& (exists|i: int|
                0 <= i < old(store).sessions@.len() && (#[trigger] old(store).sessions@[i]).id
                    == session.id && old(store).sessions@[i].token_hash@ == session.token_hash@)
        }) ==> r is Ok,
{
    let checked = check_password_and_mfa_if_enabled(
        pctx,
        tctx,
        store,
        session.user_id,
        password,
        mfa_code,
        now,
    );
    if let Err(e) = checked {
        return Err(e);
    }
    let ghost pre_sessions = store.sessions@;
    match rotate_session(store, session, true, device_id, device_name, ip_address, now) {
        Ok((s, t)) => {
            proof {
                let w = choose|w: int|
                    {
                        &&& 0 <= w < pre_sessions.len()
                        &&& pre_sessions[w].id == session.id
                        &&& pre_sessions[w].token_hash@ == session.token_hash@
                        &&& store.sessions@ == pre_sessions.update(w, s)
                    };
                assert(store.sessions@[w] == s);
            }
            Ok((s, t))
        },
        Err(e) => Err(e),
    }
}


/// A user row carrying a freshly stored pending secret.
pub open spec fn pending_secret_set(u0: User, u1: User) -> bool {
    &&& u1.id == u0.id
    &&& !u1.totp_enabled
    &&& u1.totp_secret_enc is Some
    &&& u1.totp_confirmed_at is None
}

/// Collects the ids of this user's sessions other than the current one.
fn collect_other_session_ids(sessions: &Vec<Session>, user_id: i32, current_id: i32) -> (r: Vec<
    i32,
>)
    ensures
        forall|x: i32|
            #[trigger] r@.contains(x) <==> (exists|j: int|
                0 <= j < sessions@.len() && (#[trigger] sessions@[j]).user_id == user_id
                    && sessions@[j].id == x && x != current_id),
{
    let mut ids: Vec<i32> = Vec::new();
    let mut i: usize = 0;
    while i < sessions.len()
        invariant
            i <= sessions@.len(),
            forall|x: i32|
                #[trigger] ids@.contains(x) <==> (exists|j: int|
                    0 <= j < i && (#[trigger] sessions@[j]).user_id == user_id && sessions@[j].id
                        == x && x != current_id),
        decreases sessions@.len() - i,
    {
        let ghost prev = ids@;
        if sessions[i].user_id == user_id && sessions[i].id != current_id {
            ids.push(sessions[i].id);
            proof {
                assert forall|x: i32| #[trigger] ids@.contains(x) implies (exists|j: int|
                    0 <= j < i + 1 && (#[trigger] sessions@[j]).user_id == user_id
                        && sessions@[j].id == x && x != current_id) by {
                    let w = choose|w: int| 0 <= w < ids@.len() && ids@[w] == x;
                    if w < prev.len() {
                        assert(prev[w] == x);
                        assert(prev.contains(x));
                    } else {
                        assert(x == sessions@[i as int].id);
                        assert(sessions@[i as int].user_id == user_id);
                    }
                }
                assert forall|x: i32|
                    (exists|j: int|
                        0 <= j < i + 1 && (#[trigger] sessions@[j]).user_id == user_id
                            && sessions@[j].id == x && x != current_id) implies #[trigger] ids@.contains(
                    x) by {
                    let j = choose|j: int|
                        0 <= j < i + 1 && (#[trigger] sessions@[j]).user_id == user_id
                            && sessions@[j].id == x && x != current_id;
                    if j < i {
                        assert(prev.contains(x));
                        let w = choose|w: int| 0 <= w < prev.len() && prev[w] == x;
                        assert(ids@[w] == x);
                    } else {
                        assert(ids@[ids@.len() - 1] == x);
                    }
                }
            }
        } else {
            proof {
                assert forall|x: i32|
                    (exists|j: int|
                        0 <= j < i + 1 && (#[trigger] sessions@[j]).user_id == user_id
                            && sessions@[j].id == x && x != current_id) implies #[trigger] ids@.contains(
                    x) by {
                    let j = choose|j: int|
                        0 <= j < i + 1 && (#[trigger] sessions@[j]).user_id == user_id
                            && sessions@[j].id == x && x != current_id;
                    assert(j < i);
                }
            }
        }
        i = i + 1;
    }
    ids
}

/// Logs the current session out: forces its `last_authenticated_at` to the
/// epoch, which makes every subsequent reauth check fail. The row itself
/// stays, so the deliberate terminal signal can be distinguished from a
/// vanished session.
pub fn logout(store: &mut Store, session: &Session)
    requires
        old(store).wf(),
    ensures
        final(store).wf(),
        final(store).users == old(store).users,
        final(store).recovery_codes == old(store).recovery_codes,
        final(store).sessions@.len() == old(store).sessions@.len(),
        forall|j: int|
            0 <= j < old(store).sessions@.len() ==> final(store).sessions@[j] == (if (
            #[trigger] old(store).sessions@[j]).user_id == session.user_id && old(store).sessions@[j].id == session.id {
                crate::store::spec_deauthed(old(store).sessions@[j])
            } else {
                old(store).sessions@[j]
            }),
{
    let ids: Vec<i32> = vec![session.id];
    proof {
        assert forall|x: i32| #[trigger] ids@.contains(x) <==> x == session.id by {
            if x == session.id {
                assert(ids@[0] == x);
            }
            if ids@.contains(x) {
                let w = choose|w: int| 0 <= w < ids@.len() && ids@[w] == x;
                assert(w == 0);
            }
        }
    }
    store.deauth_sessions_by_ids(session.user_id, &ids);
}

/// Logs out the given sessions of the current user after verifying the
/// password (and second factor when enabled). When the current session is
/// among them, the deliberate `DidLogout` signal tells the caller to clear
/// its cookies.
pub fn logout_sessions(
    pctx: &PasswordContext,
    tctx: &TwoFactorContext,
    store: &mut Store,
    session: &Session,
    password: &str,
    mfa_code: Option<&str>,
    session_ids: &Vec<i32>,
    now: i64,
) -> (r: Result<(), ApiError>)
    requires
        pctx.wf(),
        tctx.wf(),
        old(store).wf(),
        ts_wf(now),
    ensures
        final(store).wf(),
        final(store).users == old(store).users,
        final(store).sessions@.len() == old(store).sessions@.len(),
        (r is Ok || r == Err::<(), ApiError>(ApiError::Auth(AuthError::DidLogout))) ==> forall|
            j: int,
        |
            0 <= j < old(store).sessions@.len() ==> final(store).sessions@[j] == (if (
            #[trigger] old(store).sessions@[j]).user_id == session.user_id
                && session_ids@.contains(old(store).sessions@[j].id) {
                crate::store::spec_deauthed(old(store).sessions@[j])
            } else {
                old(store).sessions@[j]
            }),
        r == Err::<(), ApiError>(ApiError::Auth(AuthError::DidLogout)) ==> session_ids@.contains(
            session.id,
        ),
        (r is Ok || r == Err::<(), ApiError>(ApiError::Auth(AuthError::DidLogout)))
            ==> credentials_match_id(old(store).users@, session.user_id, password@),
        !credentials_match_id(old(store).users@, session.user_id, password@) ==> (r is Err && final(store).sessions == old(store).sessions),
        ({
            &&& credentials_match_id(old(store).users@, session.user_id, password@)
            &&& !account_enabled_by_id(old(store).users@, session.user_id)
        }) ==> (if session_ids@.contains(session.id) {
            r == Err::<(), ApiError>(ApiError::Auth(AuthError::DidLogout))
        } else {
            r is Ok
        }),
{
    let checked = check_password_and_mfa_if_enabled(
        pctx,
        tctx,
        store,
        session.user_id,
        password,
        mfa_code,
        now,
    );
    if let Err(e) = checked {
        return Err(e);
    }
    store.deauth_sessions_by_ids(session.user_id, session_ids);
    if crate::store::ids_contain(session_ids, session.id) {
        Err(ApiError::Auth(AuthError::DidLogout))
    } else {
        Ok(())
    }
}

/// Logs out every other session of the current user after verifying the
/// password (and second factor when enabled); the current session stays
/// authenticated.
pub fn logout_other_sessions(
    pctx: &PasswordContext,
    tctx: &TwoFactorContext,
    store: &mut Store,
    session: &Session,
    password: &str,
    mfa_code: Option<&str>,
    now: i64,
) -> (r: Result<usize, ApiError>)
    requires
        pctx.wf(),
        tctx.wf(),
        old(store).wf(),
        ts_wf(now),
    ensures
        final(store).wf(),
        final(store).users == old(store).users,
        final(store).sessions@.len() == old(store).sessions@.len(),
        r is Ok ==> forall|j: int|
            0 <= j < old(store).sessions@.len() ==> final(store).sessions@[j] == (if (
            #[trigger] old(store).sessions@[j]).user_id == session.user_id && old(store).sessions@[j].id != session.id {
                crate::store::spec_deauthed(old(store).sessions@[j])
            } else {
                old(store).sessions@[j]
            }),
        r is Ok ==> credentials_match_id(old(store).users@, session.user_id, password@),
        !credentials_match_id(old(store).users@, session.user_id, password@) ==> (r is Err && final(store).sessions == old(store).sessions),
        ({
            &&& credentials_match_id(old(store).users@, session.user_id, password@)
            &&& !account_enabled_by_id(old(store).users@, session.user_id)
        }) ==> r is Ok,
{
    let checked = check_password_and_mfa_if_enabled(
        pctx,
        tctx,
        store,
        session.user_id,
        password,
        mfa_code,
        now,
    );
    if let Err(e) = checked {
        return Err(e);
    }
    let ids = collect_other_session_ids(&store.sessions, session.user_id, session.id);
    let ghost pre = store.sessions@;
    let count = store.deauth_sessions_by_ids(session.user_id, &ids);
    proof {
        assert forall|j: int|
            0 <= j < pre.len() implies store.sessions@[j] == (if (#[trigger] pre[j]).user_id
            == session.user_id && pre[j].id != session.id {
            crate::store::spec_deauthed(pre[j])
        } else {
            pre[j]
        }) by {
            if pre[j].user_id == session.user_id && pre[j].id != session.id {
                assert(ids@.contains(pre[j].id));
            } else {
                if ids@.contains(pre[j].id) {
                    let w = choose|w: int|
                        0 <= w < pre.len() && (#[trigger] pre[w]).user_id == session.user_id
                            && pre[w].id == pre[j].id && pre[j].id != session.id;
                    if w < j {
                        assert(pre[w].id != pre[j].id);
                    }
                    if w > j {
                        assert(pre[j].id != pre[w].id);
                    }
                    assert(w == j);
                }
            }
        }
    }
    Ok(count)
}

/// Changes the account password after verifying the current one (and the
/// second factor when enabled); unless asked otherwise, every other session
/// is logged out, since its holder may not know the new password.
pub fn change_pw(
    pctx: &PasswordContext,
    tctx: &TwoFactorContext,
    store: &mut Store,
    session: &Session,
    password: &str,
    mfa_code: Option<&str>,
    new_password: &str,
    keep_other_sessions_logged_in: bool,
    now: i64,
) -> (r: Result<(), ApiError>)
    requires
        pctx.wf(),
        tctx.wf(),
        old(store).wf(),
        ts_wf(now),
    ensures
        final(store).wf(),
        r is Ok ==> credentials_match_id(old(store).users@, session.user_id, password@),
        r is Ok ==> (exists|i: int|
            0 <= i < final(store).users@.len() && (#[trigger] final(store).users@[i]).id
                == session.user_id && argon2_verifies(
                new_password@,
                final(store).users@[i].password_hash@,
            )),
        r is Ok ==> 8 <= new_password.spec_bytes().len() <= 128,
        (r is Ok && !keep_other_sessions_logged_in) ==> forall|j: int|
            0 <= j < old(store).sessions@.len() ==> final(store).sessions@[j] == (if (
            #[trigger] old(store).sessions@[j]).user_id == session.user_id && old(store).sessions@[j].id != session.id {
                crate::store::spec_deauthed(old(store).sessions@[j])
            } else {
                old(store).sessions@[j]
            }),
        (r is Ok && keep_other_sessions_logged_in) ==> final(store).sessions == old(store).sessions,
        !credentials_match_id(old(store).users@, session.user_id, password@) ==> r is Err,
        r != Err::<(), ApiError>(ApiError::NotFound),
        ({
            &&& credentials_match_id(old(store).users@, session.user_id, password@)
            &&& !account_enabled_by_id(old(store).users@, session.user_id)
            &&& !(8 <= new_password.spec_bytes().len() <= 128)
        }) ==> r == Err::<(), ApiError>(
            ApiError::Validation(crate::errors::ValidationError::Length),
        ),
        ({
            &&& credentials_match_id(old(store).users@, session.user_id, password@)
            &&& !account_enabled_by_id(old(store).users@, session.user_id)
            &&& 8 <= new_password.spec_bytes().len() <= 128
        }) ==> (r is Ok || r == Err::<(), ApiError>(ApiError::Internal)),
{
    let checked = check_password_and_mfa_if_enabled(
        pctx,
        tctx,
        store,
        session.user_id,
        password,
        mfa_code,
        now,
    );
    let user = match checked {
        Ok(u) => u,
        Err(e) => {
            return Err(e);
        },
    };
    if let Err(e) = crate::validate::password(new_password) {
        return Err(ApiError::Validation(e));
    }
    let new_hash = match hash_password(new_password) {
        Ok(h) => h,
        Err(e) => {
            return Err(e);
        },
    };
    let ghost pre_users = store.users@;
    let updated = store.update_password_hash(session.user_id, new_hash);
    if updated == 0 {
        // The credential check just found this account, and nothing between
        // touched the user table, so the conditional update cannot miss.
        proof {
            let w = choose|w: int| 0 <= w < pre_users.len() && pre_users[w] == user;
            assert(has_user_with_id(pre_users, session.user_id));
            assert(false);
        }
        return Err(ApiError::NotFound);
    }
    if !keep_other_sessions_logged_in {
        let ids = collect_other_session_ids(&store.sessions, session.user_id, session.id);
        let ghost pre = store.sessions@;
        store.deauth_sessions_by_ids(session.user_id, &ids);
        proof {
            assert forall|j: int|
                0 <= j < pre.len() implies store.sessions@[j] == (if (#[trigger] pre[j]).user_id
                == session.user_id && pre[j].id != session.id {
                crate::store::spec_deauthed(pre[j])
            } else {
                pre[j]
            }) by {
                if pre[j].user_id == session.user_id && pre[j].id != session.id {
                    assert(ids@.contains(pre[j].id));
                } else {
                    if ids@.contains(pre[j].id) {
                        let w = choose|w: int|
                            0 <= w < pre.len() && (#[trigger] pre[w]).user_id == session.user_id
                                && pre[w].id == pre[j].id && pre[j].id != session.id;
                        if w < j {
                            assert(pre[w].id != pre[j].id);
                        }
                        if w > j {
                            assert(pre[j].id != pre[w].id);
                        }
                        assert(w == j);
                    }
                }
            }
        }
    }
    Ok(())
}

/// Deletes the given sessions of the current user outright after verifying
/// the password (and second factor when enabled); deleting the current
/// session yields the `DidLogout` signal.
pub fn delete_sessions(
    pctx: &PasswordContext,
    tctx: &TwoFactorContext,
    store: &mut Store,
    session: &Session,
    password: &str,
    mfa_code: Option<&str>,
    session_ids: &Vec<i32>,
    now: i64,
) -> (r: Result<(), ApiError>)
    requires
        pctx.wf(),
        tctx.wf(),
        old(store).wf(),
        ts_wf(now),
    ensures
        final(store).wf(),
        final(store).users == old(store).users,
        (r is Ok || r == Err::<(), ApiError>(ApiError::Auth(AuthError::DidLogout))) ==> final(store).sessions@ == crate::store::spec_without(
            old(store).sessions@,
            session.user_id,
            session_ids@,
        ),
        r == Err::<(), ApiError>(ApiError::Auth(AuthError::DidLogout)) ==> session_ids@.contains(
            session.id,
        ),
        (r is Ok || r == Err::<(), ApiError>(ApiError::Auth(AuthError::DidLogout)))
            ==> credentials_match_id(old(store).users@, session.user_id, password@),
        !credentials_match_id(old(store).users@, session.user_id, password@) ==> (r is Err && final(store).sessions == old(store).sessions),
        ({
            &&& credentials_match_id(old(store).users@, session.user_id, password@)
            &&& !account_enabled_by_id(old(store).users@, session.user_id)
        }) ==> (if session_ids@.contains(session.id) {
            r == Err::<(), ApiError>(ApiError::Auth(AuthError::DidLogout))
        } else {
            r is Ok
        }),
{
    let checked = check_password_and_mfa_if_enabled(
        pctx,
        tctx,
        store,
        session.user_id,
        password,
        mfa_code,
        now,
    );
    if let Err(e) = checked {
        return Err(e);
    }
    store.delete_sessions_by_ids(session.user_id, session_ids);
    if crate::store::ids_contain(session_ids, session.id) {
        Err(ApiError::Auth(AuthError::DidLogout))
    } else {
        Ok(())
    }
}

/// Reports the current session to the client.
pub fn current_session(session: &Session) -> (r: SessionInfo)
    requires
        session.wf(),
    ensures
        r.session_id == session.id,
        r.user_id == session.user_id,
{
    SessionInfo::from_session(session)
}

/// The ids of this user's sessions, in table order.
pub open spec fn user_session_ids(sessions: Seq<Session>, user_id: i32) -> Seq<i32>
    decreases sessions.len(),
{
    if sessions.len() == 0 {
        Seq::empty()
    } else {
        let rest = user_session_ids(sessions.drop_last(), user_id);
        if sessions.last().user_id == user_id {
            rest.push(sessions.last().id)
        } else {
            rest
        }
    }
}

/// The session ids a report lists, in order.
pub open spec fn info_ids(infos: Seq<SessionInfo>) -> Seq<i32> {
    infos.map_values(|x: SessionInfo| x.session_id)
}

/// Lists every session of the current user, in table order, after verifying
/// the password (and second factor when enabled).
pub fn all_sessions(
    pctx: &PasswordContext,
    tctx: &TwoFactorContext,
    store: &mut Store,
    session: &Session,
    password: &str,
    mfa_code: Option<&str>,
    now: i64,
) -> (r: Result<Vec<SessionInfo>, ApiError>)
    requires
        pctx.wf(),
        tctx.wf(),
        old(store).wf(),
        ts_wf(now),
    ensures
        final(store).wf(),
        final(store).users == old(store).users,
        final(store).sessions == old(store).sessions,
        match r {
            Ok(infos) => {
                &&& credentials_match_id(old(store).users@, session.user_id, password@)
                &&& info_ids(infos@) == user_session_ids(old(store).sessions@, session.user_id)
                &&& forall|k: int|
                    0 <= k < infos@.len() ==> (#[trigger] infos@[k]).user_id == session.user_id
            },
            Err(e) => {
                ||| e == ApiError::Auth(AuthError::InvalidCredentials)
                ||| e == ApiError::Auth(AuthError::TwoFactorRequired)
                ||| e == ApiError::Auth(AuthError::TwoFactorInvalid)
                ||| e == ApiError::TwoFa(TwoFactorError::Internal)
                ||| e == ApiError::PasswordHash
            },
        },
        ({
            &&& credentials_match_id(old(store).users@, session.user_id, password@)
            &&& !account_enabled_by_id(old(store).users@, session.user_id)
        }) ==> r is Ok,
{
    let checked = check_password_and_mfa_if_enabled(
        pctx,
        tctx,
        store,
        session.user_id,
        password,
        mfa_code,
        now,
    );
    if let Err(e) = checked {
        return Err(e);
    }
    let mut infos: Vec<SessionInfo> = Vec::new();
    let mut i: usize = 0;
    while i < store.sessions.len()
        invariant
            store.wf(),
            store.users == old(store).users,
            store.sessions == old(store).sessions,
            credentials_match_id(old(store).users@, session.user_id, password@),
            i <= store.sessions@.len(),
            info_ids(infos@) == user_session_ids(
                store.sessions@.subrange(0, i as int),
                session.user_id,
            ),
            forall|k: int| 0 <= k < infos@.len() ==> (#[trigger] infos@[k]).user_id == session.user_id,
        decreases store.sessions@.len() - i,
    {
        proof {
            assert(store.sessions@.subrange(0, i + 1).drop_last() =~= store.sessions@.subrange(
                0,
                i as int,
            ));
            assert(store.sessions@.subrange(0, i + 1).last() == store.sessions@[i as int]);
        }
        let ghost prev = infos@;
        if store.sessions[i].user_id == session.user_id {
            proof {
                assert(store.sessions@[i as int].wf());
            }
            let info = SessionInfo::from_session(&store.sessions[i]);
            infos.push(info);
            proof {
                assert(info_ids(infos@) =~= info_ids(prev).push(
                    store.sessions@[i as int].id,
                ));
            }
        }
        i = i + 1;
    }
    proof {
        assert(store.sessions@.subrange(0, store.sessions@.len() as int) =~= store.sessions@);
    }
    Ok(infos)
}

/// A password re-verification request body: the current password and, when
/// two-factor authentication is enabled, a second-factor code.
#[derive(Debug, Clone)]
pub struct PasswordInput {
    pub password: String,
    pub mfa_code: Option<String>,
}

/// What starting two-factor enrollment hands back, exactly once: the raw
/// base32 secret for manual entry, the otpauth URL, and a QR code of it.
#[derive(Debug, Clone)]
pub struct TwoFaStartOutput {
    pub base32_secret: String,
    pub url: String,
    pub qr_base64: String,
}

/// A user and the client-facing report of one of their sessions.
#[derive(Debug, Clone)]
pub struct UserSessionInfo {
    pub user: User,
    pub session: SessionInfo,
}

impl UserSessionInfo {
    /// Pairs a user with a session report.
    pub fn new(user: User, session: &Session) -> (r: UserSessionInfo)
        requires
            session.wf(),
        ensures
            r.user == user,
            r.session.session_id == session.id,
            r.session.user_id == session.user_id,
    {
        UserSessionInfo { user, session: SessionInfo::from_session(session) }
    }

    /// Builds the pair from a session by fetching its owning account.
    pub fn from_session(store: &Store, session: &Session) -> (r: Result<UserSessionInfo, ApiError>)
        requires
            store.wf(),
            session.wf(),
        ensures
            r matches Ok(info) ==> store.users@.contains(info.user) && info.user.id
                == session.user_id && info.session.session_id == session.id,
            r is Err <==> !has_user_with_id(store.users@, session.user_id),
            r is Err ==> r == Err::<UserSessionInfo, ApiError>(ApiError::NotFound),
    {
        match store.find_user_by_id(session.user_id) {
            Some(user) => Ok(UserSessionInfo { user, session: SessionInfo::from_session(session) }),
            None => Err(ApiError::NotFound),
        }
    }
}

/// Starts two-factor enrollment: after password re-verification, draws a
/// fresh TOTP secret, returns it to the caller once (base32, URL and QR),
/// and stores it encrypted as the pending secret — guarded on two-factor
/// still being off, so a completed confirmation is never clobbered.
/// Re-entrant while pending: starting again overwrites the pending secret.
pub fn two_fa_start(
    pctx: &PasswordContext,
    tctx: &TwoFactorContext,
    store: &mut Store,
    user_id: i32,
    password: &str,
) -> (r: Result<TwoFaStartOutput, ApiError>)
    requires
        pctx.wf(),
        tctx.wf(),
        old(store).wf(),
    ensures
        final(store).wf(),
        final(store).sessions == old(store).sessions,
        final(store).recovery_codes == old(store).recovery_codes,
        r is Ok ==> credentials_match_id(old(store).users@, user_id, password@),
        !credentials_match_id(old(store).users@, user_id, password@) ==> (r is Err && final(store).users == old(store).users),
        r is Ok ==> (exists|i: int|
            {
                &&& 0 <= i < old(store).users@.len()
                &&& (#[trigger] old(store).users@[i]).id == user_id
                &&& !old(store).users@[i].totp_enabled
                &&& final(store).users@ == old(store).users@.update(
                    i,
                    final(store).users@[i],
                )
                &&& pending_secret_set(old(store).users@[i], final(store).users@[i])
            }),
        r == Err::<TwoFaStartOutput, ApiError>(ApiError::TwoFa(TwoFactorError::AlreadyEnabled))
            ==> account_enabled_by_id(old(store).users@, user_id),
        ({
            &&& credentials_match_id(old(store).users@, user_id, password@)
            &&& account_enabled_by_id(old(store).users@, user_id)
        }) ==> r == Err::<TwoFaStartOutput, ApiError>(ApiError::TwoFa(TwoFactorError::AlreadyEnabled))
            && *final(store) == *old(store),
        ({
            &&& credentials_match_id(old(store).users@, user_id, password@)
            &&& !account_enabled_by_id(old(store).users@, user_id)
        }) ==> (r is Ok || r == Err::<TwoFaStartOutput, ApiError>(
            ApiError::TwoFa(TwoFactorError::Internal),
        )),
{
    let user = match check_password(pctx, store, user_id, password) {
        Ok(u) => u,
        Err(e) => {
            return Err(e);
        },
    };
    proof {
        let w = choose|w: int| 0 <= w < store.users@.len() && store.users@[w] == user;
        if user.totp_enabled {
            assert(account_enabled_by_id(store.users@, user_id));
        }
        if account_enabled_by_id(store.users@, user_id) {
            let i = choose|i: int|
                0 <= i < store.users@.len() && (#[trigger] store.users@[i]).id == user_id
                    && store.users@[i].totp_enabled;
            lemma_same_account_row(store.users@, user, i);
        }
    }
    if user.totp_enabled {
        return Err(ApiError::TwoFa(TwoFactorError::AlreadyEnabled));
    }
    let secret_raw = generate_totp_secret();
    let secret_copy = crate::two_factor::clone_bytes(&secret_raw);
    let totp = match crate::two_factor::totp_for_user(&user.email, secret_copy) {
        Ok(t) => t,
        Err(_) => {
            return Err(ApiError::TwoFa(TwoFactorError::Internal));
        },
    };
    let base32_secret = crate::two_factor::totp_secret_base32(&totp);
    let url = match crate::two_factor::totp_url(&totp) {
        Ok(u) => u,
        Err(_) => {
            return Err(ApiError::TwoFa(TwoFactorError::Internal));
        },
    };
    let qr_base64 = match crate::two_factor::totp_qr_base64(&totp) {
        Ok(q) => q,
        Err(_) => {
            return Err(ApiError::TwoFa(TwoFactorError::Internal));
        },
    };
    proof {
        assert(user.id >= 1);
    }
    let secret_enc = match encrypt_totp_secret(tctx, user.id, &secret_raw) {
        Ok(enc) => enc,
        Err(e) => {
            return Err(e);
        },
    };
    let ghost pre_users = store.users@;
    let updated = store.set_pending_totp_secret(user.id, secret_enc);
    if updated == 0 {
        proof {
            let w = choose|w: int| 0 <= w < pre_users.len() && pre_users[w] == user;
            assert(pre_users[w].id == user_id && !pre_users[w].totp_enabled);
            assert(false);
        }
        return Err(ApiError::TwoFa(TwoFactorError::AlreadyEnabled));
    }
    Ok(TwoFaStartOutput { base32_secret, url, qr_base64 })
}

/// Confirms two-factor enrollment: after password re-verification and a
/// valid current TOTP code against the pending secret, atomically flips
/// two-factor on — guarded on it still being off and the pending secret
/// still being the one just validated, failing with
/// `ConcurrentRequestRaced` otherwise — then replaces any prior recovery
/// codes with a fresh batch whose plaintexts are returned exactly once.
pub fn two_fa_confirm(
    pctx: &PasswordContext,
    tctx: &TwoFactorContext,
    store: &mut Store,
    user_id: i32,
    password: &str,
    code: &str,
    now: i64,
) -> (r: Result<Vec<String>, ApiError>)
    requires
        pctx.wf(),
        tctx.wf(),
        old(store).wf(),
        ts_wf(now),
    ensures
        final(store).wf(),
        final(store).sessions == old(store).sessions,
        r is Ok ==> credentials_match_id(old(store).users@, user_id, password@),
        r matches Ok(codes) ==> {
            &&& codes@.len() == crate::two_factor::RECOVERY_CODE_COUNT
            &&& (exists|i: int|
                {
                    &&& 0 <= i < old(store).users@.len()
                    &&& (#[trigger] old(store).users@[i]).id == user_id
                    &&& !old(store).users@[i].totp_enabled
                    &&& final(store).users@ == old(store).users@.update(
                        i,
                        (User {
                            totp_enabled: true,
                            totp_confirmed_at: Some(now),
                            ..old(store).users@[i]
                        }),
                    )
                })
            &&& {
                let kept = crate::store::spec_codes_without(old(store).recovery_codes@, user_id);
                &&& final(store).recovery_codes@.len() == kept.len() + codes@.len()
                &&& (forall|k: int|
                    0 <= k < codes@.len() ==> {
                        let row = #[trigger] final(store).recovery_codes@[kept.len() + k];
                        &&& row.user_id == user_id
                        &&& row.code_hash@ == blake3_of(vstd::utf8::encode_utf8(codes@[k]@))
                        &&& row.used_at is None
                        &&& row.created_at == now
                    })
            }
        },
        r is Err ==> *final(store) == *old(store),
        !credentials_match_id(old(store).users@, user_id, password@) ==> r is Err,
        ({
            &&& credentials_match_id(old(store).users@, user_id, password@)
            &&& account_enabled_by_id(old(store).users@, user_id)
        }) ==> r == Err::<Vec<String>, ApiError>(ApiError::TwoFa(TwoFactorError::AlreadyEnabled)),
        ({
            &&& credentials_match_id(old(store).users@, user_id, password@)
            &&& !account_enabled_by_id(old(store).users@, user_id)
            &&& (exists|i: int|
                0 <= i < old(store).users@.len() && (#[trigger] old(store).users@[i]).id == user_id
                    && old(store).users@[i].totp_secret_enc is None)
        }) ==> r == Err::<Vec<String>, ApiError>(ApiError::TwoFa(TwoFactorError::NotStarted)),
{
    let user = match check_password(pctx, store, user_id, password) {
        Ok(u) => u,
        Err(e) => {
            return Err(e);
        },
    };
    proof {
        if user.totp_enabled {
            let w = choose|w: int| 0 <= w < store.users@.len() && store.users@[w] == user;
            assert(account_enabled_by_id(store.users@, user_id));
        }
        if account_enabled_by_id(store.users@, user_id) {
            let i = choose|i: int|
                0 <= i < store.users@.len() && (#[trigger] store.users@[i]).id == user_id
                    && store.users@[i].totp_enabled;
            lemma_same_account_row(store.users@, user, i);
        }
        if exists|i: int|
            0 <= i < store.users@.len() && (#[trigger] store.users@[i]).id == user_id
                && store.users@[i].totp_secret_enc is None {
            let i = choose|i: int|
                0 <= i < store.users@.len() && (#[trigger] store.users@[i]).id == user_id
                    && store.users@[i].totp_secret_enc is None;
            lemma_same_account_row(store.users@, user, i);
        }
    }
    if user.totp_enabled {
        return Err(ApiError::TwoFa(TwoFactorError::AlreadyEnabled));
    }
    let has_secret = user.totp_secret_enc.is_some();
    if !has_secret {
        return Err(ApiError::TwoFa(TwoFactorError::NotStarted));
    }
    proof {
        assert(user.id >= 1);
    }
    let ok = match check_totp_code(tctx, &user, code, now) {
        Ok(b) => b,
        Err(e) => {
            return Err(e);
        },
    };
    if !ok {
        return Err(ApiError::Auth(AuthError::TwoFactorInvalid));
    }
    if store.next_code_id >= i32::MAX - (crate::two_factor::RECOVERY_CODE_COUNT as i32) {
        return Err(ApiError::Internal);
    }
    let ghost pre_users = store.users@;
    let updated = store.confirm_totp(user.id, &user.totp_secret_enc, now);
    if updated == 0 {
        proof {
            let w = choose|w: int| 0 <= w < pre_users.len() && pre_users[w] == user;
            assert(pre_users[w].id == user_id && !pre_users[w].totp_enabled
                && crate::store::opt_str_matches(
                pre_users[w].totp_secret_enc,
                user.totp_secret_enc,
            ));
            assert(false);
        }
        return Err(ApiError::TwoFa(TwoFactorError::ConcurrentRequestRaced));
    }
    let recovery_codes = generate_recovery_codes();
    match replace_recovery_codes(store, user.id, &recovery_codes, now) {
        Ok(()) => Ok(recovery_codes),
        Err(e) => Err(e),
    }
}

/// Disables two-factor authentication: after password plus a valid second
/// factor (TOTP or recovery code), atomically clears enrollment — guarded on
/// the stored secret still matching, failing with `ConcurrentRequestRaced`
/// otherwise — and deletes every recovery code of the account.
pub fn two_fa_disable(
    pctx: &PasswordContext,
    tctx: &TwoFactorContext,
    store: &mut Store,
    user_id: i32,
    password: &str,
    mfa_code: &str,
    now: i64,
) -> (r: Result<(), ApiError>)
    requires
        pctx.wf(),
        tctx.wf(),
        old(store).wf(),
        ts_wf(now),
    ensures
        final(store).wf(),
        final(store).sessions == old(store).sessions,
        r is Ok ==> credentials_match_id(old(store).users@, user_id, password@),
        r is Ok ==> (exists|i: int|
            {
                &&& 0 <= i < final(store).users@.len()
                &&& (#[trigger] final(store).users@[i]).id == user_id
                &&& !final(store).users@[i].totp_enabled
                &&& final(store).users@[i].totp_secret_enc is None
                &&& final(store).users@[i].totp_confirmed_at is None
            }),
        r is Ok ==> crate::store::count_codes_of_user(final(store).recovery_codes@, user_id) == 0,
        !credentials_match_id(old(store).users@, user_id, password@) ==> (r is Err && final(store).users == old(store).users),
        r is Err ==> final(store).users == old(store).users,
        r is Err ==> (final(store).recovery_codes == old(store).recovery_codes || consume_pass(
            old(store).recovery_codes@,
            final(store).recovery_codes@,
            user_id,
            submitted_code_hash(mfa_code@),
            now,
        )),
        ({
            &&& credentials_match_id(old(store).users@, user_id, password@)
            &&& !account_enabled_by_id(old(store).users@, user_id)
        }) ==> r == Err::<(), ApiError>(ApiError::TwoFa(TwoFactorError::NotEnabled)) && final(store).users
            == old(store).users && final(store).recovery_codes == old(store).recovery_codes,
        ({
            &&& credentials_match_id(old(store).users@, user_id, password@)
            &&& account_enabled_by_id(old(store).users@, user_id)
            &&& trim_of(mfa_code@).len() > 0 && !spec_looks_like_totp(
                vstd::utf8::encode_utf8(trim_of(mfa_code@)),
            ) && crate::store::count_consumable(
                old(store).recovery_codes@,
                user_id,
                submitted_code_hash(mfa_code@),
            ) == 1
        }) ==> r is Ok,
{
    let user = match check_password_and_mfa_if_enabled(
        pctx,
        tctx,
        store,
        user_id,
        password,
        Some(mfa_code),
        now,
    ) {
        Ok(u) => u,
        Err(e) => {
            return Err(e);
        },
    };
    proof {
        if user.totp_enabled {
            let w = choose|w: int| 0 <= w < old(store).users@.len() && old(store).users@[w] == user;
            assert(account_enabled_by_id(old(store).users@, user_id));
        }
        if account_enabled_by_id(old(store).users@, user_id) {
            let i = choose|i: int|
                0 <= i < old(store).users@.len() && (#[trigger] old(store).users@[i]).id == user_id
                    && old(store).users@[i].totp_enabled;
            lemma_same_account_row(old(store).users@, user, i);
        }
    }
    if !user.totp_enabled {
        return Err(ApiError::TwoFa(TwoFactorError::NotEnabled));
    }
    let ghost pre_users = store.users@;
    let updated = store.disable_totp(user.id, &user.totp_secret_enc);
    if updated == 0 {
        // The credential check just fetched this account, and the second
        // factor only touches the recovery-code table, so the conditional
        // update cannot miss its row.
        proof {
            let w = choose|w: int| 0 <= w < pre_users.len() && pre_users[w] == user;
            assert(pre_users[w].id == user.id && crate::store::opt_str_matches(
                pre_users[w].totp_secret_enc,
                user.totp_secret_enc,
            ));
            assert(false);
        }
        return Err(ApiError::TwoFa(TwoFactorError::ConcurrentRequestRaced));
    }
    let ghost mid_users = store.users@;
    let ghost pre_codes = store.recovery_codes@;
    store.delete_recovery_codes(user.id);
    proof {
        crate::store::lemma_codes_without_none(pre_codes, user_id);
        let w = choose|w: int|
            {
                &&& 0 <= w < pre_users.len()
                &&& (#[trigger] pre_users[w]).id == user.id
                &&& crate::store::opt_str_matches(
                    pre_users[w].totp_secret_enc,
                    user.totp_secret_enc,
                )
                &&& mid_users == pre_users.update(
                    w,
                    (User {
                        totp_enabled: false,
                        totp_secret_enc: None,
                        totp_confirmed_at: None,
                        ..pre_users[w]
                    }),
                )
            };
        assert(mid_users[w].id == user_id && !mid_users[w].totp_enabled);
    }
    Ok(())
}

/// Law: confirming two-factor enrollment twice with the same pending secret
/// yields exactly one success. After one confirmation flipped two-factor on,
/// no account row satisfies the confirmation guard any more — the row is
/// enabled — so the second conditional update affects no row and the flow
/// reports `ConcurrentRequestRaced`.
pub proof fn lemma_confirm_once(u0: Seq<User>, u1: Seq<User>, i: int, user_id: i32, updated: User)
    requires
        forall|j: int, k: int| 0 <= j < k < u0.len() ==> (#[trigger] u0[j]).id != (#[trigger] u0[k]).id,
        0 <= i < u0.len(),
        u0[i].id == user_id,
        updated.id == user_id,
        updated.totp_enabled,
        u1 == u0.update(i, updated),
    ensures
        !(exists|j: int|
            0 <= j < u1.len() && (#[trigger] u1[j]).id == user_id && !u1[j].totp_enabled),
{
    assert forall|j: int|
        0 <= j < u1.len() implies !((#[trigger] u1[j]).id == user_id && !u1[j].totp_enabled) by {
        if j != i {
            assert(u1[j] == u0[j]);
            if j < i {
                assert(u0[j].id != u0[i].id);
            }
            if j > i {
                assert(u0[i].id != u0[j].id);
            }
        }
    }
}

} // verus!
