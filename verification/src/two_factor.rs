//! Two-factor engine: TOTP secret lifecycle (generate, encrypt at rest,
//! confirm, enabled) and one-time recovery codes.
//!
//! The TOTP secret is encrypted with authenticated encryption whose
//! associated data is the owning user id, binding the ciphertext to the
//! account. Recovery codes are stored hashed and are consumed by a
//! conditional update, so each can be used at most once even under
//! concurrent requests.

use chacha20poly1305::aead::Aead;
use chacha20poly1305::KeyInit;
use vstd::prelude::*;
use vstd::string::StringSliceAdditionalSpecFns;

use crate::errors::ApiError;
use crate::errors::AuthError;
use crate::errors::TwoFactorError;
use crate::models::ts_wf;
use crate::models::User;
use crate::store::count_consumable;
use crate::store::is_consumable;
use crate::store::spec_consumed;
use crate::store::Store;
use crate::primitives::b64std_decode;
use crate::primitives::b64std_decode_of;
use crate::primitives::b64std_encode;
use crate::primitives::b64url_decode;
use crate::primitives::b64url_decode_of;
use crate::primitives::b64url_encode;
use crate::primitives::blake3_hash;
use crate::primitives::blake3_of;
use crate::primitives::hex_decode;
use crate::primitives::hex_decode_of;
use crate::primitives::random_array;

verus! {

broadcast use vstd::array::group_array_axioms;

/// What opening an XChaCha20-Poly1305 box yields: the plaintext when the
/// ciphertext was sealed under the same key, nonce and associated data,
/// nothing otherwise.
pub uninterp spec fn xchacha_open(
    key: Seq<u8>,
    nonce: Seq<u8>,
    aad: Seq<u8>,
    ciphertext: Seq<u8>,
) -> Option<Seq<u8>>;

/// What trimming ASCII and Unicode whitespace from both ends of a string
/// yields.
pub uninterp spec fn trim_of(text: Seq<char>) -> Seq<char>;

/// Relies on chacha20poly1305's Aead::encrypt (XChaCha20-Poly1305): seals
/// the message under key, nonce and associated data; the box opens back to
/// the message and carries a 16-byte tag.
#[verifier::external_body]
fn xchacha_encrypt(key: &[u8], nonce: &[u8], aad: &[u8], msg: &[u8]) -> (r: Result<Vec<u8>, ()>)
    requires
        key@.len() == 32,
        nonce@.len() == 24,
    ensures
        r matches Ok(c) ==> xchacha_open(key@, nonce@, aad@, c@) == Some(msg@) && c@.len() == msg@.len()
            + 16,
{
    let cipher = chacha20poly1305::XChaCha20Poly1305::new_from_slice(key).map_err(|_| ())?;
    let nonce = chacha20poly1305::XNonce::try_from(nonce).map_err(|_| ())?;
    cipher.encrypt(&nonce, chacha20poly1305::aead::Payload { msg, aad }).map_err(|_| ())
}

/// Relies on chacha20poly1305's Aead::decrypt (XChaCha20-Poly1305): opens
/// the box exactly when it was sealed under the same key, nonce and
/// associated data, and fails on any tampering.
#[verifier::external_body]
fn xchacha_decrypt(key: &[u8], nonce: &[u8], aad: &[u8], ciphertext: &[u8]) -> (r: Result<
    Vec<u8>,
    (),
>)
    requires
        key@.len() == 32,
        nonce@.len() == 24,
    ensures
        r matches Ok(p) ==> xchacha_open(key@, nonce@, aad@, ciphertext@) == Some(p@),
        r is Err ==> xchacha_open(key@, nonce@, aad@, ciphertext@) is None,
{
    let cipher = chacha20poly1305::XChaCha20Poly1305::new_from_slice(key).map_err(|_| ())?;
    let nonce = chacha20poly1305::XNonce::try_from(nonce).map_err(|_| ())?;
    cipher.decrypt(&nonce, chacha20poly1305::aead::Payload { msg: ciphertext, aad }).map_err(
        |_| (),
    )
}

/// Relies on str::trim: removes leading and trailing whitespace, a function
/// of the characters alone; an already-trimmed string comes back unchanged.
#[verifier::external_body]
fn str_trim(text: &str) -> (r: &str)
    ensures
        r@ == trim_of(text@),
        r@.len() <= text@.len(),
{
    text.trim()
}

/// Relies on totp_rs's Totp: an RFC-6238 code generator and checker over a
/// shared secret.
#[verifier::external_type_specification]
#[verifier::external_body]
pub struct ExTotp(totp_rs::Totp);

/// Relies on totp_rs's Builder::build: SHA1, six digits, one step of skew
/// and a 30-second step, for broad authenticator compatibility; fails on an
/// account name or issuer holding a colon or on a too-short secret.
#[verifier::external_body]
pub(crate) fn totp_for_user(email: &String, secret_raw: Vec<u8>) -> (r: Result<totp_rs::Totp, ()>) {
    totp_rs::Builder::new()
        .with_algorithm(totp_rs::Algorithm::SHA1)
        .with_digits(6)
        .with_skew(1)
        .with_step_duration(30)
        .with_secret(secret_raw)
        .with_issuer(Some("Transcendence"))
        .with_account_name(email.as_str())
        .build()
        .map_err(|_| ())
}

/// Relies on totp_rs's Totp::check: validates the code against the given
/// instant's 30-second window with single-step tolerance. Whether a code is
/// current is the authenticator's business, so nothing is promised of the
/// verdict. The call panics only on a generator built with ten or more
/// digits; every generator this crate builds has six.
#[verifier::external_body]
pub(crate) fn totp_check(totp: &totp_rs::Totp, code: &str, now: i64) -> bool
    requires
        now >= 0,
{
    totp.check(code, now as u64).is_some()
}

/// Relies on totp_rs's Secret::to_base32: the shared secret in the base32
/// form authenticator apps take for manual entry.
#[verifier::external_body]
pub(crate) fn totp_secret_base32(totp: &totp_rs::Totp) -> String {
    totp.secret().to_base32()
}

/// Relies on totp_rs's Totp::to_url: the otpauth URL for authenticator-app
/// integration.
#[verifier::external_body]
pub(crate) fn totp_url(totp: &totp_rs::Totp) -> Result<String, ()> {
    totp.to_url().map_err(|_| ())
}

/// Relies on totp_rs's Totp::to_qr_base64: a base64-encoded PNG QR code of
/// the otpauth URL.
#[verifier::external_body]
pub(crate) fn totp_qr_base64(totp: &totp_rs::Totp) -> Result<String, ()> {
    totp.to_qr_base64().map_err(|_| ())
}

/// Relies on totp_rs's Secret::generate: 20 cryptographically random bytes.
#[verifier::external_body]
fn generate_totp_secret_raw() -> (r: Vec<u8>)
    ensures
        r@.len() == 20,
{
    totp_rs::Secret::generate().as_bytes().to_vec()
}

/// Draws a fresh raw TOTP secret.
pub fn generate_totp_secret() -> (r: Vec<u8>)
    ensures
        r@.len() == 20,
{
    generate_totp_secret_raw()
}

/// Process-wide two-factor context: the 32-byte key TOTP secrets are
/// encrypted under, fixed at startup from configuration.
pub struct TwoFactorContext {
    enc_key: Vec<u8>,
}

impl TwoFactorContext {
    /// The encryption key the context holds.
    pub closed spec fn key(&self) -> Seq<u8> {
        self.enc_key@
    }

    /// The key has the length the cipher demands.
    pub open spec fn wf(&self) -> bool {
        self.key().len() == 32
    }

    /// Builds the context from the configured key material: 64 hexadecimal
    /// digits, or base64 (URL-safe unpadded or standard padded) of 32 bytes.
    pub fn from_key_text(raw: &str) -> (r: Option<TwoFactorContext>)
        ensures
            r matches Some(ctx) ==> ctx.wf(),
            r is None ==> parse_32_byte_key_of(raw@) is None,
            r matches Some(ctx) ==> parse_32_byte_key_of(raw@) == Some(ctx.key()),
    {
        match parse_32_byte_key(raw) {
            Some(key) => Some(TwoFactorContext { enc_key: key }),
            None => None,
        }
    }
}

/// What the key-material parser accepts: the trimmed text read as
/// hexadecimal digits first, then as URL-safe unpadded base64, then as
/// standard padded base64, whichever first yields exactly 32 bytes.
pub open spec fn parse_32_byte_key_of(text: Seq<char>) -> Option<Seq<u8>> {
    let trimmed = trim_of(text);
    if hex_decode_of(trimmed) matches Some(b) && b.len() == 32 {
        hex_decode_of(trimmed)
    } else if b64url_decode_of(trimmed) matches Some(b) && b.len() == 32 {
        b64url_decode_of(trimmed)
    } else if b64std_decode_of(trimmed) matches Some(b) && b.len() == 32 {
        b64std_decode_of(trimmed)
    } else {
        None
    }
}

/// Parses configured key material into a 32-byte key: hexadecimal first,
/// then either base64 alphabet.
pub fn parse_32_byte_key(text: &str) -> (r: Option<Vec<u8>>)
    ensures
        match r {
            Some(b) => parse_32_byte_key_of(text@) == Some(b@) && b@.len() == 32,
            None => parse_32_byte_key_of(text@) is None,
        },
{
    let trimmed = str_trim(text);
    if let Some(bytes) = hex_decode(trimmed) {
        if bytes.len() == 32 {
            return Some(bytes);
        }
    }
    if let Some(bytes) = b64url_decode(trimmed) {
        if bytes.len() == 32 {
            return Some(bytes);
        }
    }
    if let Some(bytes) = b64std_decode(trimmed) {
        if bytes.len() == 32 {
            return Some(bytes);
        }
    }
    None
}


/// How many one-time recovery codes a confirmation issues.
pub const RECOVERY_CODE_COUNT: usize = 10;

/// The associated data binding an encrypted TOTP secret to its account: the
/// user id as four little-endian bytes.
pub open spec fn spec_user_aad(user_id: i32) -> Seq<u8> {
    seq![
        (user_id % 256) as u8,
        ((user_id / 256) % 256) as u8,
        ((user_id / 65536) % 256) as u8,
        ((user_id / 16777216) % 256) as u8,
    ]
}

/// Computes the associated data for this account.
fn user_aad(user_id: i32) -> (r: Vec<u8>)
    requires
        user_id >= 0,
    ensures
        r@ == spec_user_aad(user_id),
{
    let mut v: Vec<u8> = Vec::new();
    v.push((user_id % 256) as u8);
    v.push(((user_id / 256) % 256) as u8);
    v.push(((user_id / 65536) % 256) as u8);
    v.push(((user_id / 16777216) % 256) as u8);
    proof {
        assert(v@ =~= spec_user_aad(user_id));
    }
    v
}

/// Copies a byte vector.
pub(crate) fn clone_bytes(v: &Vec<u8>) -> (r: Vec<u8>)
    ensures
        r@ == v@,
{
    let mut r: Vec<u8> = Vec::new();
    let mut i: usize = 0;
    while i < v.len()
        invariant
            i <= v@.len(),
            r@ == v@.subrange(0, i as int),
        decreases v@.len() - i,
    {
        r.push(v[i]);
        proof {
            assert(r@ =~= v@.subrange(0, i + 1));
        }
        i = i + 1;
    }
    proof {
        assert(r@ =~= v@);
    }
    r
}

/// Copies a sub-range of a byte vector.
fn copy_range(v: &Vec<u8>, from: usize, to: usize) -> (r: Vec<u8>)
    requires
        from <= to <= v@.len(),
    ensures
        r@ == v@.subrange(from as int, to as int),
{
    let mut r: Vec<u8> = Vec::new();
    let mut i: usize = from;
    while i < to
        invariant
            from <= i <= to <= v@.len(),
            r@ == v@.subrange(from as int, i as int),
        decreases to - i,
    {
        r.push(v[i]);
        proof {
            assert(r@ =~= v@.subrange(from as int, i + 1));
        }
        i = i + 1;
    }
    r
}

/// Copies an array into a vector.
fn array_to_vec_24(a: &[u8; 24]) -> (r: Vec<u8>)
    ensures
        r@ == a@,
{
    let mut r: Vec<u8> = Vec::new();
    let mut i: usize = 0;
    while i < 24
        invariant
            i <= 24,
            r@ == a@.subrange(0, i as int),
        decreases 24 - i,
    {
        r.push(a[i]);
        proof {
            assert(r@ =~= a@.subrange(0, i + 1));
        }
        i = i + 1;
    }
    proof {
        assert(r@ =~= a@);
    }
    r
}

/// Encrypts a raw TOTP secret for storage: a random 24-byte nonce, then the
/// sealed box, the whole blob in standard base64. The associated data is the
/// user id, binding the ciphertext to the account.
pub fn encrypt_totp_secret(ctx: &TwoFactorContext, user_id: i32, secret: &Vec<u8>) -> (r: Result<
    String,
    ApiError,
>)
    requires
        ctx.wf(),
        user_id >= 0,
    ensures
        r matches Ok(enc) ==> (exists|n: Seq<u8>, c: Seq<u8>|
            {
                &&& n.len() == 24
                &&& b64std_decode_of(enc@) == Some(n + c)
                &&& xchacha_open(ctx.key(), n, spec_user_aad(user_id), c) == Some(secret@)
            }),
        r matches Err(e) ==> e == ApiError::TwoFa(TwoFactorError::Internal),
{
    let nonce = random_array::<24>();
    let aad = user_aad(user_id);
    let ciphertext = match xchacha_encrypt(
        ctx.enc_key.as_slice(),
        nonce.as_slice(),
        aad.as_slice(),
        secret.as_slice(),
    ) {
        Ok(c) => c,
        Err(_) => {
            return Err(ApiError::TwoFa(TwoFactorError::Internal));
        },
    };
    let mut blob = array_to_vec_24(&nonce);
    let mut rest = ciphertext;
    let ghost ct = rest@;
    blob.append(&mut rest);
    let encoded = b64std_encode(blob.as_slice());
    proof {
        assert(blob@ == nonce@ + ct);
        assert(b64std_decode_of(encoded@) == Some(nonce@ + ct));
    }
    Ok(encoded)
}

/// Decrypts a stored TOTP secret: decodes the base64 blob, splits off the
/// 24-byte nonce, and opens the box bound to this account. Fails on a
/// malformed blob or on any tampering (a different key, nonce, user or
/// ciphertext).
pub fn decrypt_totp_secret(ctx: &TwoFactorContext, user_id: i32, secret_enc: &str) -> (r: Result<
    Vec<u8>,
    ApiError,
>)
    requires
        ctx.wf(),
        user_id >= 0,
    ensures
        r matches Ok(p) ==> (b64std_decode_of(secret_enc@) matches Some(b) && b.len() >= 24
            && xchacha_open(
            ctx.key(),
            b.subrange(0, 24),
            spec_user_aad(user_id),
            b.subrange(24, b.len() as int),
        ) == Some(p@)),
        r is Err ==> (b64std_decode_of(secret_enc@) is None || (b64std_decode_of(
            secret_enc@,
        ) matches Some(b) && (b.len() < 24 || xchacha_open(
            ctx.key(),
            b.subrange(0, 24),
            spec_user_aad(user_id),
            b.subrange(24, b.len() as int),
        ) is None))),
        r matches Err(e) ==> e == ApiError::TwoFa(TwoFactorError::Internal),
{
    let blob = match b64std_decode(secret_enc) {
        Some(b) => b,
        None => {
            return Err(ApiError::TwoFa(TwoFactorError::Internal));
        },
    };
    if blob.len() < 24 {
        return Err(ApiError::TwoFa(TwoFactorError::Internal));
    }
    let nonce = copy_range(&blob, 0, 24);
    let ciphertext = copy_range(&blob, 24, blob.len());
    let aad = user_aad(user_id);
    match xchacha_decrypt(
        ctx.enc_key.as_slice(),
        nonce.as_slice(),
        aad.as_slice(),
        ciphertext.as_slice(),
    ) {
        Ok(p) => Ok(p),
        Err(_) => Err(ApiError::TwoFa(TwoFactorError::Internal)),
    }
}

/// A submitted code shaped like a TOTP code: six to eight ASCII digits.
pub open spec fn spec_looks_like_totp(bytes: Seq<u8>) -> bool {
    &&& 6 <= bytes.len() <= 8
    &&& forall|i: int| 0 <= i < bytes.len() ==> 0x30 <= #[trigger] bytes[i] <= 0x39
}

/// Classifies a submitted code by shape: six to eight ASCII digits reads as
/// a TOTP guess, anything else as a recovery code. Either classification is
/// only tried first; the other still gets its turn.
pub fn looks_like_totp_code(code: &str) -> (r: bool)
    ensures
        r == spec_looks_like_totp(code.spec_bytes()),
{
    let bytes = code.as_bytes();
    if bytes.len() < 6 || bytes.len() > 8 {
        return false;
    }
    let mut i: usize = 0;
    while i < bytes.len()
        invariant
            i <= bytes@.len(),
            bytes@ == code.spec_bytes(),
            6 <= bytes@.len() <= 8,
            forall|j: int| 0 <= j < i ==> 0x30 <= #[trigger] bytes@[j] <= 0x39,
        decreases bytes@.len() - i,
    {
        let b = bytes[i];
        if b < 0x30 || b > 0x39 {
            return false;
        }
        i = i + 1;
    }
    true
}

/// Hashes a recovery code for storage and lookup.
pub fn hash_recovery_code(code: &str) -> (r: [u8; 32])
    ensures
        r@ == blake3_of(code.spec_bytes()),
{
    blake3_hash(code.as_bytes())
}

/// Draws a fresh batch of one-time recovery codes: each the URL-safe base64
/// of 16 random bytes.
pub fn generate_recovery_codes() -> (r: Vec<String>)
    ensures
        r@.len() == RECOVERY_CODE_COUNT,
        forall|i: int|
            0 <= i < r@.len() ==> (b64url_decode_of((#[trigger] r@[i])@) matches Some(b) && b.len()
                == 16),
{
    let mut codes: Vec<String> = Vec::new();
    let mut i: usize = 0;
    while i < RECOVERY_CODE_COUNT
        invariant
            i <= RECOVERY_CODE_COUNT,
            codes@.len() == i,
            forall|j: int|
                0 <= j < i ==> (b64url_decode_of((#[trigger] codes@[j])@) matches Some(b)
                    && b.len() == 16),
        decreases RECOVERY_CODE_COUNT - i,
    {
        let raw = random_array::<16>();
        let encoded = b64url_encode(raw.as_slice());
        codes.push(encoded);
        i = i + 1;
    }
    codes
}

/// Checks a submitted code against the account's decrypted TOTP secret in
/// the current time window. The verdict depends on the clock; what is fixed
/// is that an account without a stored secret cannot be checked.
pub fn check_totp_code(ctx: &TwoFactorContext, user: &User, code: &str, now: i64) -> (r: Result<
    bool,
    ApiError,
>)
    requires
        ctx.wf(),
        user.id >= 0,
        ts_wf(now),
    ensures
        user.totp_secret_enc is None ==> r == Err::<bool, ApiError>(
            ApiError::TwoFa(TwoFactorError::Internal),
        ),
        r matches Err(e) ==> e == ApiError::TwoFa(TwoFactorError::Internal),
{
    let secret_enc = match &user.totp_secret_enc {
        Some(s) => s,
        None => {
            return Err(ApiError::TwoFa(TwoFactorError::Internal));
        },
    };
    let secret_raw = match decrypt_totp_secret(ctx, user.id, secret_enc.as_str()) {
        Ok(p) => p,
        Err(e) => {
            return Err(e);
        },
    };
    let totp = match totp_for_user(&user.email, secret_raw) {
        Ok(t) => t,
        Err(_) => {
            return Err(ApiError::TwoFa(TwoFactorError::Internal));
        },
    };
    Ok(totp_check(&totp, code, now))
}

/// The stored hash a submitted second-factor code is looked up under: the
/// blake3 digest of the trimmed code's bytes.
pub open spec fn submitted_code_hash(code: Seq<char>) -> Seq<u8> {
    blake3_of(vstd::utf8::encode_utf8(trim_of(code)))
}

/// One consumption pass over the recovery-code table: every unused row of
/// the user holding the hash is marked used at `now`; every other row is
/// untouched.
pub open spec fn consume_pass(
    c0: Seq<crate::models::TwoFaRecoveryCode>,
    c1: Seq<crate::models::TwoFaRecoveryCode>,
    user_id: i32,
    hash: Seq<u8>,
    now: i64,
) -> bool {
    &&& c1.len() == c0.len()
    &&& forall|j: int|
        0 <= j < c0.len() ==> c1[j] == (if is_consumable(#[trigger] c0[j], user_id, hash) {
            spec_consumed(c0[j], now)
        } else {
            c0[j]
        })
}

/// Consumes a recovery code: hashes the submitted code and marks the
/// matching unused row as used, atomically. Succeeds exactly when the
/// conditional update affected one row, so a code can be consumed at most
/// once even under concurrent requests.
pub fn consume_recovery_code(store: &mut Store, user_id: i32, code_plain: &str, now: i64) -> (r:
    bool)
    requires
        old(store).wf(),
        ts_wf(now),
    ensures
        final(store).wf(),
        final(store).users == old(store).users,
        final(store).sessions == old(store).sessions,
        final(store).next_code_id == old(store).next_code_id,
        final(store).next_user_id == old(store).next_user_id,
        final(store).next_session_id == old(store).next_session_id,
        consume_pass(
            old(store).recovery_codes@,
            final(store).recovery_codes@,
            user_id,
            blake3_of(code_plain.spec_bytes()),
            now,
        ),
        r == (count_consumable(
            old(store).recovery_codes@,
            user_id,
            blake3_of(code_plain.spec_bytes()),
        ) == 1),
        count_consumable(old(store).recovery_codes@, user_id, blake3_of(code_plain.spec_bytes()))
            == 0 ==> final(store).recovery_codes == old(store).recovery_codes,
{
    let hash = hash_recovery_code(code_plain);
    let updated = store.consume_recovery_code_row(user_id, &hash, now);
    updated == 1
}

/// Law: a recovery code can be consumed at most once. After one consumption
/// pass, no row matching the same code remains consumable, so a second
/// attempt with the same code affects nothing and fails.
pub proof fn lemma_recovery_code_single_use(
    c0: Seq<crate::models::TwoFaRecoveryCode>,
    c1: Seq<crate::models::TwoFaRecoveryCode>,
    user_id: i32,
    hash: Seq<u8>,
    now: i64,
)
    requires
        consume_pass(c0, c1, user_id, hash, now),
    ensures
        count_consumable(c1, user_id, hash) == 0,
    decreases c0.len(),
{
    if c0.len() > 0 {
        let p0 = c0.drop_last();
        let p1 = c1.drop_last();
        assert(forall|j: int| 0 <= j < p0.len() ==> p0[j] == c0[j] && p1[j] == #[trigger] c1[j]);
        lemma_recovery_code_single_use(p0, p1, user_id, hash, now);
        let j = c0.len() - 1;
        assert(c1[j] == (if is_consumable(c0[j], user_id, hash) {
            spec_consumed(c0[j], now)
        } else {
            c0[j]
        }));
        assert(!is_consumable(c1[j], user_id, hash));
        assert(c1[j] == c1.last());
    }
}

/// Decides a submitted, trimmed second-factor code given the
/// authenticator's verdict on it: a code shaped like a TOTP code goes by the
/// verdict first and is tried as a recovery code second, anything else is
/// consumed as a recovery code first and falls back to the verdict — a
/// deliberate leniency, so a plausible-but-odd code is never rejected on
/// shape alone. With the verdict an argument, the whole decision and its
/// effect on the recovery-code table are pinned for every value of it.
pub fn second_factor_decision(
    store: &mut Store,
    user_id: i32,
    code: &str,
    totp_says: Result<bool, ApiError>,
    now: i64,
) -> (r: Result<(), ApiError>)
    requires
        old(store).wf(),
        ts_wf(now),
    ensures
        final(store).wf(),
        final(store).users == old(store).users,
        final(store).sessions == old(store).sessions,
        final(store).next_code_id == old(store).next_code_id,
        final(store).next_user_id == old(store).next_user_id,
        final(store).next_session_id == old(store).next_session_id,
        ({
            let shaped = spec_looks_like_totp(vstd::utf8::encode_utf8(code@));
            let count = count_consumable(
                old(store).recovery_codes@,
                user_id,
                blake3_of(vstd::utf8::encode_utf8(code@)),
            );
            &&& r == (if shaped {
                match totp_says {
                    Ok(true) => Ok::<(), ApiError>(()),
                    Ok(false) => if count == 1 {
                        Ok(())
                    } else {
                        Err(ApiError::Auth(AuthError::TwoFactorInvalid))
                    },
                    Err(e) => Err(e),
                }
            } else {
                if count == 1 {
                    Ok::<(), ApiError>(())
                } else {
                    match totp_says {
                        Ok(true) => Ok(()),
                        Ok(false) => Err(ApiError::Auth(AuthError::TwoFactorInvalid)),
                        Err(e) => Err(e),
                    }
                }
            })
            &&& if shaped && totp_says != Ok::<bool, ApiError>(false) {
                final(store).recovery_codes == old(store).recovery_codes
            } else {
                consume_pass(
                    old(store).recovery_codes@,
                    final(store).recovery_codes@,
                    user_id,
                    blake3_of(vstd::utf8::encode_utf8(code@)),
                    now,
                )
            }
            &&& count == 0 ==> final(store).recovery_codes == old(store).recovery_codes
        }),
{
    if looks_like_totp_code(code) {
        match totp_says {
            Ok(true) => Ok(()),
            Ok(false) => {
                if consume_recovery_code(store, user_id, code, now) {
                    Ok(())
                } else {
                    Err(ApiError::Auth(AuthError::TwoFactorInvalid))
                }
            },
            Err(e) => Err(e),
        }
    } else {
        if consume_recovery_code(store, user_id, code, now) {
            Ok(())
        } else {
            match totp_says {
                Ok(true) => Ok(()),
                Ok(false) => Err(ApiError::Auth(AuthError::TwoFactorInvalid)),
                Err(e) => Err(e),
            }
        }
    }
}

/// Requires a valid second factor when the account has one enabled: a
/// missing or empty code asks the client to prompt, a code shaped like a
/// TOTP code is checked against the authenticator first and as a recovery
/// code second, anything else the other way around — either path falls
/// through to the other, a deliberate leniency so a plausible-but-odd code
/// is never rejected on shape alone.
pub fn require_mfa_if_enabled(
    ctx: &TwoFactorContext,
    store: &mut Store,
    user: &User,
    mfa_code: Option<&str>,
    now: i64,
) -> (r: Result<(), ApiError>)
    requires
        old(store).wf(),
        ts_wf(now),
        ctx.wf(),
        user.id >= 0,
    ensures
        final(store).wf(),
        final(store).users == old(store).users,
        final(store).sessions == old(store).sessions,
        final(store).next_code_id == old(store).next_code_id,
        final(store).next_user_id == old(store).next_user_id,
        final(store).next_session_id == old(store).next_session_id,
        match mfa_code {
            Some(c) => final(store).recovery_codes == old(store).recovery_codes || consume_pass(
                old(store).recovery_codes@,
                final(store).recovery_codes@,
                user.id,
                submitted_code_hash(c@),
                now,
            ),
            None => final(store).recovery_codes == old(store).recovery_codes,
        },
        !user.totp_enabled ==> r is Ok && *final(store) == *old(store),
        user.totp_enabled && mfa_code is None ==> r == Err::<(), ApiError>(
            ApiError::Auth(AuthError::TwoFactorRequired),
        ) && *final(store) == *old(store),
        ({
            &&& user.totp_enabled
            &&& mfa_code matches Some(c) && trim_of(c@).len() == 0
        }) ==> r == Err::<(), ApiError>(ApiError::Auth(AuthError::TwoFactorRequired)) && *final(store) == *old(store),
        ({
            &&& user.totp_enabled
            &&& mfa_code matches Some(c) && trim_of(c@).len() > 0 && !spec_looks_like_totp(
                vstd::utf8::encode_utf8(trim_of(c@)),
            ) && count_consumable(
                old(store).recovery_codes@,
                user.id,
                submitted_code_hash(c@),
            ) == 1
        }) ==> r is Ok,
        (r is Ok && user.totp_enabled) ==> (mfa_code matches Some(c) && trim_of(c@).len() > 0 && (
        final(store).recovery_codes == old(store).recovery_codes || count_consumable(
            old(store).recovery_codes@,
            user.id,
            submitted_code_hash(c@),
        ) >= 1)),
        r == Err::<(), ApiError>(ApiError::Auth(AuthError::TwoFactorInvalid)) ==> (
        mfa_code matches Some(c) && count_consumable(
            old(store).recovery_codes@,
            user.id,
            submitted_code_hash(c@),
        ) != 1),
        r is Err ==> (r == Err::<(), ApiError>(ApiError::Auth(AuthError::TwoFactorRequired)) || r
            == Err::<(), ApiError>(ApiError::Auth(AuthError::TwoFactorInvalid)) || r == Err::<
            (),
            ApiError,
        >(ApiError::TwoFa(TwoFactorError::Internal))),
{
    if !user.totp_enabled {
        return Ok(());
    }
    let raw_code = match mfa_code {
        Some(c) => c,
        None => {
            return Err(ApiError::Auth(AuthError::TwoFactorRequired));
        },
    };
    let code = str_trim(raw_code);
    proof {
        assert(code@ == trim_of(raw_code@));
        assert(code.spec_bytes() == vstd::utf8::encode_utf8(trim_of(raw_code@)));
        assert(blake3_of(code.spec_bytes()) == submitted_code_hash(raw_code@));
    }
    if code.is_empty() {
        return Err(ApiError::Auth(AuthError::TwoFactorRequired));
    }
    let verdict = check_totp_code(ctx, user, code, now);
    second_factor_decision(store, user.id, code, verdict, now)
}

/// Replaces the account's recovery codes: deletes any prior batch and
/// inserts the hashes of the fresh plaintext batch, all unused.
pub fn replace_recovery_codes(
    store: &mut Store,
    user_id: i32,
    codes_plain: &Vec<String>,
    now: i64,
) -> (r: Result<(), ApiError>)
    requires
        old(store).wf(),
        ts_wf(now),
    ensures
        final(store).wf(),
        final(store).users == old(store).users,
        final(store).sessions == old(store).sessions,
        match r {
            Ok(()) => {
                let kept = crate::store::spec_codes_without(old(store).recovery_codes@, user_id);
                &&& final(store).recovery_codes@.len() == kept.len() + codes_plain@.len()
                &&& (forall|j: int|
                    0 <= j < kept.len() ==> final(store).recovery_codes@[j] == kept[j])
                &&& (forall|k: int|
                    0 <= k < codes_plain@.len() ==> {
                        let row = #[trigger] final(store).recovery_codes@[kept.len() + k];
                        &&& row.user_id == user_id
                        &&& row.code_hash@ == blake3_of(
                            vstd::utf8::encode_utf8(codes_plain@[k]@),
                        )
                        &&& row.used_at is None
                        &&& row.created_at == now
                    })
            },
            Err(e) => {
                &&& e == ApiError::Internal
                &&& final(store).recovery_codes == old(store).recovery_codes
            },
        },
        (codes_plain@.len() < i32::MAX && old(store).next_code_id < i32::MAX - codes_plain@.len())
            ==> r is Ok,
{
    if codes_plain.len() >= i32::MAX as usize || store.next_code_id >= i32::MAX - (
    codes_plain.len() as i32) {
        return Err(ApiError::Internal);
    }
    let mut hashes: Vec<[u8; 32]> = Vec::new();
    let mut k: usize = 0;
    while k < codes_plain.len()
        invariant
            *store == *old(store),
            old(store).wf(),
            k <= codes_plain@.len(),
            hashes@.len() == k,
            forall|j: int|
                0 <= j < k ==> (#[trigger] hashes@[j])@ == blake3_of(
                    vstd::utf8::encode_utf8(codes_plain@[j]@),
                ),
        decreases codes_plain@.len() - k,
    {
        let h = hash_recovery_code(codes_plain[k].as_str());
        hashes.push(h);
        k = k + 1;
    }
    store.delete_recovery_codes(user_id);
    match store.insert_recovery_codes(user_id, &hashes, now) {
        Ok(()) => Ok(()),
        Err(_) => Err(ApiError::Internal),
    }
}

} // verus!
