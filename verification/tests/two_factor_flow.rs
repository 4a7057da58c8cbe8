//! Two-factor lifecycle: enrollment, confirmation, login codes, recovery
//! codes, disabling, and the key-material parser.

use auth_core::account::register;
use auth_core::account::login;
use auth_core::account::two_fa_confirm;
use auth_core::account::two_fa_disable;
use auth_core::account::two_fa_start;
use auth_core::errors::ApiError;
use auth_core::errors::AuthError;
use auth_core::errors::TwoFactorError;
use auth_core::password::PasswordContext;
use auth_core::store::Store;
use auth_core::two_factor::consume_recovery_code;
use auth_core::two_factor::decrypt_totp_secret;
use auth_core::two_factor::encrypt_totp_secret;
use auth_core::two_factor::looks_like_totp_code;
use auth_core::two_factor::require_mfa_if_enabled;
use auth_core::two_factor::second_factor_decision;
use auth_core::two_factor::TwoFactorContext;

const KEY_HEX: &str = "000102030405060708090a0b0c0d0e0f101112131415161718191a1b1c1d1e1f";

fn contexts() -> (PasswordContext, TwoFactorContext) {
    (
        PasswordContext::new().unwrap(),
        TwoFactorContext::from_key_text(KEY_HEX).unwrap(),
    )
}

fn code_at(base32_secret: &str, time: u64) -> String {
    let secret = totp_rs::Secret::try_from_base32(base32_secret).unwrap();
    let totp = totp_rs::Builder::new()
        .with_algorithm(totp_rs::Algorithm::SHA1)
        .with_digits(6)
        .with_skew(1)
        .with_step_duration(30)
        .with_secret(secret)
        .with_issuer(Some("Transcendence"))
        .with_account_name("x@example.com")
        .build()
        .unwrap();
    totp.generate(time).to_string()
}

fn enrolled_store() -> (PasswordContext, TwoFactorContext, Store, i32, Vec<String>) {
    let (pctx, tctx) = contexts();
    let mut store = Store::new();
    let (user, _, _) = register(
        &pctx,
        &mut store,
        "x@example.com".to_owned(),
        "xavier".to_owned(),
        "pw pw pw",
        "dev".to_owned(),
        None,
        None,
        1000,
    )
    .unwrap();
    let started = two_fa_start(&pctx, &tctx, &mut store, user.id, "pw pw pw").unwrap();
    let code = code_at(&started.base32_secret, 2000);
    let recovery = two_fa_confirm(&pctx, &tctx, &mut store, user.id, "pw pw pw", &code, 2000)
        .unwrap();
    (pctx, tctx, store, user.id, recovery)
}

#[test]
fn enrollment_confirms_with_a_real_code() {
    let (_pctx, _tctx, store, user_id, recovery) = enrolled_store();
    let row = store.users.iter().find(|u| u.id == user_id).unwrap();
    assert!(row.totp_enabled);
    assert_eq!(row.totp_confirmed_at, Some(2000));
    assert_eq!(recovery.len(), 10);
    assert_eq!(
        store
            .recovery_codes
            .iter()
            .filter(|c| c.user_id == user_id && c.used_at.is_none())
            .count(),
        10
    );
}

#[test]
fn recovery_code_consumed_at_most_once() {
    // Two consumption attempts with the same code: exactly one success.
    let (_pctx, _tctx, mut store, user_id, recovery) = enrolled_store();
    let code = recovery[0].as_str();
    assert!(consume_recovery_code(&mut store, user_id, code, 3000));
    assert!(!consume_recovery_code(&mut store, user_id, code, 3001));
    assert_eq!(
        store
            .recovery_codes
            .iter()
            .filter(|c| c.user_id == user_id && c.used_at.is_none())
            .count(),
        9
    );
}

#[test]
fn concurrent_confirms_yield_one_success() {
    // Two confirmation attempts racing over the same pending secret: the
    // conditional update lets exactly one through.
    let (pctx, tctx) = contexts();
    let mut store = Store::new();
    let (user, _, _) = register(
        &pctx,
        &mut store,
        "y@example.com".to_owned(),
        "yvonne".to_owned(),
        "pw pw pw",
        "dev".to_owned(),
        None,
        None,
        1000,
    )
    .unwrap();
    two_fa_start(&pctx, &tctx, &mut store, user.id, "pw pw pw").unwrap();
    let pending = store
        .users
        .iter()
        .find(|u| u.id == user.id)
        .unwrap()
        .totp_secret_enc
        .clone();
    let first = store.confirm_totp(user.id, &pending, 2000);
    let second = store.confirm_totp(user.id, &pending, 2001);
    assert_eq!(first, 1);
    assert_eq!(second, 0);
}

#[test]
fn login_requires_and_accepts_the_second_factor() {
    let (pctx, tctx, mut store, _user_id, recovery) = enrolled_store();
    let email = "x@example.com".to_owned();

    let no_code = login(
        &pctx, &tctx, &mut store, &email, "pw pw pw", None,
        "dev".to_owned(), None, None, 3000,
    );
    assert!(matches!(
        no_code,
        Err(ApiError::Auth(AuthError::TwoFactorRequired))
    ));

    let bad_code = login(
        &pctx, &tctx, &mut store, &email, "pw pw pw", Some("999999x"),
        "dev".to_owned(), None, None, 3000,
    );
    assert!(matches!(
        bad_code,
        Err(ApiError::Auth(AuthError::TwoFactorInvalid))
    ));

    // A recovery code substitutes for a TOTP code.
    let with_recovery = login(
        &pctx, &tctx, &mut store, &email, "pw pw pw", Some(recovery[1].as_str()),
        "dev".to_owned(), None, None, 3000,
    );
    assert!(with_recovery.is_ok());
}

#[test]
fn disable_clears_enrollment_and_codes() {
    let (pctx, tctx, mut store, user_id, recovery) = enrolled_store();
    two_fa_disable(
        &pctx, &tctx, &mut store, user_id, "pw pw pw", recovery[2].as_str(), 4000,
    )
    .unwrap();
    let row = store.users.iter().find(|u| u.id == user_id).unwrap();
    assert!(!row.totp_enabled);
    assert!(row.totp_secret_enc.is_none());
    assert_eq!(
        store.recovery_codes.iter().filter(|c| c.user_id == user_id).count(),
        0
    );
}

#[test]
fn starting_twice_overwrites_the_pending_secret() {
    let (pctx, tctx) = contexts();
    let mut store = Store::new();
    let (user, _, _) = register(
        &pctx,
        &mut store,
        "z@example.com".to_owned(),
        "zelda".to_owned(),
        "pw pw pw",
        "dev".to_owned(),
        None,
        None,
        1000,
    )
    .unwrap();
    two_fa_start(&pctx, &tctx, &mut store, user.id, "pw pw pw").unwrap();
    let first = store.users[0].totp_secret_enc.clone();
    two_fa_start(&pctx, &tctx, &mut store, user.id, "pw pw pw").unwrap();
    let second = store.users[0].totp_secret_enc.clone();
    assert!(first.is_some() && second.is_some());
    assert_ne!(first, second);
}

#[test]
fn confirm_before_start_reports_not_started() {
    let (pctx, tctx) = contexts();
    let mut store = Store::new();
    let (user, _, _) = register(
        &pctx,
        &mut store,
        "v@example.com".to_owned(),
        "victor".to_owned(),
        "pw pw pw",
        "dev".to_owned(),
        None,
        None,
        1000,
    )
    .unwrap();
    let r = two_fa_confirm(&pctx, &tctx, &mut store, user.id, "pw pw pw", "123456", 2000);
    assert!(matches!(r, Err(ApiError::TwoFa(TwoFactorError::NotStarted))));
}

#[test]
fn recovery_codes_decode_to_sixteen_bytes() {
    let (_pctx, _tctx, _store, _user_id, recovery) = enrolled_store();
    for code in &recovery {
        let bytes = base64::Engine::decode(
            &base64::engine::general_purpose::URL_SAFE_NO_PAD,
            code.as_bytes(),
        )
        .unwrap();
        assert_eq!(bytes.len(), 16);
    }
}

#[test]
fn confirm_after_enablement_reports_already_enabled() {
    let (pctx, tctx, mut store, user_id, _) = enrolled_store();
    let r = two_fa_confirm(&pctx, &tctx, &mut store, user_id, "pw pw pw", "123456", 5000);
    assert!(matches!(r, Err(ApiError::TwoFa(TwoFactorError::AlreadyEnabled))));
}

#[test]
fn secret_encryption_round_trips_and_authenticates() {
    let (_, tctx) = contexts();
    let secret = vec![1u8, 2, 3, 4, 5, 6, 7, 8, 9, 10, 11, 12, 13, 14, 15, 16, 17, 18, 19, 20];
    let enc = encrypt_totp_secret(&tctx, 42, &secret).unwrap();
    assert_eq!(decrypt_totp_secret(&tctx, 42, enc.as_str()).unwrap(), secret);

    // Bound to the account: another user id cannot open the box.
    assert!(decrypt_totp_secret(&tctx, 43, enc.as_str()).is_err());

    // Tampering is detected.
    let mut bytes = base64::Engine::decode(
        &base64::engine::general_purpose::STANDARD,
        enc.as_bytes(),
    )
    .unwrap();
    let last = bytes.len() - 1;
    bytes[last] ^= 1;
    let tampered = base64::Engine::encode(&base64::engine::general_purpose::STANDARD, bytes);
    assert!(decrypt_totp_secret(&tctx, 42, tampered.as_str()).is_err());
}

#[test]
fn key_material_parses_in_any_supported_encoding() {
    // The same 32-byte key, as hex, URL-safe base64 and standard base64,
    // yields interchangeable contexts; whitespace is trimmed.
    let key: Vec<u8> = (0u8..32).collect();
    let hex_text = KEY_HEX.to_string();
    let url_text =
        base64::Engine::encode(&base64::engine::general_purpose::URL_SAFE_NO_PAD, &key);
    let std_text = base64::Engine::encode(&base64::engine::general_purpose::STANDARD, &key);

    let c_hex = TwoFactorContext::from_key_text(&hex_text).unwrap();
    let c_url = TwoFactorContext::from_key_text(&url_text).unwrap();
    let c_std = TwoFactorContext::from_key_text(&std_text).unwrap();
    let c_ws = TwoFactorContext::from_key_text(&format!("  {}\n", hex_text)).unwrap();

    let secret = vec![9u8; 20];
    let enc = encrypt_totp_secret(&c_hex, 7, &secret).unwrap();
    for ctx in [&c_url, &c_std, &c_ws] {
        assert_eq!(decrypt_totp_secret(ctx, 7, enc.as_str()).unwrap(), secret);
    }

    assert!(TwoFactorContext::from_key_text("too short").is_none());
    assert!(TwoFactorContext::from_key_text("").is_none());
}

#[test]
fn second_factor_decision_is_exact_for_every_verdict() {
    let (_pctx, _tctx, mut store, user_id, recovery) = enrolled_store();

    // A TOTP-shaped code accepted by the authenticator consumes nothing.
    let before = store.recovery_codes.clone();
    let r = second_factor_decision(&mut store, user_id, "123456", Ok(true), 5000);
    assert!(r.is_ok());
    assert_eq!(store.recovery_codes.len(), before.len());
    assert!(store
        .recovery_codes
        .iter()
        .zip(before.iter())
        .all(|(a, b)| a.used_at == b.used_at));

    // A TOTP-shaped code the authenticator rejects falls back to the
    // recovery table and fails when no row matches.
    let r = second_factor_decision(&mut store, user_id, "123456", Ok(false), 5000);
    assert!(matches!(r, Err(ApiError::Auth(AuthError::TwoFactorInvalid))));

    // A recovery code succeeds regardless of the verdict, once.
    let code = recovery[3].as_str();
    let r = second_factor_decision(&mut store, user_id, code, Ok(false), 5000);
    assert!(r.is_ok());
    let r = second_factor_decision(&mut store, user_id, code, Ok(false), 5001);
    assert!(matches!(r, Err(ApiError::Auth(AuthError::TwoFactorInvalid))));

    // An authenticator failure propagates on the TOTP-shaped path.
    let r = second_factor_decision(
        &mut store,
        user_id,
        "654321",
        Err(ApiError::TwoFa(TwoFactorError::Internal)),
        5002,
    );
    assert!(matches!(r, Err(ApiError::TwoFa(TwoFactorError::Internal))));
}

#[test]
fn code_shape_classification() {
    assert!(looks_like_totp_code("123456"));
    assert!(looks_like_totp_code("12345678"));
    assert!(!looks_like_totp_code("12345"));
    assert!(!looks_like_totp_code("123456789"));
    assert!(!looks_like_totp_code("12a456"));
}

#[test]
fn mfa_not_enforced_when_disabled() {
    let (pctx, tctx) = contexts();
    let mut store = Store::new();
    let (user, _, _) = register(
        &pctx,
        &mut store,
        "w@example.com".to_owned(),
        "walter".to_owned(),
        "pw pw pw",
        "dev".to_owned(),
        None,
        None,
        1000,
    )
    .unwrap();
    assert!(require_mfa_if_enabled(&tctx, &mut store, &user, None, 2000).is_ok());
}
