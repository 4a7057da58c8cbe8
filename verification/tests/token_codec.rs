//! Session token codec behavior: generation, hashing, truncation, and the
//! wire encoding.

use auth_core::errors::TokenDecodeError;
use auth_core::token::SessionToken;
use auth_core::token::SessionTokenHash;
use auth_core::token::SessionTokenHashTruncated;
use base64::Engine;

#[test]
fn truncated_hash_is_prefix_of_full_hash() {
    // For every generated token, truncate(hash(token)) is 16 bytes and
    // equals the first 16 bytes of the full hash.
    for _ in 0..8 {
        let token = SessionToken::generate();
        let hash = token.to_hash();
        let truncated = hash.to_truncated();
        assert_eq!(truncated.bytes.len(), 16);
        assert_eq!(&hash.bytes[..16], &truncated.bytes[..]);
        assert!(hash.matches_truncated(&truncated));
    }
}

#[test]
fn token_hash_matches_blake3() {
    let token = SessionToken { bytes: [7u8; 32] };
    let hash = token.to_hash();
    let expected = *blake3::hash(&[7u8; 32]).as_bytes();
    assert_eq!(hash.bytes, expected);
}

#[test]
fn token_encoding_round_trips() {
    let token = SessionToken::generate();
    let encoded = token.encoded();
    assert_eq!(
        encoded,
        base64::engine::general_purpose::URL_SAFE_NO_PAD.encode(token.bytes)
    );
    let decoded = SessionToken::try_from(encoded.as_str()).unwrap();
    assert_eq!(decoded.bytes, token.bytes);
}

#[test]
fn encoded_forms_have_the_contracted_lengths() {
    let token = SessionToken::generate();
    assert_eq!(token.encoded().len(), 43);
    let hash = token.to_hash();
    assert_eq!(hash.encoded().len(), 43);
    assert_eq!(hash.to_truncated().encoded().len(), 22);
}

#[test]
fn token_decode_rejects_bad_alphabet() {
    let r = SessionToken::try_from("not!base64!!");
    assert!(matches!(r, Err(TokenDecodeError::Base64)));
}

#[test]
fn token_decode_rejects_wrong_length() {
    let short = base64::engine::general_purpose::URL_SAFE_NO_PAD.encode([1u8; 16]);
    let r = SessionToken::try_from(short.as_str());
    assert!(matches!(
        r,
        Err(TokenDecodeError::InvalidLength { expected: 32, actual: 16 })
    ));
}

#[test]
fn token_decode_rejects_padding() {
    // The wire format is unpadded; canonical padded text is refused.
    let padded = base64::engine::general_purpose::URL_SAFE.encode([1u8; 32]);
    if padded.contains('=') {
        assert!(SessionToken::try_from(padded.as_str()).is_err());
    }
}

#[test]
fn hash_encoding_round_trips() {
    let hash = SessionTokenHash { bytes: [0xabu8; 32] };
    let decoded = SessionTokenHash::try_from(hash.encoded().as_str()).unwrap();
    assert!(decoded.equals(&hash));
}

#[test]
fn truncated_encoding_round_trips() {
    let t = SessionTokenHashTruncated { bytes: [0x11u8; 16] };
    let decoded = SessionTokenHashTruncated::try_from(t.encoded().as_str()).unwrap();
    assert!(decoded.equals(&t));
    let r = SessionTokenHashTruncated::try_from("AAAA");
    assert!(matches!(
        r,
        Err(TokenDecodeError::InvalidLength { expected: 16, actual: 3 })
    ));
}

#[test]
fn hash_equality_is_by_contents() {
    let a = SessionTokenHash { bytes: [5u8; 32] };
    let b = SessionTokenHash { bytes: [5u8; 32] };
    let mut c = SessionTokenHash { bytes: [5u8; 32] };
    c.bytes[31] = 6;
    assert!(a.equals(&b));
    assert!(!a.equals(&c));
}

#[test]
fn prefix_match_rejects_differing_prefix() {
    let hash = SessionTokenHash { bytes: [9u8; 32] };
    let mut t = hash.to_truncated();
    t.bytes[0] = 8;
    assert!(!hash.matches_truncated(&t));
}

#[test]
fn generated_tokens_differ() {
    let a = SessionToken::generate();
    let b = SessionToken::generate();
    assert_ne!(a.bytes, b.bytes);
}
