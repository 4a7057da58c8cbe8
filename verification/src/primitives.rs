//! Trusted bindings to the byte-level primitives the core builds on:
//! random byte generation, the token digest, and the transport encodings.
//!
//! Each binding is a thin wrapper whose contract states what the outside
//! crate's documentation promises; everything built on top is verified.

use base64::Engine;
use vstd::prelude::*;

verus! {

/// The 32-byte digest blake3 computes for a byte string.
pub uninterp spec fn blake3_of(bytes: Seq<u8>) -> Seq<u8>;

/// The unpadded URL-safe base64 encoding of a byte string.
pub uninterp spec fn b64url_of(bytes: Seq<u8>) -> Seq<char>;

/// What decoding unpadded URL-safe base64 yields: the encoded bytes for
/// canonical input, nothing otherwise.
pub uninterp spec fn b64url_decode_of(text: Seq<char>) -> Option<Seq<u8>>;

/// The padded standard-alphabet base64 encoding of a byte string.
pub uninterp spec fn b64std_of(bytes: Seq<u8>) -> Seq<char>;

/// What decoding padded standard-alphabet base64 yields.
pub uninterp spec fn b64std_decode_of(text: Seq<char>) -> Option<Seq<u8>>;

/// The value of an ASCII hexadecimal digit, either case.
pub open spec fn hex_digit_value(c: char) -> Option<u8> {
    if '0' <= c && c <= '9' {
        Some((c as int - 0x30) as u8)
    } else if 'a' <= c && c <= 'f' {
        Some((c as int - 0x61 + 10) as u8)
    } else if 'A' <= c && c <= 'F' {
        Some((c as int - 0x41 + 10) as u8)
    } else {
        None
    }
}

/// What decoding a hexadecimal string yields: one byte per digit pair,
/// nothing on an odd length or a non-hexadecimal character.
pub open spec fn hex_decode_of(text: Seq<char>) -> Option<Seq<u8>>
    decreases text.len(),
{
    if text.len() == 0 {
        Some(Seq::empty())
    } else if text.len() == 1 {
        None
    } else {
        match (
            hex_digit_value(text[0]),
            hex_digit_value(text[1]),
            hex_decode_of(text.subrange(2, text.len() as int)),
        ) {
            (Some(hi), Some(lo), Some(rest)) => Some(seq![(hi * 16 + lo) as u8] + rest),
            _ => None,
        }
    }
}

/// Relies on rand::random: cryptographically secure random bytes from the
/// thread-local generator. Nothing can be promised of the values.
#[verifier::external_body]
pub(crate) fn random_array<const N: usize>() -> [u8; N] {
    rand::random::<[u8; N]>()
}

/// Relies on blake3::hash: a deterministic 32-byte digest of the input.
#[verifier::external_body]
pub(crate) fn blake3_hash(bytes: &[u8]) -> (r: [u8; 32])
    ensures
        r@ == blake3_of(bytes@),
{
    *blake3::hash(bytes).as_bytes()
}

/// Relies on base64's URL_SAFE_NO_PAD engine: a deterministic unpadded
/// URL-safe encoding of four characters per three bytes, rounded up without
/// padding, which the same engine decodes back to the input.
#[verifier::external_body]
pub(crate) fn b64url_encode(bytes: &[u8]) -> (r: String)
    ensures
        r@ == b64url_of(bytes@),
        b64url_decode_of(r@) == Some(bytes@),
        r@.len() == (4 * bytes@.len() + 2) / 3,
{
    base64::engine::general_purpose::URL_SAFE_NO_PAD.encode(bytes)
}

/// Relies on base64's URL_SAFE_NO_PAD engine: decoding succeeds exactly on
/// canonical unpadded URL-safe input (the engine rejects padding and
/// non-zero trailing bits), so a decoded value re-encodes to the input.
#[verifier::external_body]
pub(crate) fn b64url_decode(text: &str) -> (r: Option<Vec<u8>>)
    ensures
        r matches Some(b) ==> b64url_decode_of(text@) == Some(b@) && b64url_of(b@) == text@,
        r is None ==> b64url_decode_of(text@) is None,
{
    base64::engine::general_purpose::URL_SAFE_NO_PAD.decode(text.as_bytes()).ok()
}

/// Relies on base64's STANDARD engine: a deterministic encoding padded to
/// four characters per three bytes, which the same engine decodes back to
/// the input.
#[verifier::external_body]
pub(crate) fn b64std_encode(bytes: &[u8]) -> (r: String)
    ensures
        r@ == b64std_of(bytes@),
        b64std_decode_of(r@) == Some(bytes@),
        r@.len() == 4 * ((bytes@.len() + 2) / 3),
{
    base64::engine::general_purpose::STANDARD.encode(bytes)
}

/// Relies on base64's STANDARD engine: decoding succeeds exactly on
/// canonically padded standard-alphabet input.
#[verifier::external_body]
pub(crate) fn b64std_decode(text: &str) -> (r: Option<Vec<u8>>)
    ensures
        r matches Some(b) ==> b64std_decode_of(text@) == Some(b@) && b64std_of(b@) == text@,
        r is None ==> b64std_decode_of(text@) is None,
{
    base64::engine::general_purpose::STANDARD.decode(text.as_bytes()).ok()
}

/// Relies on hex::decode: succeeds exactly on even-length hexadecimal
/// strings of either case, yielding one byte per digit pair as
/// `hex_decode_of` spells out.
#[verifier::external_body]
pub(crate) fn hex_decode(text: &str) -> (r: Option<Vec<u8>>)
    ensures
        r matches Some(b) ==> hex_decode_of(text@) == Some(b@) && 2 * b@.len() == text@.len(),
        r is None ==> hex_decode_of(text@) is None,
{
    hex::decode(text).ok()
}

} // verus!
