//! Session token codec: generation, hashing, truncation, and the wire
//! encoding (unpadded URL-safe base64).
//!
//! A `SessionToken` is a 32-byte random value known only to the client; only
//! its one-way hash is stored. The first 16 bytes of the hash travel inside
//! signed access claims as an opaque correlation id.

use vstd::prelude::*;

use crate::errors::TokenDecodeError;
use crate::primitives::b64url_decode;
use crate::primitives::b64url_decode_of;
use crate::primitives::b64url_encode;
use crate::primitives::b64url_of;
use crate::primitives::blake3_hash;
use crate::primitives::blake3_of;
use crate::primitives::random_array;

verus! {

broadcast use vstd::array::group_array_axioms;

/// A 32-byte opaque refresh token; never stored server-side.
#[derive(Debug, Clone, Copy)]
pub struct SessionToken {
    pub bytes: [u8; 32],
}

/// The stored one-way hash of a session token.
#[derive(Debug, Clone, Copy)]
pub struct SessionTokenHash {
    pub bytes: [u8; 32],
}

/// The first 16 bytes of a session token hash; an opaque correlation id,
/// never a security boundary on its own.
#[derive(Debug, Clone, Copy)]
pub struct SessionTokenHashTruncated {
    pub bytes: [u8; 16],
}

impl View for SessionToken {
    type V = Seq<u8>;

    open spec fn view(&self) -> Seq<u8> {
        self.bytes@
    }
}

impl View for SessionTokenHash {
    type V = Seq<u8>;

    open spec fn view(&self) -> Seq<u8> {
        self.bytes@
    }
}

impl View for SessionTokenHashTruncated {
    type V = Seq<u8>;

    open spec fn view(&self) -> Seq<u8> {
        self.bytes@
    }
}

/// The truncation of a full token hash: its first 16 bytes.
pub open spec fn spec_truncated(hash: Seq<u8>) -> Seq<u8> {
    hash.subrange(0, 16)
}

/// Copies the first 16 bytes of a 32-byte array.
fn first_half(bytes: &[u8; 32]) -> (r: [u8; 16])
    ensures
        r@ == bytes@.subrange(0, 16),
{
    let mut out: [u8; 16] = [0u8; 16];
    let mut i: usize = 0;
    while i < 16
        invariant
            i <= 16,
            forall|j: int| 0 <= j < i ==> out@[j] == bytes@[j],
        decreases 16 - i,
    {
        out[i] = bytes[i];
        i = i + 1;
    }
    proof {
        assert(out@ =~= bytes@.subrange(0, 16));
    }
    out
}

/// Copies a 32-byte vector into an array.
fn to_array_32(v: &Vec<u8>) -> (r: [u8; 32])
    requires
        v@.len() == 32,
    ensures
        r@ == v@,
{
    let mut out: [u8; 32] = [0u8; 32];
    let mut i: usize = 0;
    while i < 32
        invariant
            v@.len() == 32,
            i <= 32,
            forall|j: int| 0 <= j < i ==> out@[j] == v@[j],
        decreases 32 - i,
    {
        out[i] = v[i];
        i = i + 1;
    }
    proof {
        assert(out@ =~= v@);
    }
    out
}

/// Copies a 16-byte vector into an array.
fn to_array_16(v: &Vec<u8>) -> (r: [u8; 16])
    requires
        v@.len() == 16,
    ensures
        r@ == v@,
{
    let mut out: [u8; 16] = [0u8; 16];
    let mut i: usize = 0;
    while i < 16
        invariant
            v@.len() == 16,
            i <= 16,
            forall|j: int| 0 <= j < i ==> out@[j] == v@[j],
        decreases 16 - i,
    {
        out[i] = v[i];
        i = i + 1;
    }
    proof {
        assert(out@ =~= v@);
    }
    out
}

impl SessionToken {
    /// Draws a fresh random 32-byte token.
    pub fn generate() -> SessionToken {
        SessionToken { bytes: random_array::<32>() }
    }

    /// The stored form of the token: its blake3 digest.
    pub fn to_hash(&self) -> (h: SessionTokenHash)
        ensures
            h@ == blake3_of(self@),
    {
        SessionTokenHash { bytes: blake3_hash(self.bytes.as_slice()) }
    }

    /// The wire form of the token: 43 characters of unpadded URL-safe base64.
    pub fn encoded(&self) -> (r: String)
        ensures
            r@ == b64url_of(self@),
            b64url_decode_of(r@) == Some(self@),
            r@.len() == 43,
    {
        b64url_encode(self.bytes.as_slice())
    }

    /// Decodes a wire-encoded token; succeeds exactly when the text is
    /// canonical unpadded URL-safe base64 of 32 bytes.
    pub fn try_from(s: &str) -> (r: Result<SessionToken, TokenDecodeError>)
        ensures
            match r {
                Ok(t) => b64url_decode_of(s@) == Some(t@),
                Err(TokenDecodeError::Base64) => b64url_decode_of(s@) is None,
                Err(TokenDecodeError::InvalidLength { expected, actual }) => {
                    &&& expected == 32
                    &&& actual != 32
                    &&& b64url_decode_of(s@) matches Some(b) && b.len() == actual
                },
            },
    {
        match b64url_decode(s) {
            None => Err(TokenDecodeError::Base64),
            Some(decoded) => {
                if decoded.len() != 32 {
                    Err(TokenDecodeError::InvalidLength { expected: 32, actual: decoded.len() })
                } else {
                    Ok(SessionToken { bytes: to_array_32(&decoded) })
                }
            },
        }
    }
}

impl SessionTokenHash {
    /// The truncated form of the hash: its first 16 bytes.
    pub fn to_truncated(&self) -> (r: SessionTokenHashTruncated)
        ensures
            r@ == spec_truncated(self@),
    {
        SessionTokenHashTruncated { bytes: first_half(&self.bytes) }
    }

    /// The wire form of the hash: 43 characters of unpadded URL-safe base64.
    pub fn encoded(&self) -> (r: String)
        ensures
            r@ == b64url_of(self@),
            r@.len() == 43,
    {
        b64url_encode(self.bytes.as_slice())
    }

    /// Decodes a wire-encoded hash; succeeds exactly when the text is
    /// canonical unpadded URL-safe base64 of 32 bytes.
    pub fn try_from(s: &str) -> (r: Result<SessionTokenHash, TokenDecodeError>)
        ensures
            match r {
                Ok(h) => b64url_decode_of(s@) == Some(h@),
                Err(TokenDecodeError::Base64) => b64url_decode_of(s@) is None,
                Err(TokenDecodeError::InvalidLength { expected, actual }) => {
                    &&& expected == 32
                    &&& actual != 32
                    &&& b64url_decode_of(s@) matches Some(b) && b.len() == actual
                },
            },
    {
        match b64url_decode(s) {
            None => Err(TokenDecodeError::Base64),
            Some(decoded) => {
                if decoded.len() != 32 {
                    Err(TokenDecodeError::InvalidLength { expected: 32, actual: decoded.len() })
                } else {
                    Ok(SessionTokenHash { bytes: to_array_32(&decoded) })
                }
            },
        }
    }

    /// Compares two stored hashes byte for byte; the compare-and-swap guard
    /// of every rotation.
    pub fn equals(&self, other: &SessionTokenHash) -> (r: bool)
        ensures
            r == (self@ == other@),
    {
        let mut i: usize = 0;
        while i < 32
            invariant
                i <= 32,
                forall|j: int| 0 <= j < i ==> self@[j] == other@[j],
            decreases 32 - i,
        {
            if self.bytes[i] != other.bytes[i] {
                return false;
            }
            i = i + 1;
        }
        proof {
            assert(self@ =~= other@);
        }
        true
    }

    /// Compares the hash's 16-byte prefix against a truncated hash, as the
    /// access-claim cross-check does.
    pub fn matches_truncated(&self, other: &SessionTokenHashTruncated) -> (r: bool)
        ensures
            r == (spec_truncated(self@) == other@),
    {
        let mut i: usize = 0;
        while i < 16
            invariant
                i <= 16,
                forall|j: int| 0 <= j < i ==> self@[j] == other@[j],
            decreases 16 - i,
        {
            if self.bytes[i] != other.bytes[i] {
                proof {
                    assert(spec_truncated(self@)[i as int] != other@[i as int]);
                }
                return false;
            }
            i = i + 1;
        }
        proof {
            assert(spec_truncated(self@) =~= other@);
        }
        true
    }
}

impl SessionTokenHashTruncated {
    /// The wire form of the truncated hash: 22 characters of unpadded
    /// URL-safe base64.
    pub fn encoded(&self) -> (r: String)
        ensures
            r@ == b64url_of(self@),
            b64url_decode_of(r@) == Some(self@),
            r@.len() == 22,
    {
        b64url_encode(self.bytes.as_slice())
    }

    /// Decodes a wire-encoded truncated hash; succeeds exactly when the text
    /// is canonical unpadded URL-safe base64 of 16 bytes.
    pub fn try_from(s: &str) -> (r: Result<SessionTokenHashTruncated, TokenDecodeError>)
        ensures
            match r {
                Ok(t) => b64url_decode_of(s@) == Some(t@),
                Err(TokenDecodeError::Base64) => b64url_decode_of(s@) is None,
                Err(TokenDecodeError::InvalidLength { expected, actual }) => {
                    &&& expected == 16
                    &&& actual != 16
                    &&& b64url_decode_of(s@) matches Some(b) && b.len() == actual
                },
            },
    {
        match b64url_decode(s) {
            None => Err(TokenDecodeError::Base64),
            Some(decoded) => {
                if decoded.len() != 16 {
                    Err(TokenDecodeError::InvalidLength { expected: 16, actual: decoded.len() })
                } else {
                    Ok(SessionTokenHashTruncated { bytes: to_array_16(&decoded) })
                }
            },
        }
    }

    /// Compares two truncated hashes byte for byte.
    pub fn equals(&self, other: &SessionTokenHashTruncated) -> (r: bool)
        ensures
            r == (self@ == other@),
    {
        let mut i: usize = 0;
        while i < 16
            invariant
                i <= 16,
                forall|j: int| 0 <= j < i ==> self@[j] == other@[j],
            decreases 16 - i,
        {
            if self.bytes[i] != other.bytes[i] {
                return false;
            }
            i = i + 1;
        }
        proof {
            assert(self@ =~= other@);
        }
        true
    }
}

/// Law: for every generated token, the truncation of its hash is 16 bytes
/// long and equals the first 16 bytes of the full hash.
pub proof fn lemma_truncated_is_hash_prefix(token: Seq<u8>)
    requires
        blake3_of(token).len() == 32,
    ensures
        spec_truncated(blake3_of(token)).len() == 16,
        forall|i: int| 0 <= i < 16 ==> spec_truncated(blake3_of(token))[i] == blake3_of(token)[i],
{
}

} // verus!
