//! Validation of registration inputs: nicknames and passwords.

use vstd::prelude::*;
use vstd::string::StringSliceAdditionalSpecFns;

use crate::errors::ValidationError;

verus! {

/// A byte a nickname may hold: ASCII alphanumeric, underscore or hyphen.
pub open spec fn is_nickname_byte(b: u8) -> bool {
    ||| 0x30 <= b <= 0x39
    ||| 0x41 <= b <= 0x5a
    ||| 0x61 <= b <= 0x7a
    ||| b == 0x5f
    ||| b == 0x2d
}

/// An ASCII whitespace byte.
pub open spec fn is_space_byte(b: u8) -> bool {
    b == 0x20 || b == 0x09 || b == 0x0a || b == 0x0c || b == 0x0d
}

/// Tests a byte for the nickname alphabet.
fn nickname_byte(b: u8) -> (r: bool)
    ensures
        r == is_nickname_byte(b),
{
    (0x30 <= b && b <= 0x39) || (0x41 <= b && b <= 0x5a) || (0x61 <= b && b <= 0x7a) || b == 0x5f
        || b == 0x2d
}

/// Tests a byte for ASCII whitespace.
fn space_byte(b: u8) -> (r: bool)
    ensures
        r == is_space_byte(b),
{
    b == 0x20 || b == 0x09 || b == 0x0a || b == 0x0c || b == 0x0d
}

/// What validating a nickname yields: the rules are checked in order — no
/// leading or trailing whitespace, then 3 to 16 bytes, then no whitespace
/// inside, then only alphanumeric characters, underscores or hyphens — and
/// the first failed rule names the error.
pub open spec fn spec_nickname_check(bytes: Seq<u8>) -> Result<(), ValidationError> {
    if bytes.len() > 0 && (is_space_byte(bytes[0]) || is_space_byte(bytes[bytes.len() - 1])) {
        Err(ValidationError::Trim)
    } else if !(3 <= bytes.len() <= 16) {
        Err(ValidationError::Length)
    } else if exists|i: int| 0 <= i < bytes.len() && is_space_byte(#[trigger] bytes[i]) {
        Err(ValidationError::Whitespace)
    } else if exists|i: int| 0 <= i < bytes.len() && !is_nickname_byte(#[trigger] bytes[i]) {
        Err(ValidationError::InvalidChars)
    } else {
        Ok(())
    }
}

/// Validates a nickname: no leading or trailing whitespace, 3 to 16 bytes,
/// no whitespace inside, and only alphanumeric characters, underscores or
/// hyphens. The first failed rule names the error.
pub fn nickname(text: &str) -> (r: Result<(), ValidationError>)
    ensures
        r == spec_nickname_check(text.spec_bytes()),
{
    let bytes = text.as_bytes();
    let len = bytes.len();
    if len > 0 && (space_byte(bytes[0]) || space_byte(bytes[len - 1])) {
        return Err(ValidationError::Trim);
    }
    if len < 3 || len > 16 {
        return Err(ValidationError::Length);
    }
    let mut i: usize = 0;
    while i < len
        invariant
            bytes@ == text.spec_bytes(),
            len == bytes@.len(),
            3 <= len <= 16,
            !is_space_byte(bytes@[0]) && !is_space_byte(bytes@[len - 1]),
            i <= len,
            forall|j: int| 0 <= j < i ==> !is_space_byte(#[trigger] bytes@[j]),
        decreases len - i,
    {
        if space_byte(bytes[i]) {
            return Err(ValidationError::Whitespace);
        }
        i = i + 1;
    }
    let mut i: usize = 0;
    while i < len
        invariant
            bytes@ == text.spec_bytes(),
            len == bytes@.len(),
            3 <= len <= 16,
            !is_space_byte(bytes@[0]) && !is_space_byte(bytes@[len - 1]),
            i <= len,
            forall|j: int| 0 <= j < len ==> !is_space_byte(#[trigger] bytes@[j]),
            forall|j: int| 0 <= j < i ==> is_nickname_byte(#[trigger] bytes@[j]),
        decreases len - i,
    {
        if !nickname_byte(bytes[i]) {
            return Err(ValidationError::InvalidChars);
        }
        i = i + 1;
    }
    Ok(())
}

/// Validates a password: 8 to 128 bytes.
pub fn password(text: &str) -> (r: Result<(), ValidationError>)
    ensures
        r is Ok <==> 8 <= text.spec_bytes().len() <= 128,
        r is Err ==> r == Err::<(), ValidationError>(ValidationError::Length),
{
    let len = text.as_bytes().len();
    if len < 8 || len > 128 {
        Err(ValidationError::Length)
    } else {
        Ok(())
    }
}

} // verus!
