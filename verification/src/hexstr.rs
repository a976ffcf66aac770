//! Hexadecimal text fields of a coin-spend record.

use crate::error::DecodeError;
use crate::hash::Bytes32;
use crate::values::to_bytes32;
use vstd::prelude::*;
use vstd::string::*;

verus! {

/// The text that remains once an optional leading `0x` is taken off.
pub open spec fn strip_hex_spec(source: Seq<char>) -> Seq<char> {
    if source.len() >= 2 && source[0] == '0' && source[1] == 'x' {
        source.skip(2)
    } else {
        source
    }
}

/// Takes an optional `0x` prefix off a hexadecimal string; a string without
/// the prefix is returned as it is.
pub fn strip_hex(source: &str) -> (stripped: &str)
    ensures
        stripped@ == strip_hex_spec(source@),
{
    let n: usize = source.unicode_len();
    if n >= 2 && source.get_char(0) == '0' && source.get_char(1) == 'x' {
        source.substring_char(2, n)
    } else {
        source
    }
}

/// The value of a hexadecimal digit, upper or lower case; `None` for any
/// other character.
pub open spec fn digit_value(c: char) -> Option<u8> {
    let code = c as u32;
    if 0x30 <= code <= 0x39 {
        Some((code - 0x30) as u8)
    } else if 0x61 <= code <= 0x66 {
        Some((code - 0x61 + 10) as u8)
    } else if 0x41 <= code <= 0x46 {
        Some((code - 0x41 + 10) as u8)
    } else {
        None
    }
}

/// Whether a text is hexadecimal: an even number of hexadecimal digits.
pub open spec fn is_hex(text: Seq<char>) -> bool {
    text.len() % 2 == 0 && forall|i: int| 0 <= i < text.len() ==> digit_value(#[trigger] text[i])
        is Some
}

/// The bytes that a hexadecimal text spells: two digits a byte, the high
/// digit first.
pub open spec fn hex_bytes(text: Seq<char>) -> Seq<u8> {
    Seq::new(
        text.len() / 2,
        |i: int|
            (digit_value(text[2 * i]).unwrap() * 16 + digit_value(text[2 * i + 1]).unwrap()) as u8,
    )
}

/// What a hexadecimal field holds, once an optional `0x` is taken off.
pub open spec fn hex_field(source: Seq<char>) -> Result<Seq<u8>, DecodeError> {
    if is_hex(strip_hex_spec(source)) {
        Ok(hex_bytes(strip_hex_spec(source)))
    } else {
        Err(DecodeError::HexDecodeError)
    }
}

/// What a hexadecimal field of exactly 32 bytes holds.
pub open spec fn hex32_field(source: Seq<char>) -> Result<Seq<u8>, DecodeError> {
    match hex_field(source) {
        Ok(bytes) => if bytes.len() == 32 {
            Ok(bytes)
        } else {
            Err(DecodeError::FixedSizeMismatch)
        },
        Err(error) => Err(error),
    }
}

/// Calls `hex::decode`, which turns each two hexadecimal digits, of either
/// case, into a byte, and fails on a text of odd length or with a character
/// that is no hexadecimal digit: the error case is turned into `None`.
#[verifier::external_body]
fn hex_decode(text: &str) -> (bytes: Option<Vec<u8>>)
    ensures
        bytes is Some <==> is_hex(text@),
        bytes is Some ==> bytes.unwrap()@ == hex_bytes(text@),
{
    hex::decode(text).ok()
}

/// Decodes a hexadecimal field, with or without a leading `0x`.
pub fn decode_hex(source: &str) -> (decoded: Result<Vec<u8>, DecodeError>)
    ensures
        match hex_field(source@) {
            Ok(bytes) => decoded is Ok && decoded.unwrap()@ == bytes,
            Err(error) => decoded matches Err(e) && e == error,
        },
{
    match hex_decode(strip_hex(source)) {
        Some(bytes) => Ok(bytes),
        None => Err(DecodeError::HexDecodeError),
    }
}

/// Decodes a hexadecimal field that must hold exactly 32 bytes.
pub fn decode_hex32(source: &str) -> (decoded: Result<Bytes32, DecodeError>)
    ensures
        match hex32_field(source@) {
            Ok(bytes) => decoded is Ok && decoded.unwrap()@ == bytes,
            Err(error) => decoded matches Err(e) && e == error,
        },
{
    let bytes = decode_hex(source)?;
    match to_bytes32(bytes.as_slice()) {
        Some(id) => Ok(id),
        None => Err(DecodeError::FixedSizeMismatch),
    }
}

} // verus!
