//! The bytes that are sent for a line the operator typed, as text or as hex.

use crate::line_ending::LineEnding;
use crate::render::{replace, replace_all};
use crate::text::{chars_of, string_of};
use vstd::prelude::*;
use vstd::slice::slice_to_vec;
use vstd::utf8::encode_utf8;

verus! {

/// Why a typed line cannot be sent.
#[derive(Debug, Clone, Copy, PartialEq, Eq, Structural)]
pub enum PayloadError {
    /// In hex mode the line, spaces aside, is not an even number of hex
    /// digits.
    InvalidHex,
}

/// The error of `hex::decode`, carried through unread.
#[verifier::external_type_specification]
#[verifier::external_body]
pub struct ExFromHexError(hex::FromHexError);

/// The value of a hex digit of either case, `None` for any other character.
pub open spec fn hex_value(c: char) -> Option<int> {
    if '0' <= c <= '9' {
        Some(c as int - '0' as int)
    } else if 'a' <= c <= 'f' {
        Some(c as int - 'a' as int + 10)
    } else if 'A' <= c <= 'F' {
        Some(c as int - 'A' as int + 10)
    } else {
        None
    }
}

/// Whether `text` is an even number of hex digits.
pub open spec fn is_hex_text(text: Seq<char>) -> bool {
    &&& text.len() % 2 == 0
    &&& forall|i: int| 0 <= i < text.len() ==> hex_value(#[trigger] text[i]) is Some
}

/// The bytes that the digit pairs of `text` stand for.
pub open spec fn hex_bytes(text: Seq<char>) -> Seq<u8> {
    Seq::new(
        text.len() / 2,
        |i: int| (16 * hex_value(text[2 * i]).unwrap() + hex_value(text[2 * i + 1]).unwrap()) as u8,
    )
}

/// `text` with its spaces taken out.
pub open spec fn without_spaces(text: Seq<char>) -> Seq<char> {
    replace_all(text, seq![' '], Seq::empty())
}

/// The bytes to send for a typed line: in hex mode the bytes its digit
/// pairs stand for, spaces being ignored; else its UTF-8 encoding followed
/// by the line ending.
pub open spec fn payload_of(text: Seq<char>, hex_mode: bool, line_ending: LineEnding) -> Result<
    Seq<u8>,
    PayloadError,
> {
    if hex_mode {
        if is_hex_text(without_spaces(text)) {
            Ok(hex_bytes(without_spaces(text)))
        } else {
            Err(PayloadError::InvalidHex)
        }
    } else {
        Ok(encode_utf8(text) + line_ending.bytes())
    }
}

/// What a built payload holds.
pub open spec fn contents(payload: Result<Vec<u8>, PayloadError>) -> Result<
    Seq<u8>,
    PayloadError,
> {
    match payload {
        Ok(bytes) => Ok(bytes@),
        Err(error) => Err(error),
    }
}

/// Calls `hex::decode` on the bytes of `text`. It succeeds exactly on an
/// even number of hex digits of either case, and then yields one byte for
/// each pair, the first digit being the higher.
#[verifier::external_body]
fn hex_decode(text: &str) -> (r: Result<Vec<u8>, hex::FromHexError>)
    ensures
        r is Ok <==> is_hex_text(text@),
        r matches Ok(bytes) ==> bytes@ == hex_bytes(text@),
{
    hex::decode(text)
}

/// Builds the bytes to send for a typed line.
pub fn build_payload(text: &str, hex_mode: bool, line_ending: LineEnding) -> (payload: Result<
    Vec<u8>,
    PayloadError,
>)
    ensures
        contents(payload) == payload_of(text@, hex_mode, line_ending),
{
    if hex_mode {
        let chars = chars_of(text);
        let mut space: Vec<char> = Vec::new();
        space.push(' ');
        let nothing: Vec<char> = Vec::new();
        let digits = string_of(&replace(&chars, &space, &nothing));
        match hex_decode(digits.as_str()) {
            Ok(bytes) => Ok(bytes),
            Err(_) => Err(PayloadError::InvalidHex),
        }
    } else {
        let mut bytes = slice_to_vec(text.as_bytes());
        let ghost encoded = bytes@;
        bytes.extend_from_slice(line_ending.as_bytes());
        assert(bytes@ =~= encoded + line_ending.bytes());
        Ok(bytes)
    }
}

} // verus!
