//! Hexadecimal text of clipboard images (as AppleScript prints PNG data).

use vstd::prelude::*;

use crate::text::utf8;

verus! {

/// The error `hex` reports for text that is not hexadecimal.
#[verifier::external_type_specification]
#[verifier::external_body]
pub struct ExFromHexError(hex::FromHexError);

/// The value of a hexadecimal digit byte (`0-9`, `a-f`, `A-F`).
pub open spec fn hex_digit_value(b: u8) -> Option<u8> {
    if 0x30 <= b && b <= 0x39 {
        Some((b - 0x30) as u8)
    } else if 0x41 <= b && b <= 0x46 {
        Some((b - 0x41 + 10) as u8)
    } else if 0x61 <= b && b <= 0x66 {
        Some((b - 0x61 + 10) as u8)
    } else {
        None
    }
}

/// Whether `t` is hexadecimal text: an even number of digit bytes.
pub open spec fn is_hex_text(t: Seq<u8>) -> bool {
    &&& t.len() % 2 == 0
    &&& forall|i: int| 0 <= i < t.len() ==> (#[trigger] hex_digit_value(t[i])) is Some
}

/// The bytes that hexadecimal text `t` spells, two digits each, high digit
/// first.
pub open spec fn hex_bytes(t: Seq<u8>) -> Seq<u8> {
    Seq::new(
        t.len() / 2,
        |i: int| (hex_digit_value(t[2 * i])->0 * 16 + hex_digit_value(t[2 * i + 1])->0) as u8,
    )
}

/// Calls `hex::decode`. The contract claims what its source shows: the text's
/// bytes must be an even number of hexadecimal digits, and each pair becomes
/// one byte, high digit first. Which error variant comes out is not stated.
#[verifier::external_body]
fn decode_hex(data: &str) -> (r: Result<Vec<u8>, hex::FromHexError>)
    ensures
        r is Ok <==> is_hex_text(utf8(data@)),
        r matches Ok(v) ==> v@ == hex_bytes(utf8(data@)),
{
    hex::decode(data)
}

/// The bytes spelled by hexadecimal text; an error for text of odd length or
/// holding a non-digit.
pub fn decode(data: &str) -> (r: Result<Vec<u8>, hex::FromHexError>)
    ensures
        r is Ok <==> is_hex_text(utf8(data@)),
        r matches Ok(v) ==> v@ == hex_bytes(utf8(data@)),
{
    decode_hex(data)
}

} // verus!
