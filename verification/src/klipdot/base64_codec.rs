//! Standard base64 text of clipboard images.

use base64::Engine;
use vstd::prelude::*;

use crate::b64::{base64_len, base64_standard, encode_standard, is_base64_char};

verus! {

/// The error `base64` reports for text that is not padded standard base64.
#[verifier::external_type_specification]
#[verifier::external_body]
pub struct ExDecodeError(base64::DecodeError);

/// Calls `base64::engine::general_purpose::STANDARD.decode`. That engine
/// requires canonical padding and rejects trailing bits, so it accepts exactly
/// the texts its `encode` writes: the contract claims that an `Ok` holds the
/// bytes whose encoding is `data`, that the encoding of any bytes decodes
/// back to them, and that text holding a character outside the alphabet and
/// the pad is refused (the engine's decode table marks every such byte
/// invalid). Which error variant comes out is not stated.
#[verifier::external_body]
fn decode_standard(data: &str) -> (r: Result<Vec<u8>, base64::DecodeError>)
    ensures
        r matches Ok(v) ==> base64_standard(v@) == data@,
        r matches Ok(v) ==> forall|x: Seq<u8>| #[trigger] base64_standard(x) == data@ ==> x == v@,
        r is Ok || forall|x: Seq<u8>| #[trigger] base64_standard(x) != data@,
        (exists|i: int| 0 <= i < data@.len() && !is_base64_char(#[trigger] data@[i])) ==> r is Err,
{
    base64::engine::general_purpose::STANDARD.decode(data)
}

/// Calls `DecodeError`'s `Display` (`to_string`). Nothing is claimed of the
/// text.
#[verifier::external_body]
pub(crate) fn decode_error_text(e: &base64::DecodeError) -> String {
    e.to_string()
}

/// The padded standard base64 text of `data`.
pub fn encode(data: &[u8]) -> (s: String)
    requires
        base64_len(data@.len()) <= usize::MAX,
    ensures
        s@ == base64_standard(data@),
        s@.len() == base64_len(data@.len()),
{
    encode_standard(data)
}

/// The bytes whose padded standard base64 text is `data`; an error when
/// `data` is no such text, in particular when it holds a character outside
/// the base64 alphabet and the pad `=`.
pub fn decode(data: &str) -> (r: Result<Vec<u8>, base64::DecodeError>)
    ensures
        r is Ok <==> exists|x: Seq<u8>| #[trigger] base64_standard(x) == data@,
        (exists|i: int| 0 <= i < data@.len() && !is_base64_char(#[trigger] data@[i])) ==> r is Err,
        r matches Ok(v) ==> forall|x: Seq<u8>| #[trigger] base64_standard(x) == data@ <==> x == v@,
{
    decode_standard(data)
}

} // verus!
