//! Decoding what a process wrote.

use vstd::prelude::*;
use vstd::utf8::{decode_utf8, valid_utf8};

verus! {

/// The text that lossy decoding makes of bytes that are not UTF-8: what
/// `String::from_utf8_lossy` returns for them.
pub uninterp spec fn utf8_lossy(bytes: Seq<u8>) -> Seq<char>;

/// Calls `String::from_utf8`. Trusted: it accepts exactly the byte strings that
/// are valid UTF-8, and returns the characters that they encode.
#[verifier::external_body]
fn decode_strict(bytes: &Vec<u8>) -> (res: Option<String>)
    ensures
        res is Some <==> valid_utf8(bytes@),
        res matches Some(text) ==> text@ == decode_utf8(bytes@),
{
    match String::from_utf8(bytes.clone()) {
        Ok(text) => Some(text),
        Err(_) => None,
    }
}

/// Calls `String::from_utf8_lossy`. Trusted: the result depends on the bytes
/// alone. Nothing more is claimed of it.
#[verifier::external_body]
fn decode_lossy(bytes: &Vec<u8>) -> (res: String)
    ensures
        res@ == utf8_lossy(bytes@),
{
    String::from_utf8_lossy(bytes).into_owned()
}

/// The text of `bytes`: what they encode where they are valid UTF-8, and what
/// lossy decoding makes of them where they are not. Decoding never fails.
pub open spec fn decoded(bytes: Seq<u8>) -> Seq<char> {
    if valid_utf8(bytes) {
        decode_utf8(bytes)
    } else {
        utf8_lossy(bytes)
    }
}

/// Decodes the output of a process.
pub fn u8_to_str(u8: &Vec<u8>) -> (res: String)
    ensures
        res@ == decoded(u8@),
{
    match decode_strict(u8) {
        Some(text) => text,
        None => decode_lossy(u8),
    }
}

} // verus!
