//! Decoding bytes as UTF-8 text.

use vstd::prelude::*;
use vstd::utf8::{decode_utf8, valid_utf8};

verus! {

/// `String::from_utf8`: succeeds exactly on well-formed UTF-8 and then yields
/// the characters that the bytes encode, with no replacement of any byte.
/// On failure the error's own description is handed back, of which nothing is
/// claimed.
#[verifier::external_body]
pub(crate) fn decode(bytes: Vec<u8>) -> (decoded: Result<String, String>)
    ensures
        decoded is Ok <==> valid_utf8(bytes@),
        decoded matches Ok(text) ==> text@ == decode_utf8(bytes@),
{
    String::from_utf8(bytes).map_err(|e| e.to_string())
}

} // verus!
