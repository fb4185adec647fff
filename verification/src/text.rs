//! Bytes as UTF-8 text: the two conversions of the standard library that the
//! crate relies on.

use vstd::prelude::*;
use vstd::utf8::{decode_utf8, valid_utf8};

verus! {

/// `String::from_utf8`, with the bytes of its error taken out: the text
/// whose UTF-8 encoding the bytes are, or, where they are no UTF-8, the
/// bytes themselves, unchanged.
#[verifier::external_body]
pub(crate) fn string_from_utf8(bytes: Vec<u8>) -> (text: Result<String, Vec<u8>>)
    ensures
        match text {
            Ok(s) => valid_utf8(bytes@) && s@ == decode_utf8(bytes@),
            Err(raw) => !valid_utf8(bytes@) && raw@ == bytes@,
        },
{
    String::from_utf8(bytes).map_err(|e| e.into_bytes())
}

/// `std::str::from_utf8`, with its error dropped: the text whose UTF-8
/// encoding the bytes are, borrowed from them, or nothing where they are no
/// UTF-8.
#[verifier::external_body]
pub(crate) fn str_from_utf8(bytes: &[u8]) -> (text: Option<&str>)
    ensures
        match text {
            Some(s) => valid_utf8(bytes@) && s@ == decode_utf8(bytes@),
            None => !valid_utf8(bytes@),
        },
{
    std::str::from_utf8(bytes).ok()
}

} // verus!
