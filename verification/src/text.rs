//! Trusted boundary between byte vectors and `String`.
//!
//! The parsers work on raw manifest bytes; the result aggregate hands URIs
//! and codec names out as `String`. The one conversion that Verus cannot
//! check is UTF-8 validation, so it is stated against vstd's own UTF-8 model.

use vstd::prelude::*;
use vstd::utf8::{encode_utf8, valid_utf8};

verus! {

/// Relies on `String::from_utf8`: it succeeds exactly on valid UTF-8 and the
/// returned string re-encodes to the input bytes.
#[verifier::external_body]
pub fn bytes_to_string(v: Vec<u8>) -> (r: Option<String>)
    ensures
        match r {
            Some(s) => valid_utf8(v@) && encode_utf8(s@) == v@,
            None => !valid_utf8(v@),
        },
{
    String::from_utf8(v).ok()
}


/// Relies on `String::from_utf8` in its ASCII case: bytes below 128 are
/// valid UTF-8 and decode to the characters with the same code points.
#[verifier::external_body]
pub fn ascii_to_string(v: Vec<u8>) -> (r: String)
    requires
        forall|i: int| 0 <= i < v@.len() ==> v@[i] < 128,
    ensures
        r@ == v@.map(|i: int, c: u8| c as char),
{
    String::from_utf8(v).unwrap()
}

} // verus!
