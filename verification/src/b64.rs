//! Trusted boundary to the `base64` crate (standard alphabet, padded).
//!
//! The manifest embeds its metadata blocks base64-encoded, the license
//! protocol carries the challenge and the license base64-encoded. What the
//! encoding maps a given input to is named, not restated: the names below are
//! functions of the input alone, so every contract built on them is exact up
//! to the encoding itself.

use base64::Engine;
use vstd::prelude::*;

verus! {

/// What `base64`'s standard padded engine decodes a byte string to:
/// `Some` exactly on well-formed input, `None` otherwise.
pub uninterp spec fn b64_decoded(s: Seq<u8>) -> Option<Seq<u8>>;

/// What `base64`'s standard padded engine encodes a byte string to.
pub uninterp spec fn b64_encoded(b: Seq<u8>) -> Seq<u8>;

/// Relies on `base64::engine::general_purpose::STANDARD.decode`: the result
/// is a function of the input bytes alone, and a decoded quad of symbols
/// never yields more bytes than it consumed.
#[verifier::external_body]
pub fn base64_decode(s: &[u8]) -> (r: Option<Vec<u8>>)
    ensures
        match r {
            Some(v) => b64_decoded(s@) == Some(v@) && v@.len() <= s@.len(),
            None => b64_decoded(s@) is None,
        },
{
    base64::engine::general_purpose::STANDARD.decode(s).ok()
}

/// Relies on `base64::engine::general_purpose::STANDARD.encode`: the result
/// is a function of the input bytes alone. The length bound keeps the
/// internal output-size computation of the engine from overflowing.
#[verifier::external_body]
pub fn base64_encode(b: &[u8]) -> (r: Vec<u8>)
    requires
        b@.len() < 0x4000000000000000,
    ensures
        r@ == b64_encoded(b@),
{
    base64::engine::general_purpose::STANDARD.encode(b).into_bytes()
}

} // verus!
