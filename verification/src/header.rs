//! The protection header: a deterministic binary serialization of a key
//! identifier for the target DRM scheme.
//!
//! The header is a version-0 `pssh` box holding the scheme's protection data:
//! algorithm tag fixed to 1 (stream cipher mode) and a single raw key
//! identifier. `build` is a pure function of the textual identifier; the
//! parser below inverts it, which gives the round trip its proof.

use crate::b64::{b64_decoded, base64_decode};
use crate::byteseq::append_bytes;
use crate::byteseq::rfind_byte;
use crate::byteseq::subvec;
use crate::error::Error;
use vstd::prelude::*;
use vstd::string::StringSliceAdditionalSpecFns;

verus! {

/// Comma, the delimiter of the textual identifier.
pub const COMMA: u8 = 44;

/// The four magic bytes `pssh` of the box header.
pub open spec fn spec_box_magic() -> Seq<u8> {
    seq![112u8, 115u8, 115u8, 104u8]
}

/// The 16-byte system identifier of the target DRM scheme.
pub open spec fn spec_system_id() -> Seq<u8> {
    seq![
        0xedu8, 0xefu8, 0x8bu8, 0xa9u8, 0x79u8, 0xd6u8, 0x4au8, 0xceu8, 0xa3u8, 0xc8u8, 0x27u8,
        0xdcu8, 0xd5u8, 0x1du8, 0x21u8, 0xedu8,
    ]
}

/// Big-endian four-byte expansion of a 32-bit value.
pub open spec fn spec_u32_be(n: u32) -> Seq<u8> {
    seq![
        (n / 0x1000000) as u8,
        ((n / 0x10000) % 0x100) as u8,
        ((n / 0x100) % 0x100) as u8,
        (n % 0x100) as u8,
    ]
}

/// The 32-bit value read back from four big-endian bytes.
pub open spec fn spec_be32(s: Seq<u8>) -> int
    recommends
        s.len() == 4,
{
    s[0] * 0x1000000 + s[1] * 0x10000 + s[2] * 0x100 + s[3]
}

/// Base-128 varint encoding, least significant group first.
pub open spec fn spec_varint(n: nat) -> Seq<u8>
    decreases n,
{
    if n < 128 {
        seq![n as u8]
    } else {
        seq![(n % 128 + 128) as u8] + spec_varint(n / 128)
    }
}

/// Varint read back from position `i`: the value and the position after it.
pub open spec fn spec_parse_varint(s: Seq<u8>, i: int) -> Option<(nat, int)>
    decreases s.len() - i,
{
    if i < 0 || i >= s.len() {
        None
    } else if s[i] < 128 {
        Some((s[i] as nat, i + 1))
    } else {
        match spec_parse_varint(s, i + 1) {
            Some((n, j)) => Some(((s[i] - 128) as nat + 128 * n, j)),
            None => None,
        }
    }
}

/// The scheme's protection data: algorithm fixed to 1, then the single raw
/// key identifier as a length-delimited field.
pub open spec fn spec_pssh_data(kid: Seq<u8>) -> Seq<u8> {
    seq![8u8, 1u8, 0x12u8] + spec_varint(kid.len()) + kid
}

/// The whole header: a version-0 box around the protection data.
pub open spec fn spec_protection_header(kid: Seq<u8>) -> Seq<u8> {
    let data = spec_pssh_data(kid);
    spec_u32_be((32 + data.len()) as u32) + spec_box_magic() + seq![0u8, 0u8, 0u8, 0u8]
        + spec_system_id() + spec_u32_be(data.len() as u32) + data
}

/// The suffix of `s` after its last comma; all of `s` when it has none.
pub open spec fn spec_after_last_comma(s: Seq<u8>) -> Seq<u8>
    decreases s.len(),
{
    if s.len() == 0 {
        s
    } else if s[s.len() - 1] == COMMA {
        Seq::<u8>::empty()
    } else {
        spec_after_last_comma(s.take(s.len() - 1)).push(s[s.len() - 1])
    }
}

/// The raw key identifier a textual identifier denotes: the base64 decoding
/// of its final comma-delimited component.
pub open spec fn spec_identifier_key_id(s: Seq<u8>) -> Option<Seq<u8>> {
    b64_decoded(spec_after_last_comma(s))
}

/// When `i` is the last comma of `s`, the suffix after it is the last component.
proof fn lemma_after_last_comma_at(s: Seq<u8>, i: int)
    requires
        0 <= i < s.len(),
        s[i] == COMMA,
        forall|j: int| i < j < s.len() ==> s[j] != COMMA,
    ensures
        spec_after_last_comma(s) == s.subrange(i + 1, s.len() as int),
    decreases s.len(),
{
    if i == s.len() - 1 {
        assert(spec_after_last_comma(s) =~= s.subrange(i + 1, s.len() as int));
    } else {
        lemma_after_last_comma_at(s.take(s.len() - 1), i);
        assert(s.take(s.len() - 1).subrange(i + 1, s.len() - 1) =~= s.subrange(i + 1, s.len() - 1));
        assert(spec_after_last_comma(s) =~= s.subrange(i + 1, s.len() as int));
    }
}

/// A string without a comma is its own last component.
proof fn lemma_after_last_comma_none(s: Seq<u8>)
    requires
        forall|j: int| 0 <= j < s.len() ==> s[j] != COMMA,
    ensures
        spec_after_last_comma(s) == s,
    decreases s.len(),
{
    if s.len() > 0 {
        lemma_after_last_comma_none(s.take(s.len() - 1));
        assert(spec_after_last_comma(s) =~= s);
    } else {
        assert(spec_after_last_comma(s) =~= s);
    }
}

/// Varint encoder.
fn encode_varint(n: usize) -> (r: Vec<u8>)
    ensures
        r@ == spec_varint(n as nat),
{
    let mut r: Vec<u8> = Vec::new();
    let mut m: usize = n;
    while m >= 128
        invariant
            spec_varint(n as nat) == r@ + spec_varint(m as nat),
        decreases m,
    {
        r.push((m % 128 + 128) as u8);
        proof {
            assert(spec_varint(m as nat) =~= seq![(m % 128 + 128) as u8] + spec_varint(
                (m / 128) as nat,
            ));
            assert(r@.push((m % 128 + 128) as u8) + spec_varint((m / 128) as nat) =~= r@ + (seq![
                (m % 128 + 128) as u8,
            ] + spec_varint((m / 128) as nat)));
        }
        m = m / 128;
    }
    r.push(m as u8);
    proof {
        assert(r@ =~= spec_varint(n as nat));
    }
    r
}

/// Big-endian 32-bit appender.
fn push_u32_be(dst: &mut Vec<u8>, n: u32)
    ensures
        final(dst)@ == old(dst)@ + spec_u32_be(n),
{
    dst.push((n / 0x1000000) as u8);
    dst.push(((n / 0x10000) % 0x100) as u8);
    dst.push(((n / 0x100) % 0x100) as u8);
    dst.push((n % 0x100) as u8);
    proof {
        assert(dst@ =~= old(dst)@ + spec_u32_be(n));
    }
}

/// The box magic as bytes.
fn box_magic() -> (r: Vec<u8>)
    ensures
        r@ == spec_box_magic(),
{
    let mut r: Vec<u8> = Vec::new();
    r.push(112);
    r.push(115);
    r.push(115);
    r.push(104);
    proof {
        assert(r@ =~= spec_box_magic());
    }
    r
}

/// The system identifier as bytes.
fn system_id() -> (r: Vec<u8>)
    ensures
        r@ == spec_system_id(),
{
    let mut r: Vec<u8> = Vec::new();
    r.push(0xed);
    r.push(0xef);
    r.push(0x8b);
    r.push(0xa9);
    r.push(0x79);
    r.push(0xd6);
    r.push(0x4a);
    r.push(0xce);
    r.push(0xa3);
    r.push(0xc8);
    r.push(0x27);
    r.push(0xdc);
    r.push(0xd5);
    r.push(0x1d);
    r.push(0x21);
    r.push(0xed);
    proof {
        assert(r@ =~= spec_system_id());
    }
    r
}

/// Powers of 128, the radix of the varint encoding.
spec fn pow128(k: nat) -> nat
    decreases k,
{
    if k == 0 {
        1
    } else {
        128 * pow128((k - 1) as nat)
    }
}

/// A value below the k-th power of the radix takes at most k digit bytes.
proof fn lemma_varint_len_le(n: nat, k: nat)
    requires
        k >= 1,
        n < pow128(k),
    ensures
        1 <= spec_varint(n).len() <= k,
    decreases k,
{
    if n >= 128 {
        assert(pow128(1) == 128 * pow128(0));
        assert(pow128(k) == 128 * pow128((k - 1) as nat));
        assert(n / 128 < pow128((k - 1) as nat)) by (nonlinear_arith)
            requires
                n < pow128(k),
                pow128(k) == 128 * pow128((k - 1) as nat),
        {
        }
        lemma_varint_len_le(n / 128, (k - 1) as nat);
    }
}

/// The varint of a bounded length is at most five bytes.
proof fn lemma_varint_len(n: nat)
    requires
        n < 0x100000000,
    ensures
        1 <= spec_varint(n).len() <= 5,
{
    assert(pow128(0) == 1);
    assert(pow128(1) == 128);
    assert(pow128(2) == 0x4000);
    assert(pow128(3) == 0x200000);
    assert(pow128(4) == 0x10000000);
    assert(pow128(5) == 0x800000000);
    lemma_varint_len_le(n, 5);
}

/// Serialize the protection header around a raw key identifier.
pub fn protection_header(kid: &Vec<u8>) -> (r: Vec<u8>)
    requires
        kid@.len() < 0x10000000,
    ensures
        r@ == spec_protection_header(kid@),
{
    let mut data: Vec<u8> = Vec::new();
    data.push(8);
    data.push(1);
    data.push(0x12);
    let len_bytes = encode_varint(kid.len());
    append_bytes(&mut data, len_bytes.as_slice());
    append_bytes(&mut data, kid.as_slice());
    proof {
        lemma_varint_len(kid@.len());
        assert(data@ =~= spec_pssh_data(kid@));
    }
    let mut r: Vec<u8> = Vec::new();
    push_u32_be(&mut r, (32 + data.len()) as u32);
    let magic = box_magic();
    append_bytes(&mut r, magic.as_slice());
    r.push(0);
    r.push(0);
    r.push(0);
    r.push(0);
    let sys = system_id();
    append_bytes(&mut r, sys.as_slice());
    push_u32_be(&mut r, data.len() as u32);
    append_bytes(&mut r, data.as_slice());
    proof {
        assert(r@ =~= spec_protection_header(kid@));
    }
    r
}

/// What the header parser recovers: the single raw key identifier, when the
/// bytes are a well-formed version-0 box around the scheme's protection data.
pub open spec fn spec_parse_header(s: Seq<u8>) -> Option<Seq<u8>> {
    if s.len() < 32 {
        None
    } else if spec_be32(s.subrange(0, 4)) == s.len() && s.subrange(4, 8) == spec_box_magic()
        && s.subrange(8, 12) == seq![0u8, 0u8, 0u8, 0u8] && s.subrange(12, 28) == spec_system_id()
        && spec_be32(s.subrange(28, 32)) == s.len() - 32 {
        let d = s.subrange(32, s.len() as int);
        if d.len() >= 3 && d[0] == 8 && d[1] == 1 && d[2] == 0x12 {
            match spec_parse_varint(d, 3) {
                Some((n, j)) => if j + n == d.len() {
                    Some(d.subrange(j, d.len() as int))
                } else {
                    None
                },
                None => None,
            }
        } else {
            None
        }
    } else {
        None
    }
}

/// Reading four big-endian bytes recovers the serialized 32-bit value.
proof fn lemma_be32_round_trip(n: u32)
    ensures
        spec_be32(spec_u32_be(n)) == n,
{
    assert(((n / 0x1000000) as u8) as u32 == n / 0x1000000) by (bit_vector);
    assert((((n / 0x10000) % 0x100) as u8) as u32 == (n / 0x10000) % 0x100) by (bit_vector);
    assert((((n / 0x100) % 0x100) as u8) as u32 == (n / 0x100) % 0x100) by (bit_vector);
    assert(((n % 0x100) as u8) as u32 == n % 0x100) by (bit_vector);
    assert((n / 0x1000000) * 0x1000000 + ((n / 0x10000) % 0x100) * 0x10000 + ((n / 0x100) % 0x100)
        * 0x100 + (n % 0x100) == n) by (bit_vector);
}

/// Parsing a varint out of the bytes it was encoded to recovers the value.
proof fn lemma_varint_round_trip(s: Seq<u8>, i: int, n: nat)
    requires
        0 <= i,
        i + spec_varint(n).len() <= s.len(),
        s.subrange(i, i + spec_varint(n).len()) == spec_varint(n),
    ensures
        spec_parse_varint(s, i) == Some((n, i + spec_varint(n).len())),
    decreases n,
{
    if n < 128 {
        assert(s[i] == spec_varint(n)[0]);
        assert(s[i] == n as u8);
    } else {
        let rest = spec_varint(n / 128);
        assert(s[i] == spec_varint(n)[0]);
        assert(s[i] == (n % 128 + 128) as u8);
        assert(s.subrange(i + 1, i + 1 + rest.len()) =~= spec_varint(n).subrange(
            1,
            spec_varint(n).len() as int,
        ));
        assert(spec_varint(n).subrange(1, spec_varint(n).len() as int) =~= rest);
        lemma_varint_round_trip(s, i + 1, n / 128);
        assert((s[i] - 128) as nat == n % 128);
        assert(n % 128 + 128 * (n / 128) == n) by (nonlinear_arith);
    }
}

/// The round trip of the protection header: parsing what `build` serialized
/// for a raw key identifier recovers exactly that identifier. The length
/// bound is the machine limit of the 32-bit box size fields; `build`'s
/// contract exports it for every identifier it accepts.
pub proof fn lemma_header_round_trip(kid: Seq<u8>)
    requires
        kid.len() < 0x10000000,
    ensures
        spec_parse_header(spec_protection_header(kid)) == Some(kid),
{
    lemma_varint_len(kid.len());
    let vlen = spec_varint(kid.len()).len() as int;
    let data = spec_pssh_data(kid);
    let s = spec_protection_header(kid);
    assert(data.len() == 3 + vlen + kid.len());
    assert(s.len() == 32 + data.len());
    assert(s.subrange(0, 4) =~= spec_u32_be((32 + data.len()) as u32));
    assert(s.subrange(4, 8) =~= spec_box_magic());
    assert(s.subrange(8, 12) =~= seq![0u8, 0u8, 0u8, 0u8]);
    assert(s.subrange(12, 28) =~= spec_system_id());
    assert(s.subrange(28, 32) =~= spec_u32_be(data.len() as u32));
    lemma_be32_round_trip((32 + data.len()) as u32);
    lemma_be32_round_trip(data.len() as u32);
    let d = s.subrange(32, s.len() as int);
    assert(d =~= data);
    assert(d[0] == 8 && d[1] == 1 && d[2] == 0x12);
    assert(d.subrange(3, 3 + vlen) =~= spec_varint(kid.len()));
    lemma_varint_round_trip(d, 3, kid.len());
    assert(d.subrange(3 + vlen, d.len() as int) =~= kid);
}

/// Build the protection header for a textual identifier whose final
/// comma-delimited component is the base64-encoded raw key identifier.
/// Malformed base64 is the one failure, reported as an encoding error.
pub fn build(identifier: &str) -> (r: Result<Vec<u8>, Error>)
    requires
        identifier.spec_bytes().len() < 0x10000000,
    ensures
        match r {
            Ok(h) => spec_identifier_key_id(identifier.spec_bytes()) matches Some(kid) && h@
                == spec_protection_header(kid) && kid.len() < 0x10000000,
            Err(e) => e is Encoding && spec_identifier_key_id(identifier.spec_bytes()) is None,
        },
{
    let bytes = identifier.as_bytes();
    let last = match rfind_byte(bytes, COMMA) {
        Some(i) => {
            let r = subvec(bytes, i + 1, bytes.len());
            proof {
                lemma_after_last_comma_at(bytes@, i as int);
            }
            r
        },
        None => {
            let r = subvec(bytes, 0, bytes.len());
            proof {
                lemma_after_last_comma_none(bytes@);
                assert(bytes@.subrange(0, bytes@.len() as int) =~= bytes@);
            }
            r
        },
    };
    match base64_decode(last.as_slice()) {
        Some(kid) => Ok(protection_header(&kid)),
        None => Err(Error::Encoding),
    }
}


/// Building is pure: the header is a mathematical function of the textual
/// identifier, so the same identifier always produces byte-identical
/// output.
pub proof fn lemma_build_deterministic(id1: Seq<u8>, id2: Seq<u8>)
    requires
        id1 == id2,
    ensures
        spec_identifier_key_id(id1) == spec_identifier_key_id(id2),
        (spec_identifier_key_id(id1) matches Some(kid) ==> spec_protection_header(kid)
            == spec_protection_header(spec_identifier_key_id(id2)->Some_0)),
{
}

} // verus!
