//! Resolving the encrypted stream location and content key for a protected
//! audio track: manifest parsing, DRM metadata extraction, protection-header
//! construction, and the challenge/response license exchange.

pub mod api;
pub mod apple_music;
pub mod b64;
pub mod byteseq;
pub mod error;
pub mod extractor;
pub mod header;
pub mod json;
pub mod license;
pub mod manifest;
pub mod stream_info;
pub mod text;

use vstd::prelude::*;

verus! {

/// <https://beta.music.apple.com>
pub const APPLE_MUSIC_HOMEPAGE_URL: &'static str = "https://beta.music.apple.com";

/// <https://amp-api.music.apple.com>
pub const AMP_API_URL: &'static str = "https://amp-api.music.apple.com";

/// <https://play.itunes.apple.com/WebObjects/MZPlay.woa/wa/webPlayback>
pub const WEBPLAYBACK_API_URL: &'static str =
    "https://play.itunes.apple.com/WebObjects/MZPlay.woa/wa/webPlayback";

/// <https://play.itunes.apple.com/WebObjects/MZPlay.woa/wa/acquireWebPlaybackLicense>
pub const LICENSE_API_URL: &'static str =
    "https://play.itunes.apple.com/WebObjects/MZPlay.woa/wa/acquireWebPlaybackLicense";

/// ASCII code of the lower-case hex digit for a value below 16.
pub open spec fn spec_hex_digit(v: u8) -> u8
    recommends
        v < 16,
{
    if v < 10 {
        (v + 48) as u8
    } else {
        (v + 87) as u8
    }
}

/// Lower-case hexadecimal expansion of a byte sequence, two digits per byte.
pub open spec fn spec_hex(bytes: Seq<u8>) -> Seq<u8>
    decreases bytes.len(),
{
    if bytes.len() == 0 {
        Seq::<u8>::empty()
    } else {
        seq![spec_hex_digit(bytes[0] / 16), spec_hex_digit(bytes[0] % 16)] + spec_hex(
            bytes.skip(1),
        )
    }
}

/// Adding a byte extends the expansion by its two digits.
proof fn lemma_spec_hex_push(s: Seq<u8>, x: u8)
    ensures
        spec_hex(s.push(x)) == spec_hex(s) + seq![spec_hex_digit(x / 16), spec_hex_digit(x % 16)],
    decreases s.len(),
{
    if s.len() == 0 {
        assert(s.push(x)[0] == x);
        assert(s.push(x).skip(1) =~= Seq::<u8>::empty());
        assert(spec_hex(Seq::<u8>::empty()) =~= Seq::<u8>::empty());
        assert(spec_hex(s.push(x)) =~= spec_hex(s) + seq![
            spec_hex_digit(x / 16),
            spec_hex_digit(x % 16),
        ]);
    } else {
        assert(s.push(x)[0] == s[0]);
        assert(s.push(x).skip(1) =~= s.skip(1).push(x));
        lemma_spec_hex_push(s.skip(1), x);
        assert(spec_hex(s.push(x)) =~= spec_hex(s) + seq![
            spec_hex_digit(x / 16),
            spec_hex_digit(x % 16),
        ]);
    }
}

/// The expansion has two digits per byte.
pub proof fn lemma_spec_hex_len(s: Seq<u8>)
    ensures
        spec_hex(s).len() == 2 * s.len(),
    decreases s.len(),
{
    if s.len() > 0 {
        lemma_spec_hex_len(s.skip(1));
    }
}

/// Every byte of the expansion is a lower-case hex digit.
pub proof fn lemma_spec_hex_digits(s: Seq<u8>)
    ensures
        forall|i: int|
            0 <= i < spec_hex(s).len() ==> (48 <= #[trigger] spec_hex(s)[i] <= 57 || 97 <= spec_hex(
                s,
            )[i] <= 102),
    decreases s.len(),
{
    if s.len() > 0 {
        lemma_spec_hex_digits(s.skip(1));
        lemma_spec_hex_len(s);
        lemma_spec_hex_len(s.skip(1));
        let head = seq![spec_hex_digit(s[0] / 16), spec_hex_digit(s[0] % 16)];
        assert(spec_hex(s) == head + spec_hex(s.skip(1)));
        assert forall|i: int| 0 <= i < spec_hex(s).len() implies (48 <= #[trigger] spec_hex(s)[i]
            <= 57 || 97 <= spec_hex(s)[i] <= 102) by {
            if i >= 2 {
                assert(spec_hex(s)[i] == spec_hex(s.skip(1))[i - 2]);
            } else {
                assert(spec_hex(s)[i] == head[i]);
            }
        }
    }
}

/// Lower-case hexadecimal expansion, as ASCII bytes.
pub fn hex_bytes(b: &[u8]) -> (r: Vec<u8>)
    ensures
        r@ == spec_hex(b@),
{
    let mut out: Vec<u8> = Vec::new();
    proof {
        assert(b@.take(0) =~= Seq::<u8>::empty());
        assert(spec_hex(Seq::<u8>::empty()) =~= Seq::<u8>::empty());
    }
    let mut i: usize = 0;
    while i < b.len()
        invariant
            i <= b@.len(),
            out@ == spec_hex(b@.take(i as int)),
        decreases b@.len() - i,
    {
        let x = b[i];
        let hi: u8 = x / 16;
        let lo: u8 = x % 16;
        let hic: u8 = if hi < 10 {
            hi + 48
        } else {
            hi + 87
        };
        let loc: u8 = if lo < 10 {
            lo + 48
        } else {
            lo + 87
        };
        out.push(hic);
        out.push(loc);
        proof {
            lemma_spec_hex_push(b@.take(i as int), x);
            assert(b@.take(i + 1 as int) =~= b@.take(i as int).push(b@[i as int]));
            assert(out@ =~= spec_hex(b@.take(i as int)) + seq![
                spec_hex_digit(x / 16),
                spec_hex_digit(x % 16),
            ]);
        }
        i += 1;
    }
    proof {
        assert(b@.take(b@.len() as int) =~= b@);
    }
    out
}

/// Lower-case hexadecimal expansion of a byte string, as a `String`: the
/// form the decryption key is handed out in.
pub fn hex_string(b: &[u8]) -> (r: String)
    ensures
        r@.len() == 2 * b@.len(),
        r@ == spec_hex(b@).map(|i: int, c: u8| c as char),
        forall|i: int|
            0 <= i < r@.len() ==> (48 <= #[trigger] r@[i] as u32 <= 57 || 97 <= r@[i] as u32
                <= 102),
{
    let h = hex_bytes(b);
    proof {
        lemma_spec_hex_len(b@);
        lemma_spec_hex_digits(b@);
        assert(forall|i: int| 0 <= i < h@.len() ==> #[trigger] h@[i] < 128);
    }
    let r = crate::text::ascii_to_string(h);
    proof {
        assert forall|i: int| 0 <= i < r@.len() implies (48 <= #[trigger] r@[i] as u32 <= 57 || 97
            <= r@[i] as u32 <= 102) by {
            assert(r@[i] == spec_hex(b@)[i] as char);
        }
    }
    r
}

} // verus!
