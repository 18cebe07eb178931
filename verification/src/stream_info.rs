//! The result aggregate: stream URL, codec and resolved key identifier,
//! assembled once per track-resolution attempt and immutable afterwards.
//!
//! Both resolution paths land here: the master-manifest path resolves the
//! identifier through the metadata blocks, the media-playlist path takes the
//! locator straight from the first segment's key tag. Downstream consumers
//! cannot tell the paths apart.

use crate::api::webplayback::WebPlayBack;
use crate::byteseq::append_bytes;
use crate::byteseq::bytes_eq;
use crate::byteseq::copy_bytes;
use crate::byteseq::rfind_byte;
use crate::byteseq::subvec;
use crate::error::Error;
use crate::error::ExtractionError;
use crate::extractor::asset_metadata_block_id;
use crate::extractor::get_assert_info;
use crate::extractor::get_drm_info;
use crate::extractor::resolve_identifier;
use crate::extractor::resolve_key_ids;
use crate::extractor::session_index_from_json;
use crate::extractor::descriptor_index_from_json;
use crate::extractor::session_key_block_id;
use crate::extractor::sp_descriptor_index;
use crate::extractor::sp_extract_block;
use crate::extractor::sp_resolve_identifier;
use crate::extractor::sp_resolve_key_ids;
use crate::extractor::sp_session_index;
use crate::manifest::parse_master;
use crate::manifest::parse_media;
use crate::manifest::sp_master;
use crate::manifest::sp_media;
use crate::text::bytes_to_string;
use vstd::prelude::*;
use vstd::string::StringSliceAdditionalSpecFns;
use vstd::utf8::encode_utf8;
use vstd::utf8::valid_utf8;

verus! {

/// Forward slash, the URI path separator.
pub const SLASH: u8 = 47;

/// The asset flavor the webplayback path streams.
pub open spec fn ctrp_flavor() -> Seq<u8> {
    "28:ctrp256".spec_bytes()
}

/// The stream information of one track.
#[derive(Debug, Clone)]
pub struct StreamInfo {
    pub stream_url: String,
    pub pssh: String,
    pub codec: String,
}

/// The prefix of `s` through its last slash.
pub open spec fn sp_trim_to_last_slash(s: Seq<u8>) -> Seq<u8>
    decreases s.len(),
{
    if s.len() == 0 {
        s
    } else if s[s.len() - 1] == SLASH {
        s
    } else {
        sp_trim_to_last_slash(s.take(s.len() - 1))
    }
}

/// The base a variant URI is resolved against: the prefix through the last
/// slash, or all of `s` when it has no slash.
pub open spec fn sp_base_prefix(s: Seq<u8>) -> Seq<u8> {
    if exists|i: int| 0 <= i < s.len() && s[i] == SLASH {
        sp_trim_to_last_slash(s)
    } else {
        s
    }
}

/// When `i` is the last slash, the trim keeps everything through it.
proof fn lemma_trim_at(s: Seq<u8>, i: int)
    requires
        0 <= i < s.len(),
        s[i] == SLASH,
        forall|j: int| i < j < s.len() ==> s[j] != SLASH,
    ensures
        sp_trim_to_last_slash(s) == s.take(i + 1),
    decreases s.len(),
{
    if i == s.len() - 1 {
        assert(sp_trim_to_last_slash(s) =~= s.take(i + 1));
    } else {
        lemma_trim_at(s.take(s.len() - 1), i);
        assert(s.take(s.len() - 1).take(i + 1) =~= s.take(i + 1));
    }
}

/// The base prefix of a URI.
fn base_prefix(s: &[u8]) -> (r: Vec<u8>)
    ensures
        r@ == sp_base_prefix(s@),
{
    let n = s.len();
    match rfind_byte(s, SLASH) {
        Some(i) => {
            proof {
                lemma_trim_at(s@, i as int);
                assert(s@.subrange(0, i + 1 as int) =~= s@.take(i + 1));
            }
            subvec(s, 0, i + 1)
        },
        None => {
            let r = subvec(s, 0, n);
            proof {
                assert(s@.subrange(0, s@.len() as int) =~= s@);
            }
            r
        },
    }
}

/// What the master-manifest path computes: the stream URL (base prefix
/// plus the first variant's URI), the resolved key identifier, and the
/// first variant's codec — or the error of the first stage that fails, in
/// the order the stages run. A manifest without a variant, or whose first
/// variant lacks codec or stable identifier, does not conform to the
/// expected grammar and is a parse failure.
pub open spec fn sp_stream_info(m3u8: Seq<u8>, base: Seq<u8>) -> Result<
    (Seq<u8>, Seq<u8>, Seq<u8>),
    Error,
> {
    match sp_master(m3u8) {
        None => Err(Error::Parse),
        Some(m) => if m.variants.len() == 0 {
            Err(Error::Parse)
        } else {
            let v = m.variants[0];
            if v.codec is None {
                Err(Error::Parse)
            } else if v.stable_id is None {
                Err(Error::Parse)
            } else {
                match sp_extract_block(m, asset_metadata_block_id()) {
                    Err(e) => Err(e),
                    Ok(aj) => match sp_session_index(aj) {
                        None => Err(Error::Parse),
                        Some(ix) => match sp_resolve_key_ids(ix, v.stable_id->Some_0) {
                            None => Err(Error::Extraction(ExtractionError::VariantUnknown)),
                            Some(ids) => match sp_extract_block(m, session_key_block_id()) {
                                Err(e) => Err(e),
                                Ok(dj) => match sp_descriptor_index(dj) {
                                    None => Err(Error::Parse),
                                    Some(dix) => match sp_resolve_identifier(dix, ids) {
                                        None => Err(
                                            Error::Extraction(ExtractionError::KeyNotFound),
                                        ),
                                        Some(loc) => Ok(
                                            (
                                                sp_base_prefix(base) + v.uri,
                                                loc,
                                                v.codec->Some_0,
                                            ),
                                        ),
                                    },
                                },
                            },
                        },
                    },
                }
            }
        },
    }
}

/// What the media-playlist path recovers: the key locator of the first
/// segment — or the error of the stage that fails. A malformed playlist is
/// a parse failure; a playlist without a segment, or whose first segment
/// carries no key tag, yields no key.
pub open spec fn sp_media_locator(m3u8: Seq<u8>) -> Result<Seq<u8>, Error> {
    match sp_media(m3u8) {
        None => Err(Error::Parse),
        Some(m) => if m.segments.len() == 0 {
            Err(Error::Extraction(ExtractionError::KeyNotFound))
        } else {
            match m.segments[0].key_uri {
                None => Err(Error::Extraction(ExtractionError::KeyNotFound)),
                Some(loc) => Ok(loc),
            }
        },
    }
}

impl StreamInfo {
    /// Resolve the master-manifest path: parse the manifest, decode the two
    /// metadata blocks, resolve the eligible key identifier for the first
    /// variant, and aggregate URL, identifier and codec. Succeeds exactly
    /// when every stage does and the three results are valid UTF-8; a
    /// failure carries exactly the failed stage's error, with a non-UTF-8
    /// result classified as a parse failure. The result, error included, is
    /// a function of the two arguments.
    pub fn new(m3u8: Vec<u8>, base_uri: &str) -> (r: Result<StreamInfo, Error>)
        ensures
            match r {
                Ok(si) => sp_stream_info(m3u8@, base_uri.spec_bytes()) matches Ok(t) && t == (
                    encode_utf8(si.stream_url@),
                    encode_utf8(si.pssh@),
                    encode_utf8(si.codec@),
                ),
                Err(e) => match sp_stream_info(m3u8@, base_uri.spec_bytes()) {
                    Ok(t) => e is Parse && !(valid_utf8(t.0) && valid_utf8(t.1) && valid_utf8(
                        t.2,
                    )),
                    Err(e2) => e == e2,
                },
            },
    {
        let manifest = match parse_master(m3u8.as_slice()) {
            Ok(m) => m,
            Err(_) => {
                return Err(Error::Parse);
            },
        };
        if manifest.variants.len() == 0 {
            return Err(Error::Parse);
        }
        proof {
            crate::manifest::lemma_variant_views_index(manifest.variants@, 0);
        }
        let codec = match &manifest.variants[0].codec {
            Some(c) => copy_bytes(c),
            None => {
                return Err(Error::Parse);
            },
        };
        let variant_id = match &manifest.variants[0].stable_id {
            Some(v) => copy_bytes(v),
            None => {
                return Err(Error::Parse);
            },
        };
        let assert_info = match get_assert_info(&manifest) {
            Ok(v) => v,
            Err(e) => {
                return Err(e);
            },
        };
        let session_index = match session_index_from_json(&assert_info) {
            Ok(ix) => ix,
            Err(_) => {
                return Err(Error::Parse);
            },
        };
        let key_ids = match resolve_key_ids(&session_index, variant_id.as_slice()) {
            Ok(ids) => ids,
            Err(_) => {
                return Err(Error::Extraction(ExtractionError::VariantUnknown));
            },
        };
        let drm_info = match get_drm_info(&manifest) {
            Ok(v) => v,
            Err(e) => {
                return Err(e);
            },
        };
        let descriptor_index = match descriptor_index_from_json(&drm_info) {
            Ok(ix) => ix,
            Err(_) => {
                return Err(Error::Parse);
            },
        };
        let locator = match resolve_identifier(&descriptor_index, &key_ids) {
            Ok(loc) => loc,
            Err(_) => {
                return Err(Error::Extraction(ExtractionError::KeyNotFound));
            },
        };
        let mut url_bytes = base_prefix(base_uri.as_bytes());
        append_bytes(&mut url_bytes, manifest.variants[0].uri.as_slice());
        let stream_url = match bytes_to_string(url_bytes) {
            Some(s) => s,
            None => {
                return Err(Error::Parse);
            },
        };
        let pssh = match bytes_to_string(locator) {
            Some(s) => s,
            None => {
                return Err(Error::Parse);
            },
        };
        let codec = match bytes_to_string(codec) {
            Some(s) => s,
            None => {
                return Err(Error::Parse);
            },
        };
        Ok(StreamInfo { stream_url, pssh, codec })
    }

    /// Resolve the media-playlist path: the first segment's key tag carries
    /// the locator directly; the codec is left empty on this path. A
    /// failure carries exactly the failed stage's error, with a non-UTF-8
    /// locator classified as a parse failure.
    pub fn new_with_media(m3u8: &[u8], stream_url: &str) -> (r: Result<StreamInfo, Error>)
        ensures
            match r {
                Ok(si) => ({
                    &&& sp_media_locator(m3u8@) matches Ok(loc)
                    &&& encode_utf8(si.pssh@) == loc
                    &&& si.stream_url@ == stream_url@
                    &&& si.codec@.len() == 0
                }),
                Err(e) => match sp_media_locator(m3u8@) {
                    Ok(loc) => e is Parse && !valid_utf8(loc),
                    Err(e2) => e == e2,
                },
            },
    {
        let media = match parse_media(m3u8) {
            Ok(m) => m,
            Err(_) => {
                return Err(Error::Parse);
            },
        };
        if media.segments.len() == 0 {
            return Err(Error::Extraction(ExtractionError::KeyNotFound));
        }
        proof {
            crate::manifest::lemma_segment_views_index(media.segments@, 0);
        }
        let locator = match &media.segments[0].key_uri {
            Some(k) => copy_bytes(k),
            None => {
                return Err(Error::Extraction(ExtractionError::KeyNotFound));
            },
        };
        let pssh = match bytes_to_string(locator) {
            Some(s) => s,
            None => {
                return Err(Error::Parse);
            },
        };
        let stream_url = stream_url.to_owned();
        let codec = String::new();
        Ok(StreamInfo { stream_url, pssh, codec })
    }
}

/// The index of the streamable asset of a webplayback answer: the first
/// asset of the first song whose flavor is the streamed one. `None` exactly
/// when there is no song or no such asset.
pub fn select_asset_index(webplayback: &WebPlayBack) -> (r: Option<usize>)
    ensures
        match r {
            Some(i) => webplayback.song_list@.len() > 0 && i
                < webplayback.song_list@[0].assets@.len() && encode_utf8(
                webplayback.song_list@[0].assets@[i as int].flavor@,
            ) == ctrp_flavor() && forall|j: int|
                0 <= j < i ==> encode_utf8(
                    #[trigger] webplayback.song_list@[0].assets@[j].flavor@,
                ) != ctrp_flavor(),
            None => webplayback.song_list@.len() == 0 || forall|j: int|
                0 <= j < webplayback.song_list@[0].assets@.len() ==> encode_utf8(
                    #[trigger] webplayback.song_list@[0].assets@[j].flavor@,
                ) != ctrp_flavor(),
        },
{
    if webplayback.song_list.len() == 0 {
        return None;
    }
    let assets = &webplayback.song_list[0].assets;
    let mut i: usize = 0;
    while i < assets.len()
        invariant
            i <= assets@.len(),
            webplayback.song_list@.len() > 0,
            assets@ == webplayback.song_list@[0].assets@,
            forall|j: int|
                0 <= j < i ==> encode_utf8(#[trigger] assets@[j].flavor@) != ctrp_flavor(),
        decreases assets@.len() - i,
    {
        if bytes_eq(assets[i].flavor.as_str().as_bytes(), "28:ctrp256".as_bytes()) {
            return Some(i);
        }
        i += 1;
    }
    None
}

} // verus!
