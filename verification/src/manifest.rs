//! The manifest parser: stream variants and named metadata blocks out of
//! adaptive-bitrate playlist text, plus the media-playlist form whose
//! segments carry the key locator directly.
//!
//! Like the JSON parser, the grammar is written twice: a specification over
//! byte sequences and executable code proved equal to it. Only the parts of
//! the playlist grammar this pipeline reads are interpreted; unknown tags are
//! carried past without effect.

use crate::byteseq::copy_bytes;
use crate::byteseq::is_prefix_of;
use crate::byteseq::starts_with;
use crate::byteseq::subvec;
use crate::error::Error;
use vstd::prelude::*;
use vstd::string::StringSliceAdditionalSpecFns;

verus! {

pub const LF: u8 = 10;
pub const CR: u8 = 13;
pub const HASH: u8 = 35;
pub const EQUALS: u8 = 61;
pub const QUOTE: u8 = 34;
pub const COMMA: u8 = 44;

/// The playlist header every manifest must open with.
pub open spec fn tag_header() -> Seq<u8> {
    "#EXTM3U".spec_bytes()
}

/// The tag announcing a stream variant; the next line carries its URI.
pub open spec fn tag_stream_inf() -> Seq<u8> {
    "#EXT-X-STREAM-INF:".spec_bytes()
}

/// The tag carrying a named metadata block.
pub open spec fn tag_session_data() -> Seq<u8> {
    "#EXT-X-SESSION-DATA:".spec_bytes()
}

/// The tag carrying the encryption key of the following segments.
pub open spec fn tag_key() -> Seq<u8> {
    "#EXT-X-KEY:".spec_bytes()
}

pub open spec fn attr_data_id() -> Seq<u8> {
    "DATA-ID".spec_bytes()
}

pub open spec fn attr_value() -> Seq<u8> {
    "VALUE".spec_bytes()
}

pub open spec fn attr_uri() -> Seq<u8> {
    "URI".spec_bytes()
}

pub open spec fn attr_codecs() -> Seq<u8> {
    "CODECS".spec_bytes()
}

pub open spec fn attr_stable_variant_id() -> Seq<u8> {
    "STABLE-VARIANT-ID".spec_bytes()
}

/// One stream variant of a master manifest.
pub struct ManifestVariant {
    /// The URI line that follows the variant tag.
    pub uri: Vec<u8>,
    /// The CODECS attribute, when present.
    pub codec: Option<Vec<u8>>,
    /// The STABLE-VARIANT-ID attribute, when present.
    pub stable_id: Option<Vec<u8>>,
    /// Every attribute of the variant tag, in order.
    pub attributes: Vec<(Vec<u8>, Vec<u8>)>,
}

/// What a metadata block carries: an inline value or only a reference URI.
pub enum BlockField {
    Inline(Vec<u8>),
    Reference(Vec<u8>),
}

/// A named metadata block of a master manifest.
pub struct MetadataBlock {
    pub data_id: Vec<u8>,
    pub field: BlockField,
}

/// A parsed master manifest.
pub struct MasterManifest {
    pub variants: Vec<ManifestVariant>,
    pub metadata_blocks: Vec<MetadataBlock>,
}

/// One segment of a media playlist.
pub struct MediaSegment {
    pub uri: Vec<u8>,
    /// The URI of the key tag in force for this segment, when there is one.
    pub key_uri: Option<Vec<u8>>,
}

/// A parsed media playlist.
pub struct MediaManifest {
    pub segments: Vec<MediaSegment>,
}

/// Mathematical shape of a variant.
pub struct SpecVariant {
    pub uri: Seq<u8>,
    pub codec: Option<Seq<u8>>,
    pub stable_id: Option<Seq<u8>>,
    pub attributes: Seq<(Seq<u8>, Seq<u8>)>,
}

pub enum SpecBlockField {
    Inline(Seq<u8>),
    Reference(Seq<u8>),
}

pub struct SpecBlock {
    pub data_id: Seq<u8>,
    pub field: SpecBlockField,
}

pub struct SpecMaster {
    pub variants: Seq<SpecVariant>,
    pub blocks: Seq<SpecBlock>,
}

pub struct SpecSegment {
    pub uri: Seq<u8>,
    pub key_uri: Option<Seq<u8>>,
}

pub struct SpecMedia {
    pub segments: Seq<SpecSegment>,
}

pub open spec fn opt_bytes_view(o: Option<Vec<u8>>) -> Option<Seq<u8>> {
    match o {
        Some(v) => Some(v@),
        None => None,
    }
}

/// Views of an attribute list, pointwise.
pub open spec fn pv_views(s: Seq<(Vec<u8>, Vec<u8>)>) -> Seq<(Seq<u8>, Seq<u8>)>
    decreases s,
{
    if s.len() == 0 {
        Seq::<(Seq<u8>, Seq<u8>)>::empty()
    } else {
        seq![(s[0].0@, s[0].1@)] + pv_views(s.skip(1))
    }
}

pub proof fn lemma_pv_views_len(s: Seq<(Vec<u8>, Vec<u8>)>)
    ensures
        pv_views(s).len() == s.len(),
    decreases s.len(),
{
    if s.len() > 0 {
        lemma_pv_views_len(s.skip(1));
    }
}

pub proof fn lemma_pv_views_index(s: Seq<(Vec<u8>, Vec<u8>)>, i: int)
    requires
        0 <= i < s.len(),
    ensures
        pv_views(s).len() == s.len(),
        pv_views(s)[i] == (s[i].0@, s[i].1@),
    decreases i,
{
    lemma_pv_views_len(s);
    if i > 0 {
        lemma_pv_views_index(s.skip(1), i - 1);
    }
}

impl View for ManifestVariant {
    type V = SpecVariant;

    open spec fn view(&self) -> SpecVariant {
        SpecVariant {
            uri: self.uri@,
            codec: opt_bytes_view(self.codec),
            stable_id: opt_bytes_view(self.stable_id),
            attributes: pv_views(self.attributes@),
        }
    }
}

impl View for BlockField {
    type V = SpecBlockField;

    open spec fn view(&self) -> SpecBlockField {
        match self {
            BlockField::Inline(v) => SpecBlockField::Inline(v@),
            BlockField::Reference(v) => SpecBlockField::Reference(v@),
        }
    }
}

impl View for MetadataBlock {
    type V = SpecBlock;

    open spec fn view(&self) -> SpecBlock {
        SpecBlock { data_id: self.data_id@, field: self.field@ }
    }
}

/// Views of a variant list, pointwise.
pub open spec fn variant_views(s: Seq<ManifestVariant>) -> Seq<SpecVariant>
    decreases s,
{
    if s.len() == 0 {
        Seq::<SpecVariant>::empty()
    } else {
        seq![s[0]@] + variant_views(s.skip(1))
    }
}

pub proof fn lemma_variant_views_len(s: Seq<ManifestVariant>)
    ensures
        variant_views(s).len() == s.len(),
    decreases s.len(),
{
    if s.len() > 0 {
        lemma_variant_views_len(s.skip(1));
    }
}

pub proof fn lemma_variant_views_index(s: Seq<ManifestVariant>, i: int)
    requires
        0 <= i < s.len(),
    ensures
        variant_views(s).len() == s.len(),
        variant_views(s)[i] == s[i]@,
    decreases i,
{
    lemma_variant_views_len(s);
    if i > 0 {
        lemma_variant_views_index(s.skip(1), i - 1);
    }
}

/// Views of a block list, pointwise.
pub open spec fn block_views(s: Seq<MetadataBlock>) -> Seq<SpecBlock>
    decreases s,
{
    if s.len() == 0 {
        Seq::<SpecBlock>::empty()
    } else {
        seq![s[0]@] + block_views(s.skip(1))
    }
}

pub proof fn lemma_block_views_len(s: Seq<MetadataBlock>)
    ensures
        block_views(s).len() == s.len(),
    decreases s.len(),
{
    if s.len() > 0 {
        lemma_block_views_len(s.skip(1));
    }
}

pub proof fn lemma_block_views_index(s: Seq<MetadataBlock>, i: int)
    requires
        0 <= i < s.len(),
    ensures
        block_views(s).len() == s.len(),
        block_views(s)[i] == s[i]@,
    decreases i,
{
    lemma_block_views_len(s);
    if i > 0 {
        lemma_block_views_index(s.skip(1), i - 1);
    }
}

/// Views of a segment list, pointwise.
pub open spec fn segment_views(s: Seq<MediaSegment>) -> Seq<SpecSegment>
    decreases s,
{
    if s.len() == 0 {
        Seq::<SpecSegment>::empty()
    } else {
        seq![SpecSegment { uri: s[0].uri@, key_uri: opt_bytes_view(s[0].key_uri) }]
            + segment_views(s.skip(1))
    }
}

pub proof fn lemma_segment_views_len(s: Seq<MediaSegment>)
    ensures
        segment_views(s).len() == s.len(),
    decreases s.len(),
{
    if s.len() > 0 {
        lemma_segment_views_len(s.skip(1));
    }
}

pub proof fn lemma_segment_views_index(s: Seq<MediaSegment>, i: int)
    requires
        0 <= i < s.len(),
    ensures
        segment_views(s).len() == s.len(),
        segment_views(s)[i] == (SpecSegment {
            uri: s[i].uri@,
            key_uri: opt_bytes_view(s[i].key_uri),
        }),
    decreases i,
{
    lemma_segment_views_len(s);
    if i > 0 {
        lemma_segment_views_index(s.skip(1), i - 1);
    }
}

impl View for MasterManifest {
    type V = SpecMaster;

    open spec fn view(&self) -> SpecMaster {
        SpecMaster { variants: variant_views(self.variants@), blocks: block_views(
            self.metadata_blocks@,
        ) }
    }
}

impl View for MediaManifest {
    type V = SpecMedia;

    open spec fn view(&self) -> SpecMedia {
        SpecMedia { segments: segment_views(self.segments@) }
    }
}

/// First position at or after `i` holding `b`, or the length of `s`.
pub open spec fn sp_scan(s: Seq<u8>, i: int, b: u8) -> int
    decreases s.len() - i,
{
    if 0 <= i < s.len() && s[i] != b {
        sp_scan(s, i + 1, b)
    } else {
        i
    }
}

/// End of the line that starts at `i`, with a trailing carriage return
/// stripped: the line is `s[i .. sp_line_end(s, i)]`.
pub open spec fn sp_line_end(s: Seq<u8>, i: int) -> int {
    let e = sp_scan(s, i, LF);
    if e > i && s[e - 1] == CR {
        e - 1
    } else {
        e
    }
}

/// Start of the next line after the one that starts at `i`.
pub open spec fn sp_next_line(s: Seq<u8>, i: int) -> int {
    let e = sp_scan(s, i, LF);
    if e + 1 > s.len() {
        s.len() as int
    } else {
        e + 1
    }
}

/// The line that starts at `i`.
pub open spec fn sp_line(s: Seq<u8>, i: int) -> Seq<u8> {
    s.subrange(i, sp_line_end(s, i))
}

/// The scan never moves backwards and never leaves the sequence.
pub proof fn lemma_sp_scan_bounds(s: Seq<u8>, i: int, b: u8)
    requires
        0 <= i <= s.len(),
    ensures
        i <= sp_scan(s, i, b) <= s.len(),
    decreases s.len() - i,
{
    if i < s.len() && s[i] != b {
        lemma_sp_scan_bounds(s, i + 1, b);
    }
}

/// One `KEY=VALUE` attribute from position `i`: the pair and the position
/// after it (after the closing quote for a quoted value, at the comma or the
/// end for a bare one).
pub open spec fn sp_attr_pair(s: Seq<u8>, i: int) -> Option<((Seq<u8>, Seq<u8>), int)> {
    if i < 0 {
        None
    } else {
        let e = sp_scan(s, i, EQUALS);
        if e >= s.len() || e == i {
            None
        } else {
            let key = s.subrange(i, e);
            if e + 1 < s.len() && s[e + 1] == QUOTE {
                let q = sp_scan(s, e + 2, QUOTE);
                if q >= s.len() {
                    None
                } else {
                    Some(((key, s.subrange(e + 2, q)), q + 1))
                }
            } else {
                let c = sp_scan(s, e + 1, COMMA);
                Some(((key, s.subrange(e + 1, c)), c))
            }
        }
    }
}

/// A comma-separated attribute list from position `i` to the end of `s`.
pub open spec fn sp_attr_items(s: Seq<u8>, i: int) -> Option<Seq<(Seq<u8>, Seq<u8>)>>
    decreases s.len() - i,
{
    match sp_attr_pair(s, i) {
        Some((p, j)) => if j <= i {
            None
        } else if j >= s.len() {
            Some(seq![p])
        } else if s[j] == COMMA {
            match sp_attr_items(s, j + 1) {
                Some(rest) => Some(seq![p] + rest),
                None => None,
            }
        } else {
            None
        },
        None => None,
    }
}

/// The whole attribute list of a tag line after its colon.
pub open spec fn sp_attrs(s: Seq<u8>) -> Option<Seq<(Seq<u8>, Seq<u8>)>> {
    sp_attr_items(s, 0)
}

/// The value under the first occurrence of `key` in an attribute list.
pub open spec fn sp_attr_lookup(attrs: Seq<(Seq<u8>, Seq<u8>)>, key: Seq<u8>) -> Option<Seq<u8>>
    decreases attrs.len(),
{
    if attrs.len() == 0 {
        None
    } else if attrs[0].0 == key {
        Some(attrs[0].1)
    } else {
        sp_attr_lookup(attrs.skip(1), key)
    }
}

/// A metadata block from the attribute list of its tag: it needs a DATA-ID
/// and exactly one of VALUE (inline) or URI (reference).
pub open spec fn sp_block_of_attrs(attrs: Seq<(Seq<u8>, Seq<u8>)>) -> Option<SpecBlock> {
    match sp_attr_lookup(attrs, attr_data_id()) {
        Some(id) => {
            let value = sp_attr_lookup(attrs, attr_value());
            let uri = sp_attr_lookup(attrs, attr_uri());
            match (value, uri) {
                (Some(v), None) => Some(SpecBlock { data_id: id, field: SpecBlockField::Inline(v) }),
                (None, Some(u)) => Some(
                    SpecBlock { data_id: id, field: SpecBlockField::Reference(u) },
                ),
                _ => None,
            }
        },
        None => None,
    }
}

/// A variant from the attribute list of its tag and its URI line.
pub open spec fn sp_variant_of(attrs: Seq<(Seq<u8>, Seq<u8>)>, uri: Seq<u8>) -> SpecVariant {
    SpecVariant {
        uri: uri,
        codec: sp_attr_lookup(attrs, attr_codecs()),
        stable_id: sp_attr_lookup(attrs, attr_stable_variant_id()),
        attributes: attrs,
    }
}

/// Parser state between lines of a master manifest.
pub struct SpecMasterState {
    pub variants: Seq<SpecVariant>,
    pub blocks: Seq<SpecBlock>,
    /// The attributes of a variant tag whose URI line is still awaited.
    pub pending: Option<Seq<(Seq<u8>, Seq<u8>)>>,
}

/// The rest of a master-manifest parse from line start `i` in state `st`.
pub open spec fn sp_master_from(s: Seq<u8>, i: int, st: SpecMasterState) -> Option<SpecMaster>
    decreases s.len() - i,
{
    if i < 0 {
        None
    } else if i >= s.len() {
        match st.pending {
            Some(_) => None,
            None => Some(SpecMaster { variants: st.variants, blocks: st.blocks }),
        }
    } else {
        let l = sp_line(s, i);
        let ni = sp_next_line(s, i);
        if ni <= i {
            None
        } else {
            match st.pending {
                Some(attrs) => {
                    if l.len() == 0 {
                        sp_master_from(s, ni, st)
                    } else if l[0] == HASH {
                        None
                    } else {
                        sp_master_from(
                            s,
                            ni,
                            SpecMasterState {
                                variants: st.variants.push(sp_variant_of(attrs, l)),
                                blocks: st.blocks,
                                pending: None,
                            },
                        )
                    }
                },
                None => {
                    if is_prefix_of(tag_stream_inf(), l) {
                        match sp_attrs(l.skip(tag_stream_inf().len() as int)) {
                            Some(attrs) => sp_master_from(
                                s,
                                ni,
                                SpecMasterState {
                                    variants: st.variants,
                                    blocks: st.blocks,
                                    pending: Some(attrs),
                                },
                            ),
                            None => None,
                        }
                    } else if is_prefix_of(tag_session_data(), l) {
                        match sp_attrs(l.skip(tag_session_data().len() as int)) {
                            Some(attrs) => match sp_block_of_attrs(attrs) {
                                Some(b) => sp_master_from(
                                    s,
                                    ni,
                                    SpecMasterState {
                                        variants: st.variants,
                                        blocks: st.blocks.push(b),
                                        pending: None,
                                    },
                                ),
                                None => None,
                            },
                            None => None,
                        }
                    } else {
                        sp_master_from(s, ni, st)
                    }
                },
            }
        }
    }
}

/// A whole master manifest: the header line, then variants and blocks.
pub open spec fn sp_master(s: Seq<u8>) -> Option<SpecMaster> {
    if sp_line(s, 0) == tag_header() {
        sp_master_from(
            s,
            sp_next_line(s, 0),
            SpecMasterState {
                variants: Seq::<SpecVariant>::empty(),
                blocks: Seq::<SpecBlock>::empty(),
                pending: None,
            },
        )
    } else {
        None
    }
}

/// The rest of a media-playlist parse from line start `i`, with `key` the
/// key-tag URI currently in force.
pub open spec fn sp_media_from(s: Seq<u8>, i: int, segments: Seq<SpecSegment>, key: Option<
    Seq<u8>,
>) -> Option<SpecMedia>
    decreases s.len() - i,
{
    if i < 0 {
        None
    } else if i >= s.len() {
        Some(SpecMedia { segments })
    } else {
        let l = sp_line(s, i);
        let ni = sp_next_line(s, i);
        if ni <= i {
            None
        } else if is_prefix_of(tag_key(), l) {
            match sp_attrs(l.skip(tag_key().len() as int)) {
                Some(attrs) => sp_media_from(s, ni, segments, sp_attr_lookup(attrs, attr_uri())),
                None => None,
            }
        } else if l.len() > 0 && l[0] != HASH {
            sp_media_from(s, ni, segments.push(SpecSegment { uri: l, key_uri: key }), key)
        } else {
            sp_media_from(s, ni, segments, key)
        }
    }
}

/// A whole media playlist: the header line, then segments under key tags.
pub open spec fn sp_media(s: Seq<u8>) -> Option<SpecMedia> {
    if sp_line(s, 0) == tag_header() {
        sp_media_from(s, sp_next_line(s, 0), Seq::<SpecSegment>::empty(), None)
    } else {
        None
    }
}


/// Appending keeps earlier views and adds the new one.
pub proof fn lemma_variant_views_push(s: Seq<ManifestVariant>, x: ManifestVariant)
    ensures
        variant_views(s.push(x)) == variant_views(s).push(x@),
    decreases s.len(),
{
    if s.len() == 0 {
        assert(s.push(x)[0] == x);
        assert(s.push(x).skip(1) =~= Seq::<ManifestVariant>::empty());
        assert(variant_views(Seq::<ManifestVariant>::empty()) =~= Seq::<SpecVariant>::empty());
        assert(variant_views(s.push(x)) =~= variant_views(s).push(x@));
    } else {
        assert(s.push(x)[0] == s[0]);
        assert(s.push(x).skip(1) =~= s.skip(1).push(x));
        lemma_variant_views_push(s.skip(1), x);
        assert(variant_views(s.push(x)) =~= variant_views(s).push(x@));
    }
}

/// Appending keeps earlier views and adds the new one.
pub proof fn lemma_block_views_push(s: Seq<MetadataBlock>, x: MetadataBlock)
    ensures
        block_views(s.push(x)) == block_views(s).push(x@),
    decreases s.len(),
{
    if s.len() == 0 {
        assert(s.push(x)[0] == x);
        assert(s.push(x).skip(1) =~= Seq::<MetadataBlock>::empty());
        assert(block_views(Seq::<MetadataBlock>::empty()) =~= Seq::<SpecBlock>::empty());
        assert(block_views(s.push(x)) =~= block_views(s).push(x@));
    } else {
        assert(s.push(x)[0] == s[0]);
        assert(s.push(x).skip(1) =~= s.skip(1).push(x));
        lemma_block_views_push(s.skip(1), x);
        assert(block_views(s.push(x)) =~= block_views(s).push(x@));
    }
}

/// Appending keeps earlier views and adds the new one.
pub proof fn lemma_segment_views_push(s: Seq<MediaSegment>, x: MediaSegment)
    ensures
        segment_views(s.push(x)) == segment_views(s).push(
            SpecSegment { uri: x.uri@, key_uri: opt_bytes_view(x.key_uri) },
        ),
    decreases s.len(),
{
    if s.len() == 0 {
        assert(s.push(x)[0] == x);
        assert(s.push(x).skip(1) =~= Seq::<MediaSegment>::empty());
        assert(segment_views(Seq::<MediaSegment>::empty()) =~= Seq::<SpecSegment>::empty());
        assert(segment_views(s.push(x)) =~= segment_views(s).push(
            SpecSegment { uri: x.uri@, key_uri: opt_bytes_view(x.key_uri) },
        ));
    } else {
        assert(s.push(x)[0] == s[0]);
        assert(s.push(x).skip(1) =~= s.skip(1).push(x));
        lemma_segment_views_push(s.skip(1), x);
        assert(segment_views(s.push(x)) =~= segment_views(s).push(
            SpecSegment { uri: x.uri@, key_uri: opt_bytes_view(x.key_uri) },
        ));
    }
}

/// Byte scanner.
fn scan(s: &[u8], i: usize, b: u8) -> (r: usize)
    requires
        i <= s@.len(),
    ensures
        r == sp_scan(s@, i as int, b),
        i <= r <= s@.len(),
{
    let mut k: usize = i;
    while k < s.len() && s[k] != b
        invariant
            i <= k <= s@.len(),
            sp_scan(s@, i as int, b) == sp_scan(s@, k as int, b),
        decreases s@.len() - k,
    {
        k += 1;
    }
    k
}

/// The line that starts at `i` and the start of the next one.
fn read_line(s: &[u8], i: usize) -> (r: (Vec<u8>, usize))
    requires
        i <= s@.len(),
    ensures
        r.0@ == sp_line(s@, i as int),
        r.1 == sp_next_line(s@, i as int),
        i <= r.1 <= s@.len(),
        i < s@.len() ==> i < r.1,
{
    let e = scan(s, i, LF);
    let e2: usize = if e > i && s[e - 1] == CR {
        e - 1
    } else {
        e
    };
    let line = subvec(s, i, e2);
    let next: usize = if e == s.len() {
        e
    } else {
        e + 1
    };
    (line, next)
}

/// One attribute parser, equal to its specification.
fn attr_pair(s: &[u8], i: usize) -> (r: Option<((Vec<u8>, Vec<u8>), usize)>)
    requires
        i <= s@.len(),
    ensures
        match r {
            Some(p) => sp_attr_pair(s@, i as int) == Some((((p.0).0@, (p.0).1@), p.1 as int)) && i
                < p.1 <= s@.len(),
            None => sp_attr_pair(s@, i as int) is None,
        },
{
    let e = scan(s, i, EQUALS);
    if e >= s.len() || e == i {
        return None;
    }
    let key = subvec(s, i, e);
    if e + 1 < s.len() && s[e + 1] == QUOTE {
        let q = scan(s, e + 2, QUOTE);
        if q >= s.len() {
            return None;
        }
        let val = subvec(s, e + 2, q);
        Some(((key, val), q + 1))
    } else {
        let c = scan(s, e + 1, COMMA);
        let val = subvec(s, e + 1, c);
        Some(((key, val), c))
    }
}

/// Attribute list parser, equal to its specification.
fn attr_items(s: &[u8], i: usize) -> (r: Option<Vec<(Vec<u8>, Vec<u8>)>>)
    requires
        i <= s@.len(),
    ensures
        match r {
            Some(attrs) => sp_attr_items(s@, i as int) == Some(pv_views(attrs@)),
            None => sp_attr_items(s@, i as int) is None,
        },
    decreases s@.len() - i,
{
    match attr_pair(s, i) {
        None => None,
        Some((p, j)) => {
            if j >= s.len() {
                let mut attrs: Vec<(Vec<u8>, Vec<u8>)> = Vec::new();
                attrs.push(p);
                proof {
                    assert(attrs@.skip(1) =~= Seq::<(Vec<u8>, Vec<u8>)>::empty());
                    assert(pv_views(attrs@.skip(1)) =~= Seq::<(Seq<u8>, Seq<u8>)>::empty());
                    assert(pv_views(attrs@) =~= seq![(attrs@[0].0@, attrs@[0].1@)]);
                }
                Some(attrs)
            } else if s[j] == COMMA {
                match attr_items(s, j + 1) {
                    Some(rest) => {
                        let ghost rest0 = rest@;
                        let mut out = rest;
                        out.insert(0, p);
                        proof {
                            assert(out@.skip(1) =~= rest0);
                            assert(pv_views(out@) =~= seq![(out@[0].0@, out@[0].1@)] + pv_views(
                                rest0,
                            ));
                        }
                        Some(out)
                    },
                    None => None,
                }
            } else {
                None
            }
        },
    }
}

/// Lookup of `key` in an attribute list, first occurrence.
pub fn attr_lookup<'a>(attrs: &'a Vec<(Vec<u8>, Vec<u8>)>, key: &[u8]) -> (r: Option<&'a Vec<u8>>)
    ensures
        match r {
            Some(v) => sp_attr_lookup(pv_views(attrs@), key@) == Some(v@),
            None => sp_attr_lookup(pv_views(attrs@), key@) is None,
        },
{
    let mut i: usize = 0;
    while i < attrs.len()
        invariant
            i <= attrs@.len(),
            forall|j: int| 0 <= j < i ==> #[trigger] attrs@[j].0@ != key@,
        decreases attrs@.len() - i,
    {
        if crate::byteseq::bytes_eq(attrs[i].0.as_slice(), key) {
            proof {
                lemma_sp_attr_lookup_at(pv_views(attrs@), key@, i as int, attrs@);
            }
            return Some(&attrs[i].1);
        }
        i += 1;
    }
    proof {
        lemma_sp_attr_lookup_none(pv_views(attrs@), key@, attrs@);
    }
    None
}

/// The lookup finds the first matching attribute.
proof fn lemma_sp_attr_lookup_at(
    views: Seq<(Seq<u8>, Seq<u8>)>,
    key: Seq<u8>,
    i: int,
    attrs: Seq<(Vec<u8>, Vec<u8>)>,
)
    requires
        views == pv_views(attrs),
        0 <= i < attrs.len(),
        attrs[i].0@ == key,
        forall|j: int| 0 <= j < i ==> #[trigger] attrs[j].0@ != key,
    ensures
        sp_attr_lookup(views, key) == Some(attrs[i].1@),
    decreases i,
{
    lemma_pv_views_len(attrs);
    lemma_pv_views_index(attrs, i);
    if i == 0 {
    } else {
        lemma_pv_views_index(attrs, 0);
        assert(pv_views(attrs).skip(1) =~= pv_views(attrs.skip(1)));
        lemma_sp_attr_lookup_at(pv_views(attrs.skip(1)), key, i - 1, attrs.skip(1));
    }
}

/// The lookup misses exactly when no attribute key matches.
proof fn lemma_sp_attr_lookup_none(
    views: Seq<(Seq<u8>, Seq<u8>)>,
    key: Seq<u8>,
    attrs: Seq<(Vec<u8>, Vec<u8>)>,
)
    requires
        views == pv_views(attrs),
        forall|j: int| 0 <= j < attrs.len() ==> #[trigger] attrs[j].0@ != key,
    ensures
        sp_attr_lookup(views, key) is None,
    decreases attrs.len(),
{
    lemma_pv_views_len(attrs);
    if attrs.len() > 0 {
        lemma_pv_views_index(attrs, 0);
        assert(pv_views(attrs).skip(1) =~= pv_views(attrs.skip(1)));
        lemma_sp_attr_lookup_none(pv_views(attrs.skip(1)), key, attrs.skip(1));
    }
}

/// Owned copy of an attribute lookup result.
fn lookup_copy(attrs: &Vec<(Vec<u8>, Vec<u8>)>, key: &[u8]) -> (r: Option<Vec<u8>>)
    ensures
        opt_bytes_view(r) == sp_attr_lookup(pv_views(attrs@), key@),
{
    match attr_lookup(attrs, key) {
        Some(v) => Some(copy_bytes(v)),
        None => None,
    }
}

/// A metadata block out of the attribute list of its tag, equal to its
/// specification.
fn block_of_attrs(attrs: &Vec<(Vec<u8>, Vec<u8>)>) -> (r: Option<MetadataBlock>)
    ensures
        match r {
            Some(b) => sp_block_of_attrs(pv_views(attrs@)) == Some(b@),
            None => sp_block_of_attrs(pv_views(attrs@)) is None,
        },
{
    let id = match lookup_copy(attrs, "DATA-ID".as_bytes()) {
        Some(id) => id,
        None => {
            return None;
        },
    };
    let value = lookup_copy(attrs, "VALUE".as_bytes());
    let uri = lookup_copy(attrs, "URI".as_bytes());
    match (value, uri) {
        (Some(v), None) => Some(MetadataBlock { data_id: id, field: BlockField::Inline(v) }),
        (None, Some(u)) => Some(MetadataBlock { data_id: id, field: BlockField::Reference(u) }),
        _ => None,
    }
}

/// Parse a master manifest: the header line, then stream variants (each tag
/// followed by its URI line) and named metadata blocks. Equal to `sp_master`
/// on the input bytes, so parsing is deterministic; every malformed input is
/// a parse error.
pub fn parse_master(s: &[u8]) -> (r: Result<MasterManifest, Error>)
    ensures
        match r {
            Ok(m) => sp_master(s@) == Some(m@),
            Err(e) => e is Parse && sp_master(s@) is None,
        },
{
    let (first, start) = read_line(s, 0);
    if !crate::byteseq::bytes_eq(first.as_slice(), "#EXTM3U".as_bytes()) {
        return Err(Error::Parse);
    }
    let mut i: usize = start;
    let mut variants: Vec<ManifestVariant> = Vec::new();
    let mut blocks: Vec<MetadataBlock> = Vec::new();
    let mut pending: Option<Vec<(Vec<u8>, Vec<u8>)>> = None;
    proof {
        assert(variant_views(variants@) =~= Seq::<SpecVariant>::empty());
        assert(block_views(blocks@) =~= Seq::<SpecBlock>::empty());
    }
    while i < s.len()
        invariant
            i <= s@.len(),
            sp_master(s@) == sp_master_from(
                s@,
                i as int,
                SpecMasterState {
                    variants: variant_views(variants@),
                    blocks: block_views(blocks@),
                    pending: match pending {
                        Some(a) => Some(pv_views(a@)),
                        None => None,
                    },
                },
            ),
        decreases s@.len() - i,
    {
        let (line, ni) = read_line(s, i);
        let is_pending = pending.is_some();
        if is_pending {
            if line.len() == 0 {
                i = ni;
            } else if line[0] == HASH {
                return Err(Error::Parse);
            } else {
                let attrs = pending.take().unwrap();
                let codec = lookup_copy(&attrs, "CODECS".as_bytes());
                let stable_id = lookup_copy(&attrs, "STABLE-VARIANT-ID".as_bytes());
                let variant = ManifestVariant { uri: line, codec, stable_id, attributes: attrs };
                proof {
                    lemma_variant_views_push(variants@, variant);
                }
                variants.push(variant);
                i = ni;
            }
        } else {
            let tag_si = "#EXT-X-STREAM-INF:".as_bytes();
            let tag_sd = "#EXT-X-SESSION-DATA:".as_bytes();
            if starts_with(line.as_slice(), tag_si) {
                let rest = subvec(line.as_slice(), tag_si.len(), line.len());
                proof {
                    assert(rest@ =~= line@.skip(tag_stream_inf().len() as int));
                }
                match attr_items(rest.as_slice(), 0) {
                    Some(attrs) => {
                        pending = Some(attrs);
                        i = ni;
                    },
                    None => {
                        return Err(Error::Parse);
                    },
                }
            } else if starts_with(line.as_slice(), tag_sd) {
                let rest = subvec(line.as_slice(), tag_sd.len(), line.len());
                proof {
                    assert(rest@ =~= line@.skip(tag_session_data().len() as int));
                }
                match attr_items(rest.as_slice(), 0) {
                    Some(attrs) => match block_of_attrs(&attrs) {
                        Some(b) => {
                            proof {
                                lemma_block_views_push(blocks@, b);
                            }
                            blocks.push(b);
                            i = ni;
                        },
                        None => {
                            return Err(Error::Parse);
                        },
                    },
                    None => {
                        return Err(Error::Parse);
                    },
                }
            } else {
                i = ni;
            }
        }
    }
    if pending.is_some() {
        return Err(Error::Parse);
    }
    Ok(MasterManifest { variants, metadata_blocks: blocks })
}

/// Parse a media playlist: the header line, then segments, each holding the
/// URI of the key tag in force. Equal to `sp_media` on the input bytes.
pub fn parse_media(s: &[u8]) -> (r: Result<MediaManifest, Error>)
    ensures
        match r {
            Ok(m) => sp_media(s@) == Some(m@),
            Err(e) => e is Parse && sp_media(s@) is None,
        },
{
    let (first, start) = read_line(s, 0);
    if !crate::byteseq::bytes_eq(first.as_slice(), "#EXTM3U".as_bytes()) {
        return Err(Error::Parse);
    }
    let mut i: usize = start;
    let mut segments: Vec<MediaSegment> = Vec::new();
    let mut key: Option<Vec<u8>> = None;
    proof {
        assert(segment_views(segments@) =~= Seq::<SpecSegment>::empty());
    }
    while i < s.len()
        invariant
            i <= s@.len(),
            sp_media(s@) == sp_media_from(
                s@,
                i as int,
                segment_views(segments@),
                opt_bytes_view(key),
            ),
        decreases s@.len() - i,
    {
        let (line, ni) = read_line(s, i);
        let tag_k = "#EXT-X-KEY:".as_bytes();
        if starts_with(line.as_slice(), tag_k) {
            let rest = subvec(line.as_slice(), tag_k.len(), line.len());
            proof {
                assert(rest@ =~= line@.skip(tag_key().len() as int));
            }
            match attr_items(rest.as_slice(), 0) {
                Some(attrs) => {
                    key = lookup_copy(&attrs, "URI".as_bytes());
                    i = ni;
                },
                None => {
                    return Err(Error::Parse);
                },
            }
        } else if line.len() > 0 && line[0] != HASH {
            let seg = MediaSegment {
                uri: line,
                key_uri: match &key {
                    Some(k) => Some(copy_bytes(k)),
                    None => None,
                },
            };
            proof {
                lemma_segment_views_push(segments@, seg);
            }
            segments.push(seg);
            i = ni;
        } else {
            i = ni;
        }
    }
    Ok(MediaManifest { segments })
}


/// Parsing is deterministic. `parse_master` and `parse_media` return the
/// value of a mathematical function of the input bytes, so identical
/// manifest bytes always yield structurally identical parsed results.
pub proof fn lemma_parse_deterministic(b1: Seq<u8>, b2: Seq<u8>)
    requires
        b1 == b2,
    ensures
        sp_master(b1) == sp_master(b2),
        sp_media(b1) == sp_media(b2),
{
}

} // verus!
