//! The DRM metadata extractor: locating the two metadata blocks of a master
//! manifest, decoding them, and resolving the eligible key identifier for a
//! chosen variant.
//!
//! The manifest multiplexes several schemes' key-identifier spaces in
//! parallel blocks; lookups are scoped to the target scheme's sub-object, and
//! the literal identifier `"1"` is excluded by policy: it is a known
//! non-content sentinel, never an eligible choice, even when it is the only
//! identifier carrying a valid descriptor.

use crate::b64::b64_decoded;
use crate::b64::base64_decode;
use crate::byteseq::bytes_eq;
use crate::error::Error;
use crate::error::ExtractionError;
use crate::json::jm_views;
use crate::json::jv_views;
use crate::json::lemma_jm_views_index;
use crate::json::lemma_jm_views_len;
use crate::json::lemma_jv_views_index;
use crate::json::lemma_jv_views_len;
use crate::json::parse_json;
use crate::json::sp_json;
use crate::json::sp_obj_get;
use crate::json::JsonValue;
use crate::json::SpecJson;
use crate::manifest::block_views;
use crate::manifest::lemma_block_views_index;
use crate::manifest::lemma_block_views_len;
use crate::manifest::MasterManifest;
use crate::manifest::MetadataBlock;
use crate::manifest::SpecBlock;
use crate::manifest::SpecBlockField;
use crate::manifest::SpecMaster;
use vstd::prelude::*;
use vstd::string::StringSliceAdditionalSpecFns;

verus! {

/// The identifier of the metadata block holding the key descriptors.
pub open spec fn session_key_block_id() -> Seq<u8> {
    "com.apple.hls.AudioSessionKeyInfo".spec_bytes()
}

/// The identifier of the metadata block mapping variants to key-id lists.
pub open spec fn asset_metadata_block_id() -> Seq<u8> {
    "com.apple.hls.audioAssetMetadata".spec_bytes()
}

/// The attribute of a variant's asset metadata that lists its key ids.
pub open spec fn audio_session_key_ids() -> Seq<u8> {
    "AUDIO-SESSION-KEY-IDS".spec_bytes()
}

/// The fixed identifier of the target DRM scheme.
pub open spec fn scheme_id() -> Seq<u8> {
    "urn:uuid:edef8ba9-79d6-4ace-a3c8-27dcd51d21ed".spec_bytes()
}

/// The excluded sentinel key identifier.
pub open spec fn sentinel_key_id() -> Seq<u8> {
    "1".spec_bytes()
}

/// The key of a descriptor's locator field.
pub open spec fn uri_field() -> Seq<u8> {
    "URI".spec_bytes()
}

/// Views of a list of byte strings, pointwise.
pub open spec fn bl_views(s: Seq<Vec<u8>>) -> Seq<Seq<u8>>
    decreases s,
{
    if s.len() == 0 {
        Seq::<Seq<u8>>::empty()
    } else {
        seq![s[0]@] + bl_views(s.skip(1))
    }
}

pub proof fn lemma_bl_views_len(s: Seq<Vec<u8>>)
    ensures
        bl_views(s).len() == s.len(),
    decreases s.len(),
{
    if s.len() > 0 {
        lemma_bl_views_len(s.skip(1));
    }
}

pub proof fn lemma_bl_views_index(s: Seq<Vec<u8>>, i: int)
    requires
        0 <= i < s.len(),
    ensures
        bl_views(s).len() == s.len(),
        bl_views(s)[i] == s[i]@,
    decreases i,
{
    lemma_bl_views_len(s);
    if i > 0 {
        lemma_bl_views_index(s.skip(1), i - 1);
    }
}

/// Views of session-index entries, pointwise.
pub open spec fn se_views(s: Seq<(Vec<u8>, Vec<Vec<u8>>)>) -> Seq<(Seq<u8>, Seq<Seq<u8>>)>
    decreases s,
{
    if s.len() == 0 {
        Seq::<(Seq<u8>, Seq<Seq<u8>>)>::empty()
    } else {
        seq![(s[0].0@, bl_views(s[0].1@))] + se_views(s.skip(1))
    }
}

pub proof fn lemma_se_views_len(s: Seq<(Vec<u8>, Vec<Vec<u8>>)>)
    ensures
        se_views(s).len() == s.len(),
    decreases s.len(),
{
    if s.len() > 0 {
        lemma_se_views_len(s.skip(1));
    }
}

pub proof fn lemma_se_views_index(s: Seq<(Vec<u8>, Vec<Vec<u8>>)>, i: int)
    requires
        0 <= i < s.len(),
    ensures
        se_views(s).len() == s.len(),
        se_views(s)[i] == (s[i].0@, bl_views(s[i].1@)),
    decreases i,
{
    lemma_se_views_len(s);
    if i > 0 {
        lemma_se_views_index(s.skip(1), i - 1);
    }
}

/// Views of a scheme-descriptor list, pointwise.
pub open spec fn sd_views(s: Seq<(Vec<u8>, Vec<u8>)>) -> Seq<(Seq<u8>, Seq<u8>)>
    decreases s,
{
    if s.len() == 0 {
        Seq::<(Seq<u8>, Seq<u8>)>::empty()
    } else {
        seq![(s[0].0@, s[0].1@)] + sd_views(s.skip(1))
    }
}

pub proof fn lemma_sd_views_len(s: Seq<(Vec<u8>, Vec<u8>)>)
    ensures
        sd_views(s).len() == s.len(),
    decreases s.len(),
{
    if s.len() > 0 {
        lemma_sd_views_len(s.skip(1));
    }
}

pub proof fn lemma_sd_views_index(s: Seq<(Vec<u8>, Vec<u8>)>, i: int)
    requires
        0 <= i < s.len(),
    ensures
        sd_views(s).len() == s.len(),
        sd_views(s)[i] == (s[i].0@, s[i].1@),
    decreases i,
{
    lemma_sd_views_len(s);
    if i > 0 {
        lemma_sd_views_index(s.skip(1), i - 1);
    }
}

/// Views of descriptor-index entries, pointwise.
pub open spec fn de_views(s: Seq<(Vec<u8>, Vec<(Vec<u8>, Vec<u8>)>)>) -> Seq<
    (Seq<u8>, Seq<(Seq<u8>, Seq<u8>)>),
>
    decreases s,
{
    if s.len() == 0 {
        Seq::<(Seq<u8>, Seq<(Seq<u8>, Seq<u8>)>)>::empty()
    } else {
        seq![(s[0].0@, sd_views(s[0].1@))] + de_views(s.skip(1))
    }
}

pub proof fn lemma_de_views_len(s: Seq<(Vec<u8>, Vec<(Vec<u8>, Vec<u8>)>)>)
    ensures
        de_views(s).len() == s.len(),
    decreases s.len(),
{
    if s.len() > 0 {
        lemma_de_views_len(s.skip(1));
    }
}

pub proof fn lemma_de_views_index(s: Seq<(Vec<u8>, Vec<(Vec<u8>, Vec<u8>)>)>, i: int)
    requires
        0 <= i < s.len(),
    ensures
        de_views(s).len() == s.len(),
        de_views(s)[i] == (s[i].0@, sd_views(s[i].1@)),
    decreases i,
{
    lemma_de_views_len(s);
    if i > 0 {
        lemma_de_views_index(s.skip(1), i - 1);
    }
}

/// Mapping from variant identifier to its ordered list of key identifiers,
/// decoded from the session-key metadata block.
pub struct SessionKeyIndex {
    pub entries: Vec<(Vec<u8>, Vec<Vec<u8>>)>,
}

impl View for SessionKeyIndex {
    type V = Seq<(Seq<u8>, Seq<Seq<u8>>)>;

    open spec fn view(&self) -> Seq<(Seq<u8>, Seq<Seq<u8>>)> {
        se_views(self.entries@)
    }
}

/// Mapping from key identifier to the per-scheme descriptor locators,
/// decoded from the key-descriptor metadata block.
pub struct KeyDescriptorIndex {
    pub entries: Vec<(Vec<u8>, Vec<(Vec<u8>, Vec<u8>)>)>,
}

impl View for KeyDescriptorIndex {
    type V = Seq<(Seq<u8>, Seq<(Seq<u8>, Seq<u8>)>)>;

    open spec fn view(&self) -> Seq<(Seq<u8>, Seq<(Seq<u8>, Seq<u8>)>)> {
        de_views(self.entries@)
    }
}

/// The first metadata block whose identifier is `id`.
pub open spec fn sp_find_block(blocks: Seq<SpecBlock>, id: Seq<u8>) -> Option<SpecBlock>
    decreases blocks.len(),
{
    if blocks.len() == 0 {
        None
    } else if blocks[0].data_id == id {
        Some(blocks[0])
    } else {
        sp_find_block(blocks.skip(1), id)
    }
}

/// What `extract_block` yields on a manifest: the first block under `id`,
/// required inline, base64-decoded and parsed as JSON.
pub open spec fn sp_extract_block(m: SpecMaster, id: Seq<u8>) -> Result<SpecJson, Error> {
    match sp_find_block(m.blocks, id) {
        None => Err(Error::Extraction(ExtractionError::BlockNotFound)),
        Some(b) => match b.field {
            SpecBlockField::Reference(_) => Err(Error::Extraction(ExtractionError::NotInline)),
            SpecBlockField::Inline(payload) => match b64_decoded(payload) {
                None => Err(Error::Encoding),
                Some(d) => match sp_json(d) {
                    None => Err(Error::Parse),
                    Some(v) => Ok(v),
                },
            },
        },
    }
}

proof fn lemma_find_block_at(blocks: Seq<MetadataBlock>, id: Seq<u8>, i: int)
    requires
        0 <= i < blocks.len(),
        blocks[i].data_id@ == id,
        forall|j: int| 0 <= j < i ==> #[trigger] blocks[j].data_id@ != id,
    ensures
        sp_find_block(block_views(blocks), id) == Some(blocks[i]@),
    decreases i,
{
    lemma_block_views_len(blocks);
    lemma_block_views_index(blocks, i);
    if i == 0 {
    } else {
        lemma_block_views_index(blocks, 0);
        assert(block_views(blocks).skip(1) =~= block_views(blocks.skip(1)));
        lemma_find_block_at(blocks.skip(1), id, i - 1);
    }
}

proof fn lemma_find_block_none(blocks: Seq<MetadataBlock>, id: Seq<u8>)
    requires
        forall|j: int| 0 <= j < blocks.len() ==> #[trigger] blocks[j].data_id@ != id,
    ensures
        sp_find_block(block_views(blocks), id) is None,
    decreases blocks.len(),
{
    lemma_block_views_len(blocks);
    if blocks.len() > 0 {
        lemma_block_views_index(blocks, 0);
        assert(block_views(blocks).skip(1) =~= block_views(blocks.skip(1)));
        lemma_find_block_none(blocks.skip(1), id);
    }
}

/// Locate the metadata block named `block_id`, require its inline form,
/// base64-decode it and parse the result as JSON.
pub fn extract_block(manifest: &MasterManifest, block_id: &[u8]) -> (r: Result<JsonValue, Error>)
    ensures
        match r {
            Ok(v) => sp_extract_block(manifest@, block_id@) == Ok::<SpecJson, Error>(v@),
            Err(e) => sp_extract_block(manifest@, block_id@) == Err::<SpecJson, Error>(e),
        },
{
    let mut i: usize = 0;
    while i < manifest.metadata_blocks.len()
        invariant
            i <= manifest.metadata_blocks@.len(),
            forall|j: int|
                0 <= j < i ==> #[trigger] manifest.metadata_blocks@[j].data_id@ != block_id@,
        decreases manifest.metadata_blocks@.len() - i,
    {
        if bytes_eq(manifest.metadata_blocks[i].data_id.as_slice(), block_id) {
            proof {
                lemma_find_block_at(manifest.metadata_blocks@, block_id@, i as int);
            }
            let payload = match &manifest.metadata_blocks[i].field {
                crate::manifest::BlockField::Reference(_) => {
                    return Err(Error::Extraction(ExtractionError::NotInline));
                },
                crate::manifest::BlockField::Inline(v) => v,
            };
            match base64_decode(payload.as_slice()) {
                None => {
                    return Err(Error::Encoding);
                },
                Some(decoded) => match parse_json(decoded.as_slice()) {
                    None => {
                        return Err(Error::Parse);
                    },
                    Some(v) => {
                        return Ok(v);
                    },
                },
            }
        }
        i += 1;
    }
    proof {
        lemma_find_block_none(manifest.metadata_blocks@, block_id@);
    }
    Err(Error::Extraction(ExtractionError::BlockNotFound))
}


/// Key-identifier strings out of a JSON array, from member `i` on: every
/// element must be a string.
pub open spec fn sp_str_items(items: Seq<SpecJson>, i: int) -> Option<Seq<Seq<u8>>>
    decreases items.len() - i,
{
    if i < 0 {
        None
    } else if i >= items.len() {
        Some(Seq::<Seq<u8>>::empty())
    } else {
        match items[i] {
            SpecJson::Str(v) => match sp_str_items(items, i + 1) {
                Some(r) => Some(seq![v] + r),
                None => None,
            },
            _ => None,
        }
    }
}

/// Session-index entries out of JSON object members, from member `i` on:
/// each member maps a variant identifier to an object whose key-id attribute
/// holds an array of strings.
pub open spec fn sp_session_entries(fields: Seq<(Seq<u8>, SpecJson)>, i: int) -> Option<
    Seq<(Seq<u8>, Seq<Seq<u8>>)>,
>
    decreases fields.len() - i,
{
    if i < 0 {
        None
    } else if i >= fields.len() {
        Some(Seq::<(Seq<u8>, Seq<Seq<u8>>)>::empty())
    } else {
        match fields[i].1 {
            SpecJson::Object(inner) => match sp_obj_get(inner, audio_session_key_ids()) {
                Some(SpecJson::Array(items)) => match sp_str_items(items, 0) {
                    Some(ids) => match sp_session_entries(fields, i + 1) {
                        Some(r) => Some(seq![(fields[i].0, ids)] + r),
                        None => None,
                    },
                    None => None,
                },
                _ => None,
            },
            _ => None,
        }
    }
}

/// The session-key index a decoded block denotes, when it has the expected
/// shape.
pub open spec fn sp_session_index(v: SpecJson) -> Option<Seq<(Seq<u8>, Seq<Seq<u8>>)>> {
    match v {
        SpecJson::Object(fields) => sp_session_entries(fields, 0),
        _ => None,
    }
}

/// Scheme descriptors out of JSON object members, from member `i` on: each
/// member maps a scheme identifier to a descriptor object with a locator.
pub open spec fn sp_scheme_entries(fields: Seq<(Seq<u8>, SpecJson)>, i: int) -> Option<
    Seq<(Seq<u8>, Seq<u8>)>,
>
    decreases fields.len() - i,
{
    if i < 0 {
        None
    } else if i >= fields.len() {
        Some(Seq::<(Seq<u8>, Seq<u8>)>::empty())
    } else {
        match fields[i].1 {
            SpecJson::Object(df) => match sp_obj_get(df, uri_field()) {
                Some(SpecJson::Str(loc)) => match sp_scheme_entries(fields, i + 1) {
                    Some(r) => Some(seq![(fields[i].0, loc)] + r),
                    None => None,
                },
                _ => None,
            },
            _ => None,
        }
    }
}

/// Descriptor-index entries out of JSON object members, from member `i` on.
pub open spec fn sp_descriptor_entries(fields: Seq<(Seq<u8>, SpecJson)>, i: int) -> Option<
    Seq<(Seq<u8>, Seq<(Seq<u8>, Seq<u8>)>)>,
>
    decreases fields.len() - i,
{
    if i < 0 {
        None
    } else if i >= fields.len() {
        Some(Seq::<(Seq<u8>, Seq<(Seq<u8>, Seq<u8>)>)>::empty())
    } else {
        match fields[i].1 {
            SpecJson::Object(schemes) => match sp_scheme_entries(schemes, 0) {
                Some(sd) => match sp_descriptor_entries(fields, i + 1) {
                    Some(r) => Some(seq![(fields[i].0, sd)] + r),
                    None => None,
                },
                None => None,
            },
            _ => None,
        }
    }
}

/// The key-descriptor index a decoded block denotes, when it has the
/// expected shape.
pub open spec fn sp_descriptor_index(v: SpecJson) -> Option<
    Seq<(Seq<u8>, Seq<(Seq<u8>, Seq<u8>)>)>,
> {
    match v {
        SpecJson::Object(fields) => sp_descriptor_entries(fields, 0),
        _ => None,
    }
}

/// The key-id list of the first session entry under `vid`.
pub open spec fn sp_resolve_key_ids(entries: Seq<(Seq<u8>, Seq<Seq<u8>>)>, vid: Seq<u8>) -> Option<
    Seq<Seq<u8>>,
>
    decreases entries.len(),
{
    if entries.len() == 0 {
        None
    } else if entries[0].0 == vid {
        Some(entries[0].1)
    } else {
        sp_resolve_key_ids(entries.skip(1), vid)
    }
}

/// The scheme list of the first descriptor entry under `id`.
pub open spec fn sp_entry_lookup(entries: Seq<(Seq<u8>, Seq<(Seq<u8>, Seq<u8>)>)>, id: Seq<
    u8,
>) -> Option<Seq<(Seq<u8>, Seq<u8>)>>
    decreases entries.len(),
{
    if entries.len() == 0 {
        None
    } else if entries[0].0 == id {
        Some(entries[0].1)
    } else {
        sp_entry_lookup(entries.skip(1), id)
    }
}

/// The locator of the first scheme pair under `sid`.
pub open spec fn sp_pair_lookup(pairs: Seq<(Seq<u8>, Seq<u8>)>, sid: Seq<u8>) -> Option<Seq<u8>>
    decreases pairs.len(),
{
    if pairs.len() == 0 {
        None
    } else if pairs[0].0 == sid {
        Some(pairs[0].1)
    } else {
        sp_pair_lookup(pairs.skip(1), sid)
    }
}

/// The locator a key identifier leads to: its descriptor entry, scoped to
/// the target scheme.
pub open spec fn sp_lookup_locator(entries: Seq<(Seq<u8>, Seq<(Seq<u8>, Seq<u8>)>)>, id: Seq<
    u8,
>) -> Option<Seq<u8>> {
    match sp_entry_lookup(entries, id) {
        Some(schemes) => sp_pair_lookup(schemes, scheme_id()),
        None => None,
    }
}

/// The locator of the first eligible key identifier: identifiers are tried
/// in order, and the sentinel is never eligible, whatever it carries.
pub open spec fn sp_resolve_identifier(
    entries: Seq<(Seq<u8>, Seq<(Seq<u8>, Seq<u8>)>)>,
    ids: Seq<Seq<u8>>,
) -> Option<Seq<u8>>
    decreases ids.len(),
{
    if ids.len() == 0 {
        None
    } else if ids[0] != sentinel_key_id() && sp_lookup_locator(entries, ids[0]) is Some {
        sp_lookup_locator(entries, ids[0])
    } else {
        sp_resolve_identifier(entries, ids.skip(1))
    }
}

/// A list of sentinels alone never resolves, whatever descriptors exist:
/// the exclusion is a policy, not an accident of missing data.
pub proof fn lemma_resolve_identifier_all_sentinel(
    entries: Seq<(Seq<u8>, Seq<(Seq<u8>, Seq<u8>)>)>,
    ids: Seq<Seq<u8>>,
)
    requires
        forall|i: int| 0 <= i < ids.len() ==> #[trigger] ids[i] == sentinel_key_id(),
    ensures
        sp_resolve_identifier(entries, ids) is None,
    decreases ids.len(),
{
    if ids.len() > 0 {
        assert(ids[0] == sentinel_key_id());
        assert(forall|i: int| 0 <= i < ids.skip(1).len() ==> #[trigger] ids.skip(1)[i]
            == sentinel_key_id());
        lemma_resolve_identifier_all_sentinel(entries, ids.skip(1));
    }
}

/// Every resolved locator is witnessed by a non-sentinel identifier of the
/// list: the resolver never returns the sentinel's descriptor.
pub proof fn lemma_resolve_identifier_witness(
    entries: Seq<(Seq<u8>, Seq<(Seq<u8>, Seq<u8>)>)>,
    ids: Seq<Seq<u8>>,
)
    requires
        sp_resolve_identifier(entries, ids) is Some,
    ensures
        exists|i: int|
            0 <= i < ids.len() && ids[i] != sentinel_key_id() && sp_resolve_identifier(entries, ids)
                == #[trigger] sp_lookup_locator(entries, ids[i]),
    decreases ids.len(),
{
    if ids[0] != sentinel_key_id() && sp_lookup_locator(entries, ids[0]) is Some {
        assert(sp_resolve_identifier(entries, ids) == sp_lookup_locator(entries, ids[0]));
    } else {
        lemma_resolve_identifier_witness(entries, ids.skip(1));
        let j = choose|j: int|
            0 <= j < ids.skip(1).len() && ids.skip(1)[j] != sentinel_key_id()
                && sp_resolve_identifier(entries, ids.skip(1)) == #[trigger] sp_lookup_locator(
                entries,
                ids.skip(1)[j],
            );
        assert(ids[j + 1] == ids.skip(1)[j]);
        assert(sp_resolve_identifier(entries, ids) == sp_lookup_locator(entries, ids[j + 1]));
    }
}

/// Key-identifier strings out of a JSON array, equal to its specification.
fn str_items(items: &Vec<JsonValue>, i: usize) -> (r: Option<Vec<Vec<u8>>>)
    requires
        i <= items@.len(),
    ensures
        match r {
            Some(ids) => sp_str_items(jv_views(items@), i as int) == Some(bl_views(ids@)),
            None => sp_str_items(jv_views(items@), i as int) is None,
        },
    decreases items@.len() - i,
{
    proof {
        lemma_jv_views_len(items@);
    }
    if i >= items.len() {
        let empty: Vec<Vec<u8>> = Vec::new();
        proof {
            assert(bl_views(empty@) =~= Seq::<Seq<u8>>::empty());
        }
        return Some(empty);
    }
    proof {
        lemma_jv_views_index(items@, i as int);
    }
    match &items[i] {
        JsonValue::Str(v) => match str_items(items, i + 1) {
            Some(rest) => {
                let ghost rest0 = rest@;
                let mut out = rest;
                out.insert(0, crate::byteseq::copy_bytes(v));
                proof {
                    assert(out@.skip(1) =~= rest0);
                    assert(bl_views(out@) =~= seq![out@[0]@] + bl_views(rest0));
                }
                Some(out)
            },
            None => None,
        },
        _ => None,
    }
}

/// Session entries out of JSON object members, equal to its specification.
fn session_entries(fields: &Vec<(Vec<u8>, JsonValue)>, i: usize) -> (r: Option<
    Vec<(Vec<u8>, Vec<Vec<u8>>)>,
>)
    requires
        i <= fields@.len(),
    ensures
        match r {
            Some(es) => sp_session_entries(jm_views(fields@), i as int) == Some(se_views(es@)),
            None => sp_session_entries(jm_views(fields@), i as int) is None,
        },
    decreases fields@.len() - i,
{
    proof {
        lemma_jm_views_len(fields@);
    }
    if i >= fields.len() {
        let empty: Vec<(Vec<u8>, Vec<Vec<u8>>)> = Vec::new();
        proof {
            assert(se_views(empty@) =~= Seq::<(Seq<u8>, Seq<Seq<u8>>)>::empty());
        }
        return Some(empty);
    }
    proof {
        lemma_jm_views_index(fields@, i as int);
    }
    match &fields[i].1 {
        JsonValue::Object(inner) => match crate::json::obj_get(inner, "AUDIO-SESSION-KEY-IDS".as_bytes()) {
            Some(jv) => match jv {
                JsonValue::Array(items) => match str_items(items, 0) {
                    Some(ids) => match session_entries(fields, i + 1) {
                        Some(rest) => {
                            let ghost rest0 = rest@;
                            let mut out = rest;
                            out.insert(0, (crate::byteseq::copy_bytes(&fields[i].0), ids));
                            proof {
                                assert(out@.skip(1) =~= rest0);
                                assert(se_views(out@) =~= seq![(out@[0].0@, bl_views(out@[0].1@))]
                                    + se_views(rest0));
                            }
                            Some(out)
                        },
                        None => None,
                    },
                    None => None,
                },
                _ => None,
            },
            None => None,
        },
        _ => None,
    }
}

/// Decode the session-key index from its block's JSON value. Any other
/// shape is a parse failure.
pub fn session_index_from_json(v: &JsonValue) -> (r: Result<SessionKeyIndex, Error>)
    ensures
        match r {
            Ok(ix) => sp_session_index(v@) == Some(ix@),
            Err(e) => e is Parse && sp_session_index(v@) is None,
        },
{
    match v {
        JsonValue::Object(fields) => match session_entries(fields, 0) {
            Some(entries) => Ok(SessionKeyIndex { entries }),
            None => Err(Error::Parse),
        },
        _ => Err(Error::Parse),
    }
}

/// Scheme descriptors out of JSON object members, equal to its specification.
fn scheme_entries(fields: &Vec<(Vec<u8>, JsonValue)>, i: usize) -> (r: Option<
    Vec<(Vec<u8>, Vec<u8>)>,
>)
    requires
        i <= fields@.len(),
    ensures
        match r {
            Some(es) => sp_scheme_entries(jm_views(fields@), i as int) == Some(sd_views(es@)),
            None => sp_scheme_entries(jm_views(fields@), i as int) is None,
        },
    decreases fields@.len() - i,
{
    proof {
        lemma_jm_views_len(fields@);
    }
    if i >= fields.len() {
        let empty: Vec<(Vec<u8>, Vec<u8>)> = Vec::new();
        proof {
            assert(sd_views(empty@) =~= Seq::<(Seq<u8>, Seq<u8>)>::empty());
        }
        return Some(empty);
    }
    proof {
        lemma_jm_views_index(fields@, i as int);
    }
    match &fields[i].1 {
        JsonValue::Object(df) => match crate::json::obj_get(df, "URI".as_bytes()) {
            Some(jv) => match jv {
                JsonValue::Str(loc) => match scheme_entries(fields, i + 1) {
                    Some(rest) => {
                        let ghost rest0 = rest@;
                        let mut out = rest;
                        out.insert(
                            0,
                            (
                                crate::byteseq::copy_bytes(&fields[i].0),
                                crate::byteseq::copy_bytes(loc),
                            ),
                        );
                        proof {
                            assert(out@.skip(1) =~= rest0);
                            assert(sd_views(out@) =~= seq![(out@[0].0@, out@[0].1@)] + sd_views(
                                rest0,
                            ));
                        }
                        Some(out)
                    },
                    None => None,
                },
                _ => None,
            },
            None => None,
        },
        _ => None,
    }
}

/// Descriptor entries out of JSON object members, equal to its specification.
fn descriptor_entries(fields: &Vec<(Vec<u8>, JsonValue)>, i: usize) -> (r: Option<
    Vec<(Vec<u8>, Vec<(Vec<u8>, Vec<u8>)>)>,
>)
    requires
        i <= fields@.len(),
    ensures
        match r {
            Some(es) => sp_descriptor_entries(jm_views(fields@), i as int) == Some(de_views(es@)),
            None => sp_descriptor_entries(jm_views(fields@), i as int) is None,
        },
    decreases fields@.len() - i,
{
    proof {
        lemma_jm_views_len(fields@);
    }
    if i >= fields.len() {
        let empty: Vec<(Vec<u8>, Vec<(Vec<u8>, Vec<u8>)>)> = Vec::new();
        proof {
            assert(de_views(empty@) =~= Seq::<(Seq<u8>, Seq<(Seq<u8>, Seq<u8>)>)>::empty());
        }
        return Some(empty);
    }
    proof {
        lemma_jm_views_index(fields@, i as int);
    }
    match &fields[i].1 {
        JsonValue::Object(schemes) => match scheme_entries(schemes, 0) {
            Some(sd) => match descriptor_entries(fields, i + 1) {
                Some(rest) => {
                    let ghost rest0 = rest@;
                    let mut out = rest;
                    out.insert(0, (crate::byteseq::copy_bytes(&fields[i].0), sd));
                    proof {
                        assert(out@.skip(1) =~= rest0);
                        assert(de_views(out@) =~= seq![(out@[0].0@, sd_views(out@[0].1@))]
                            + de_views(rest0));
                    }
                    Some(out)
                },
                None => None,
            },
            None => None,
        },
        _ => None,
    }
}

/// Decode the key-descriptor index from its block's JSON value. Any other
/// shape is a parse failure.
pub fn descriptor_index_from_json(v: &JsonValue) -> (r: Result<KeyDescriptorIndex, Error>)
    ensures
        match r {
            Ok(ix) => sp_descriptor_index(v@) == Some(ix@),
            Err(e) => e is Parse && sp_descriptor_index(v@) is None,
        },
{
    match v {
        JsonValue::Object(fields) => match descriptor_entries(fields, 0) {
            Some(entries) => Ok(KeyDescriptorIndex { entries }),
            None => Err(Error::Parse),
        },
        _ => Err(Error::Parse),
    }
}


/// Appending keeps earlier views and adds the new one.
proof fn lemma_bl_views_push(s: Seq<Vec<u8>>, x: Vec<u8>)
    ensures
        bl_views(s.push(x)) == bl_views(s).push(x@),
    decreases s.len(),
{
    if s.len() == 0 {
        assert(s.push(x)[0] == x);
        assert(s.push(x).skip(1) =~= Seq::<Vec<u8>>::empty());
        assert(bl_views(Seq::<Vec<u8>>::empty()) =~= Seq::<Seq<u8>>::empty());
        assert(bl_views(s.push(x)) =~= bl_views(s).push(x@));
    } else {
        assert(s.push(x)[0] == s[0]);
        assert(s.push(x).skip(1) =~= s.skip(1).push(x));
        lemma_bl_views_push(s.skip(1), x);
        assert(bl_views(s.push(x)) =~= bl_views(s).push(x@));
    }
}

/// Owned copy of a list of byte strings.
fn copy_bytes_list(v: &Vec<Vec<u8>>) -> (r: Vec<Vec<u8>>)
    ensures
        bl_views(r@) == bl_views(v@),
{
    let mut out: Vec<Vec<u8>> = Vec::new();
    proof {
        lemma_bl_views_len(v@);
        assert(bl_views(out@) =~= bl_views(v@).take(0));
    }
    let mut i: usize = 0;
    while i < v.len()
        invariant
            i <= v@.len(),
            bl_views(v@).len() == v@.len(),
            bl_views(out@) == bl_views(v@).take(i as int),
        decreases v@.len() - i,
    {
        let c = crate::byteseq::copy_bytes(&v[i]);
        proof {
            lemma_bl_views_push(out@, c);
            lemma_bl_views_index(v@, i as int);
            assert(bl_views(v@).take(i + 1 as int) =~= bl_views(v@).take(i as int).push(
                bl_views(v@)[i as int],
            ));
        }
        out.push(c);
        i += 1;
    }
    proof {
        assert(bl_views(v@).take(v@.len() as int) =~= bl_views(v@));
    }
    out
}

/// The session lookup finds the first matching entry.
proof fn lemma_resolve_key_ids_at(entries: Seq<(Vec<u8>, Vec<Vec<u8>>)>, vid: Seq<u8>, i: int)
    requires
        0 <= i < entries.len(),
        entries[i].0@ == vid,
        forall|j: int| 0 <= j < i ==> #[trigger] entries[j].0@ != vid,
    ensures
        sp_resolve_key_ids(se_views(entries), vid) == Some(bl_views(entries[i].1@)),
    decreases i,
{
    lemma_se_views_len(entries);
    lemma_se_views_index(entries, i);
    if i == 0 {
    } else {
        lemma_se_views_index(entries, 0);
        assert(se_views(entries).skip(1) =~= se_views(entries.skip(1)));
        lemma_resolve_key_ids_at(entries.skip(1), vid, i - 1);
    }
}

/// The session lookup misses exactly when no entry matches.
proof fn lemma_resolve_key_ids_none(entries: Seq<(Vec<u8>, Vec<Vec<u8>>)>, vid: Seq<u8>)
    requires
        forall|j: int| 0 <= j < entries.len() ==> #[trigger] entries[j].0@ != vid,
    ensures
        sp_resolve_key_ids(se_views(entries), vid) is None,
    decreases entries.len(),
{
    lemma_se_views_len(entries);
    if entries.len() > 0 {
        lemma_se_views_index(entries, 0);
        assert(se_views(entries).skip(1) =~= se_views(entries.skip(1)));
        lemma_resolve_key_ids_none(entries.skip(1), vid);
    }
}

/// Look the chosen variant up in the session-key index: its ordered list of
/// key identifiers, or the variant-unknown failure when it has no entry.
pub fn resolve_key_ids(index: &SessionKeyIndex, variant_id: &[u8]) -> (r: Result<
    Vec<Vec<u8>>,
    Error,
>)
    ensures
        match r {
            Ok(ids) => sp_resolve_key_ids(index@, variant_id@) == Some(bl_views(ids@)),
            Err(e) => e == Error::Extraction(ExtractionError::VariantUnknown)
                && sp_resolve_key_ids(index@, variant_id@) is None,
        },
{
    let mut i: usize = 0;
    while i < index.entries.len()
        invariant
            i <= index.entries@.len(),
            forall|j: int| 0 <= j < i ==> #[trigger] index.entries@[j].0@ != variant_id@,
        decreases index.entries@.len() - i,
    {
        if bytes_eq(index.entries[i].0.as_slice(), variant_id) {
            proof {
                lemma_resolve_key_ids_at(index.entries@, variant_id@, i as int);
            }
            return Ok(copy_bytes_list(&index.entries[i].1));
        }
        i += 1;
    }
    proof {
        lemma_resolve_key_ids_none(index.entries@, variant_id@);
    }
    Err(Error::Extraction(ExtractionError::VariantUnknown))
}

/// The descriptor lookup finds the first matching entry.
proof fn lemma_entry_lookup_at(
    entries: Seq<(Vec<u8>, Vec<(Vec<u8>, Vec<u8>)>)>,
    id: Seq<u8>,
    i: int,
)
    requires
        0 <= i < entries.len(),
        entries[i].0@ == id,
        forall|j: int| 0 <= j < i ==> #[trigger] entries[j].0@ != id,
    ensures
        sp_entry_lookup(de_views(entries), id) == Some(sd_views(entries[i].1@)),
    decreases i,
{
    lemma_de_views_len(entries);
    lemma_de_views_index(entries, i);
    if i == 0 {
    } else {
        lemma_de_views_index(entries, 0);
        assert(de_views(entries).skip(1) =~= de_views(entries.skip(1)));
        lemma_entry_lookup_at(entries.skip(1), id, i - 1);
    }
}

/// The descriptor lookup misses exactly when no entry matches.
proof fn lemma_entry_lookup_none(entries: Seq<(Vec<u8>, Vec<(Vec<u8>, Vec<u8>)>)>, id: Seq<u8>)
    requires
        forall|j: int| 0 <= j < entries.len() ==> #[trigger] entries[j].0@ != id,
    ensures
        sp_entry_lookup(de_views(entries), id) is None,
    decreases entries.len(),
{
    lemma_de_views_len(entries);
    if entries.len() > 0 {
        lemma_de_views_index(entries, 0);
        assert(de_views(entries).skip(1) =~= de_views(entries.skip(1)));
        lemma_entry_lookup_none(entries.skip(1), id);
    }
}

/// The scheme list of the first descriptor entry under `id`.
fn entry_lookup<'a>(entries: &'a Vec<(Vec<u8>, Vec<(Vec<u8>, Vec<u8>)>)>, id: &[u8]) -> (r: Option<
    &'a Vec<(Vec<u8>, Vec<u8>)>,
>)
    ensures
        match r {
            Some(s) => sp_entry_lookup(de_views(entries@), id@) == Some(sd_views(s@)),
            None => sp_entry_lookup(de_views(entries@), id@) is None,
        },
{
    let mut i: usize = 0;
    while i < entries.len()
        invariant
            i <= entries@.len(),
            forall|j: int| 0 <= j < i ==> #[trigger] entries@[j].0@ != id@,
        decreases entries@.len() - i,
    {
        if bytes_eq(entries[i].0.as_slice(), id) {
            proof {
                lemma_entry_lookup_at(entries@, id@, i as int);
            }
            return Some(&entries[i].1);
        }
        i += 1;
    }
    proof {
        lemma_entry_lookup_none(entries@, id@);
    }
    None
}

/// The pair lookup finds the first matching pair.
proof fn lemma_pair_lookup_at(pairs: Seq<(Vec<u8>, Vec<u8>)>, sid: Seq<u8>, i: int)
    requires
        0 <= i < pairs.len(),
        pairs[i].0@ == sid,
        forall|j: int| 0 <= j < i ==> #[trigger] pairs[j].0@ != sid,
    ensures
        sp_pair_lookup(sd_views(pairs), sid) == Some(pairs[i].1@),
    decreases i,
{
    lemma_sd_views_len(pairs);
    lemma_sd_views_index(pairs, i);
    if i == 0 {
    } else {
        lemma_sd_views_index(pairs, 0);
        assert(sd_views(pairs).skip(1) =~= sd_views(pairs.skip(1)));
        lemma_pair_lookup_at(pairs.skip(1), sid, i - 1);
    }
}

/// The pair lookup misses exactly when no pair matches.
proof fn lemma_pair_lookup_none(pairs: Seq<(Vec<u8>, Vec<u8>)>, sid: Seq<u8>)
    requires
        forall|j: int| 0 <= j < pairs.len() ==> #[trigger] pairs[j].0@ != sid,
    ensures
        sp_pair_lookup(sd_views(pairs), sid) is None,
    decreases pairs.len(),
{
    lemma_sd_views_len(pairs);
    if pairs.len() > 0 {
        lemma_sd_views_index(pairs, 0);
        assert(sd_views(pairs).skip(1) =~= sd_views(pairs.skip(1)));
        lemma_pair_lookup_none(pairs.skip(1), sid);
    }
}

/// The locator of the first pair under `sid`.
fn pair_lookup<'a>(pairs: &'a Vec<(Vec<u8>, Vec<u8>)>, sid: &[u8]) -> (r: Option<&'a Vec<u8>>)
    ensures
        match r {
            Some(v) => sp_pair_lookup(sd_views(pairs@), sid@) == Some(v@),
            None => sp_pair_lookup(sd_views(pairs@), sid@) is None,
        },
{
    let mut i: usize = 0;
    while i < pairs.len()
        invariant
            i <= pairs@.len(),
            forall|j: int| 0 <= j < i ==> #[trigger] pairs@[j].0@ != sid@,
        decreases pairs@.len() - i,
    {
        if bytes_eq(pairs[i].0.as_slice(), sid) {
            proof {
                lemma_pair_lookup_at(pairs@, sid@, i as int);
            }
            return Some(&pairs[i].1);
        }
        i += 1;
    }
    proof {
        lemma_pair_lookup_none(pairs@, sid@);
    }
    None
}

/// Resolve the eligible key identifier: try the identifiers in order, skip
/// the sentinel `"1"` whatever it carries, scope each lookup to the target
/// scheme, and return the first locator found; the key-not-found failure
/// exactly when no identifier is eligible.
pub fn resolve_identifier(index: &KeyDescriptorIndex, key_ids: &Vec<Vec<u8>>) -> (r: Result<
    Vec<u8>,
    Error,
>)
    ensures
        match r {
            Ok(loc) => sp_resolve_identifier(index@, bl_views(key_ids@)) == Some(loc@),
            Err(e) => e == Error::Extraction(ExtractionError::KeyNotFound)
                && sp_resolve_identifier(index@, bl_views(key_ids@)) is None,
        },
{
    proof {
        lemma_bl_views_len(key_ids@);
        assert(bl_views(key_ids@).skip(0) =~= bl_views(key_ids@));
    }
    let mut k: usize = 0;
    while k < key_ids.len()
        invariant
            k <= key_ids@.len(),
            bl_views(key_ids@).len() == key_ids@.len(),
            sp_resolve_identifier(index@, bl_views(key_ids@)) == sp_resolve_identifier(
                index@,
                bl_views(key_ids@).skip(k as int),
            ),
        decreases key_ids@.len() - k,
    {
        proof {
            lemma_bl_views_index(key_ids@, k as int);
            assert(bl_views(key_ids@).skip(k as int)[0] == bl_views(key_ids@)[k as int]);
            assert(bl_views(key_ids@).skip(k as int).skip(1) =~= bl_views(key_ids@).skip(
                k + 1 as int,
            ));
        }
        let id = &key_ids[k];
        if !bytes_eq(id.as_slice(), "1".as_bytes()) {
            match entry_lookup(&index.entries, id.as_slice()) {
                Some(schemes) => {
                    match pair_lookup(
                        schemes,
                        "urn:uuid:edef8ba9-79d6-4ace-a3c8-27dcd51d21ed".as_bytes(),
                    ) {
                        Some(loc) => {
                            return Ok(crate::byteseq::copy_bytes(loc));
                        },
                        None => {},
                    }
                },
                None => {},
            }
        }
        k += 1;
    }
    proof {
        assert(bl_views(key_ids@).skip(key_ids@.len() as int) =~= Seq::<Seq<u8>>::empty());
    }
    Err(Error::Extraction(ExtractionError::KeyNotFound))
}

/// Extract the key-descriptor metadata block of a master manifest.
pub fn get_drm_info(manifest: &MasterManifest) -> (r: Result<JsonValue, Error>)
    ensures
        match r {
            Ok(v) => sp_extract_block(manifest@, session_key_block_id()) == Ok::<
                SpecJson,
                Error,
            >(v@),
            Err(e) => sp_extract_block(manifest@, session_key_block_id()) == Err::<
                SpecJson,
                Error,
            >(e),
        },
{
    extract_block(manifest, "com.apple.hls.AudioSessionKeyInfo".as_bytes())
}

/// Extract the variant-metadata block of a master manifest.
pub fn get_assert_info(manifest: &MasterManifest) -> (r: Result<JsonValue, Error>)
    ensures
        match r {
            Ok(v) => sp_extract_block(manifest@, asset_metadata_block_id()) == Ok::<
                SpecJson,
                Error,
            >(v@),
            Err(e) => sp_extract_block(manifest@, asset_metadata_block_id()) == Err::<
                SpecJson,
                Error,
            >(e),
        },
{
    extract_block(manifest, "com.apple.hls.audioAssetMetadata".as_bytes())
}

/// What `get_pssh` yields: the key-descriptor value and the key-id array
/// decoded, then the identifier resolved under the sentinel exclusion.
pub open spec fn sp_get_pssh(infos: SpecJson, ids: SpecJson) -> Option<Seq<u8>> {
    match infos {
        SpecJson::Object(f) => match ids {
            SpecJson::Array(items) => match sp_str_items(items, 0) {
                Some(idseq) => match sp_descriptor_entries(f, 0) {
                    Some(entries) => sp_resolve_identifier(entries, idseq),
                    None => None,
                },
                None => None,
            },
            _ => None,
        },
        _ => None,
    }
}

/// The locator for the first eligible key identifier, straight from the two
/// decoded JSON values; `None` when nothing resolves or the locator is not
/// valid UTF-8.
pub fn get_pssh(drm_infos: &JsonValue, drm_ids: &JsonValue) -> (r: Option<String>)
    ensures
        match r {
            Some(loc) => sp_get_pssh(drm_infos@, drm_ids@) == Some(
                vstd::utf8::encode_utf8(loc@),
            ),
            None => match sp_get_pssh(drm_infos@, drm_ids@) {
                Some(loc) => !vstd::utf8::valid_utf8(loc),
                None => true,
            },
        },
{
    let fields = match drm_infos {
        JsonValue::Object(f) => f,
        _ => {
            return None;
        },
    };
    let items = match drm_ids {
        JsonValue::Array(items) => items,
        _ => {
            return None;
        },
    };
    let idseq = match str_items(items, 0) {
        Some(ids) => ids,
        None => {
            return None;
        },
    };
    let entries = match descriptor_entries(fields, 0) {
        Some(es) => es,
        None => {
            return None;
        },
    };
    let index = KeyDescriptorIndex { entries };
    match resolve_identifier(&index, &idseq) {
        Ok(loc) => crate::text::bytes_to_string(loc),
        Err(_) => None,
    }
}

} // verus!
