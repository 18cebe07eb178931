use base64::Engine;
use ramdl::error::{Error, ExtractionError};
use ramdl::extractor::{
    descriptor_index_from_json, extract_block, get_assert_info, get_drm_info, get_pssh,
    resolve_identifier, resolve_key_ids, session_index_from_json, KeyDescriptorIndex,
    SessionKeyIndex,
};
use ramdl::header::build;
use ramdl::json::{parse_json, JsonValue};
use ramdl::manifest::parse_master;
use ramdl::stream_info::StreamInfo;

const SCHEME: &str = "urn:uuid:edef8ba9-79d6-4ace-a3c8-27dcd51d21ed";

fn b64(data: &[u8]) -> String {
    base64::engine::general_purpose::STANDARD.encode(data)
}

fn scenario_master() -> Vec<u8> {
    let asset_metadata = b64(br#"{"v1": {"AUDIO-SESSION-KEY-IDS": ["2", "3"]}}"#);
    let key_info = b64(
        br#"{"3": {"urn:uuid:edef8ba9-79d6-4ace-a3c8-27dcd51d21ed": {"URI": "skd://abc123"}}}"#,
    );
    let mut s = String::new();
    s.push_str("#EXTM3U\n");
    s.push_str(&format!(
        "#EXT-X-SESSION-DATA:DATA-ID=\"com.apple.hls.audioAssetMetadata\",VALUE=\"{}\"\n",
        asset_metadata
    ));
    s.push_str(&format!(
        "#EXT-X-SESSION-DATA:DATA-ID=\"com.apple.hls.AudioSessionKeyInfo\",VALUE=\"{}\"\n",
        key_info
    ));
    s.push_str("#EXT-X-STREAM-INF:CODECS=\"alac\",STABLE-VARIANT-ID=\"v1\"\n");
    s.push_str("audio.m3u8\n");
    s.into_bytes()
}

fn descriptor_index(entries: &[(&str, &str)]) -> KeyDescriptorIndex {
    let mut out = Vec::new();
    for (id, locator) in entries {
        out.push((
            id.as_bytes().to_vec(),
            vec![(SCHEME.as_bytes().to_vec(), locator.as_bytes().to_vec())],
        ));
    }
    KeyDescriptorIndex { entries: out }
}

fn ids(list: &[&str]) -> Vec<Vec<u8>> {
    list.iter().map(|s| s.as_bytes().to_vec()).collect()
}

#[test]
fn resolve_identifier_skips_sentinel_with_valid_descriptor() {
    let index = descriptor_index(&[("1", "skd://sentinel"), ("3", "skd://three")]);
    let r = resolve_identifier(&index, &ids(&["1", "3"])).unwrap();
    assert_eq!(r, b"skd://three".to_vec());
}

#[test]
fn resolve_identifier_fails_on_sentinel_alone() {
    let index = descriptor_index(&[("1", "skd://sentinel")]);
    let r = resolve_identifier(&index, &ids(&["1"]));
    assert!(matches!(
        r,
        Err(Error::Extraction(ExtractionError::KeyNotFound))
    ));
}

#[test]
fn resolve_identifier_takes_first_eligible() {
    let index = descriptor_index(&[("2", "skd://two"), ("3", "skd://three")]);
    let r = resolve_identifier(&index, &ids(&["2", "3"])).unwrap();
    assert_eq!(r, b"skd://two".to_vec());
}

#[test]
fn resolve_identifier_scopes_to_scheme() {
    let index = KeyDescriptorIndex {
        entries: vec![(
            b"2".to_vec(),
            vec![(b"urn:uuid:other-scheme".to_vec(), b"skd://other".to_vec())],
        )],
    };
    let r = resolve_identifier(&index, &ids(&["2"]));
    assert!(matches!(
        r,
        Err(Error::Extraction(ExtractionError::KeyNotFound))
    ));
}

#[test]
fn resolve_key_ids_unknown_variant() {
    let index = SessionKeyIndex { entries: vec![(b"v1".to_vec(), ids(&["2"]))] };
    let r = resolve_key_ids(&index, b"v2");
    assert!(matches!(
        r,
        Err(Error::Extraction(ExtractionError::VariantUnknown))
    ));
}

#[test]
fn resolve_key_ids_returns_ordered_list() {
    let index = SessionKeyIndex { entries: vec![(b"v1".to_vec(), ids(&["2", "3"]))] };
    let r = resolve_key_ids(&index, b"v1").unwrap();
    assert_eq!(r, ids(&["2", "3"]));
}

#[test]
fn extract_block_not_found() {
    let m = parse_master(b"#EXTM3U\n").unwrap();
    let r = extract_block(&m, b"com.apple.hls.audioAssetMetadata");
    assert!(matches!(
        r,
        Err(Error::Extraction(ExtractionError::BlockNotFound))
    ));
}

#[test]
fn extract_block_reference_is_not_inline() {
    let m = parse_master(
        b"#EXTM3U\n#EXT-X-SESSION-DATA:DATA-ID=\"com.apple.hls.audioAssetMetadata\",URI=\"x.json\"\n",
    )
    .unwrap();
    let r = extract_block(&m, b"com.apple.hls.audioAssetMetadata");
    assert!(matches!(r, Err(Error::Extraction(ExtractionError::NotInline))));
}

#[test]
fn extract_block_rejects_bad_base64() {
    let m = parse_master(
        b"#EXTM3U\n#EXT-X-SESSION-DATA:DATA-ID=\"com.apple.hls.audioAssetMetadata\",VALUE=\"!!!\"\n",
    )
    .unwrap();
    let r = extract_block(&m, b"com.apple.hls.audioAssetMetadata");
    assert!(matches!(r, Err(Error::Encoding)));
}

#[test]
fn extract_block_decodes_json() {
    let m = parse_master(&scenario_master()).unwrap();
    let v = get_assert_info(&m).unwrap();
    match v {
        JsonValue::Object(fields) => assert_eq!(fields[0].0, b"v1".to_vec()),
        _ => panic!("expected an object"),
    }
}

#[test]
fn scenario_master_resolves_identifier_and_codec() {
    let si = StreamInfo::new(scenario_master(), "https://example.com/path/master.m3u8").unwrap();
    assert_eq!(si.pssh, "skd://abc123");
    assert_eq!(si.codec, "alac");
    assert_eq!(si.stream_url, "https://example.com/path/audio.m3u8");
}

#[test]
fn get_pssh_resolves_from_json_values() {
    let m = parse_master(&scenario_master()).unwrap();
    let infos = get_drm_info(&m).unwrap();
    let ids_json = parse_json(br#"["1", "3"]"#).unwrap();
    let r = get_pssh(&infos, &ids_json).unwrap();
    assert_eq!(r, "skd://abc123");
}

#[test]
fn session_index_decodes_shape() {
    let v = parse_json(br#"{"v1": {"AUDIO-SESSION-KEY-IDS": ["2"]}}"#).unwrap();
    let ix = session_index_from_json(&v).unwrap();
    assert_eq!(ix.entries.len(), 1);
    assert_eq!(ix.entries[0].0, b"v1".to_vec());
    assert_eq!(ix.entries[0].1, ids(&["2"]));
}

#[test]
fn session_index_rejects_wrong_shape() {
    let v = parse_json(br#"{"v1": {"AUDIO-SESSION-KEY-IDS": "2"}}"#).unwrap();
    assert!(matches!(session_index_from_json(&v), Err(Error::Parse)));
}

#[test]
fn descriptor_index_decodes_shape() {
    let v = parse_json(
        br#"{"3": {"urn:uuid:edef8ba9-79d6-4ace-a3c8-27dcd51d21ed": {"URI": "skd://abc123"}}}"#,
    )
    .unwrap();
    let ix = descriptor_index_from_json(&v).unwrap();
    assert_eq!(ix.entries.len(), 1);
    assert_eq!(ix.entries[0].0, b"3".to_vec());
    assert_eq!(ix.entries[0].1[0].1, b"skd://abc123".to_vec());
}

#[test]
fn build_produces_tagged_box() {
    let kid: &[u8] = &[0xAB; 16];
    let identifier = format!("skd://something,{}", b64(kid));
    let header = build(&identifier).unwrap();
    // version-0 box: size, magic, version and flags, system id, data length
    assert_eq!(header.len(), 52);
    assert_eq!(&header[0..4], &[0, 0, 0, 52]);
    assert_eq!(&header[4..8], b"pssh");
    assert_eq!(&header[8..12], &[0, 0, 0, 0]);
    assert_eq!(
        &header[12..28],
        &[
            0xed, 0xef, 0x8b, 0xa9, 0x79, 0xd6, 0x4a, 0xce, 0xa3, 0xc8, 0x27, 0xdc, 0xd5, 0x1d,
            0x21, 0xed
        ]
    );
    assert_eq!(&header[28..32], &[0, 0, 0, 20]);
    // protection data: algorithm 1, then the length-delimited key id
    assert_eq!(&header[32..36], &[8, 1, 0x12, 16]);
    // round trip: the key-id field recovers the original raw bytes
    assert_eq!(&header[36..52], kid);
}

#[test]
fn build_is_pure() {
    let identifier = format!("skd://something,{}", b64(&[7u8; 16]));
    assert_eq!(build(&identifier).unwrap(), build(&identifier).unwrap());
}

#[test]
fn build_without_comma_decodes_whole_identifier() {
    let header = build(&b64(&[1u8, 2, 3])).unwrap();
    assert_eq!(&header[32..36], &[8, 1, 0x12, 3]);
    assert_eq!(&header[36..39], &[1, 2, 3]);
}

#[test]
fn build_rejects_bad_base64() {
    assert!(matches!(build("skd://x,&&&"), Err(Error::Encoding)));
}

#[test]
fn stream_info_without_blocks_is_block_not_found() {
    let manifest = b"#EXTM3U\n#EXT-X-STREAM-INF:CODECS=\"alac\",STABLE-VARIANT-ID=\"v1\"\naudio.m3u8\n";
    let r = StreamInfo::new(manifest.to_vec(), "https://example.com/m");
    assert!(matches!(
        r,
        Err(Error::Extraction(ExtractionError::BlockNotFound))
    ));
}

#[test]
fn stream_info_unknown_variant_is_variant_unknown() {
    let asset_metadata = b64(br#"{"v9": {"AUDIO-SESSION-KEY-IDS": ["2"]}}"#);
    let key_info = b64(br#"{"2": {"urn:uuid:edef8ba9-79d6-4ace-a3c8-27dcd51d21ed": {"URI": "skd://x"}}}"#);
    let mut s = String::new();
    s.push_str("#EXTM3U\n");
    s.push_str(&format!(
        "#EXT-X-SESSION-DATA:DATA-ID=\"com.apple.hls.audioAssetMetadata\",VALUE=\"{}\"\n",
        asset_metadata
    ));
    s.push_str(&format!(
        "#EXT-X-SESSION-DATA:DATA-ID=\"com.apple.hls.AudioSessionKeyInfo\",VALUE=\"{}\"\n",
        key_info
    ));
    s.push_str("#EXT-X-STREAM-INF:CODECS=\"alac\",STABLE-VARIANT-ID=\"v1\"\n");
    s.push_str("audio.m3u8\n");
    let r = StreamInfo::new(s.into_bytes(), "https://example.com/m");
    assert!(matches!(
        r,
        Err(Error::Extraction(ExtractionError::VariantUnknown))
    ));
}

#[test]
fn stream_info_sentinel_only_is_key_not_found() {
    let asset_metadata = b64(br#"{"v1": {"AUDIO-SESSION-KEY-IDS": ["1"]}}"#);
    let key_info = b64(br#"{"1": {"urn:uuid:edef8ba9-79d6-4ace-a3c8-27dcd51d21ed": {"URI": "skd://x"}}}"#);
    let mut s = String::new();
    s.push_str("#EXTM3U\n");
    s.push_str(&format!(
        "#EXT-X-SESSION-DATA:DATA-ID=\"com.apple.hls.audioAssetMetadata\",VALUE=\"{}\"\n",
        asset_metadata
    ));
    s.push_str(&format!(
        "#EXT-X-SESSION-DATA:DATA-ID=\"com.apple.hls.AudioSessionKeyInfo\",VALUE=\"{}\"\n",
        key_info
    ));
    s.push_str("#EXT-X-STREAM-INF:CODECS=\"alac\",STABLE-VARIANT-ID=\"v1\"\n");
    s.push_str("audio.m3u8\n");
    let r = StreamInfo::new(s.into_bytes(), "https://example.com/m");
    assert!(matches!(
        r,
        Err(Error::Extraction(ExtractionError::KeyNotFound))
    ));
}

#[test]
fn stream_info_bad_block_base64_is_encoding_error() {
    let manifest = b"#EXTM3U\n#EXT-X-SESSION-DATA:DATA-ID=\"com.apple.hls.audioAssetMetadata\",VALUE=\"!!!\"\n#EXT-X-STREAM-INF:CODECS=\"alac\",STABLE-VARIANT-ID=\"v1\"\naudio.m3u8\n";
    let r = StreamInfo::new(manifest.to_vec(), "https://example.com/m");
    assert!(matches!(r, Err(Error::Encoding)));
}
