use ramdl::error::Error;
use ramdl::json::{parse_json, JsonValue};
use ramdl::manifest::{parse_master, parse_media, BlockField};

fn master_text() -> Vec<u8> {
    let mut s = String::new();
    s.push_str("#EXTM3U\n");
    s.push_str("#EXT-X-INDEPENDENT-SEGMENTS\n");
    s.push_str("#EXT-X-SESSION-DATA:DATA-ID=\"com.example.note\",VALUE=\"aGk=\"\n");
    s.push_str("#EXT-X-STREAM-INF:BANDWIDTH=256000,CODECS=\"alac\",STABLE-VARIANT-ID=\"v1\"\n");
    s.push_str("audio.m3u8\n");
    s.into_bytes()
}

#[test]
fn parse_master_reads_variants_and_blocks() {
    let m = parse_master(&master_text()).unwrap();
    assert_eq!(m.variants.len(), 1);
    let v = &m.variants[0];
    assert_eq!(v.uri, b"audio.m3u8".to_vec());
    assert_eq!(v.codec.as_ref().unwrap(), &b"alac".to_vec());
    assert_eq!(v.stable_id.as_ref().unwrap(), &b"v1".to_vec());
    assert_eq!(v.attributes.len(), 3);
    assert_eq!(v.attributes[0].0, b"BANDWIDTH".to_vec());
    assert_eq!(v.attributes[0].1, b"256000".to_vec());
    assert_eq!(m.metadata_blocks.len(), 1);
    assert_eq!(m.metadata_blocks[0].data_id, b"com.example.note".to_vec());
    match &m.metadata_blocks[0].field {
        BlockField::Inline(v) => assert_eq!(v, &b"aGk=".to_vec()),
        BlockField::Reference(_) => panic!("expected an inline block"),
    }
}

#[test]
fn parse_master_is_deterministic() {
    let a = parse_master(&master_text()).unwrap();
    let b = parse_master(&master_text()).unwrap();
    assert_eq!(a.variants.len(), b.variants.len());
    assert_eq!(a.variants[0].uri, b.variants[0].uri);
    assert_eq!(a.variants[0].codec, b.variants[0].codec);
    assert_eq!(a.variants[0].stable_id, b.variants[0].stable_id);
    assert_eq!(a.variants[0].attributes, b.variants[0].attributes);
    assert_eq!(a.metadata_blocks.len(), b.metadata_blocks.len());
    assert_eq!(a.metadata_blocks[0].data_id, b.metadata_blocks[0].data_id);
}

#[test]
fn parse_master_needs_header() {
    let r = parse_master(b"#EXT-X-STREAM-INF:CODECS=\"alac\"\naudio.m3u8\n");
    assert!(matches!(r, Err(Error::Parse)));
}

#[test]
fn parse_master_rejects_dangling_variant_tag() {
    let r = parse_master(b"#EXTM3U\n#EXT-X-STREAM-INF:CODECS=\"alac\"\n");
    assert!(matches!(r, Err(Error::Parse)));
}

#[test]
fn parse_master_rejects_block_with_value_and_uri() {
    let r = parse_master(
        b"#EXTM3U\n#EXT-X-SESSION-DATA:DATA-ID=\"a\",VALUE=\"aGk=\",URI=\"x.json\"\n",
    );
    assert!(matches!(r, Err(Error::Parse)));
}

#[test]
fn parse_master_keeps_reference_blocks() {
    let m = parse_master(b"#EXTM3U\n#EXT-X-SESSION-DATA:DATA-ID=\"a\",URI=\"x.json\"\n").unwrap();
    assert!(matches!(&m.metadata_blocks[0].field, BlockField::Reference(u) if u == &b"x.json".to_vec()));
}

#[test]
fn parse_master_handles_crlf_lines() {
    let m = parse_master(b"#EXTM3U\r\n#EXT-X-STREAM-INF:CODECS=\"alac\"\r\naudio.m3u8\r\n")
        .unwrap();
    assert_eq!(m.variants[0].uri, b"audio.m3u8".to_vec());
}

#[test]
fn parse_media_reads_key_and_segments() {
    let text = b"#EXTM3U\n#EXT-X-KEY:METHOD=SAMPLE-AES,URI=\"skd://xyz\"\nseg0.mp4\nseg1.mp4\n";
    let m = parse_media(text).unwrap();
    assert_eq!(m.segments.len(), 2);
    assert_eq!(m.segments[0].uri, b"seg0.mp4".to_vec());
    assert_eq!(m.segments[0].key_uri.as_ref().unwrap(), &b"skd://xyz".to_vec());
    assert_eq!(m.segments[1].key_uri.as_ref().unwrap(), &b"skd://xyz".to_vec());
}

#[test]
fn parse_media_segment_before_key_has_none() {
    let m = parse_media(b"#EXTM3U\nseg0.mp4\n#EXT-X-KEY:URI=\"skd://xyz\"\nseg1.mp4\n").unwrap();
    assert!(m.segments[0].key_uri.is_none());
    assert!(m.segments[1].key_uri.is_some());
}

#[test]
fn json_parses_nested_document() {
    let v = parse_json(b" {\"a\": [1, \"two\", true, null], \"b\": {\"c\": -2.5e3} } ").unwrap();
    match v {
        JsonValue::Object(fields) => {
            assert_eq!(fields.len(), 2);
            assert_eq!(fields[0].0, b"a".to_vec());
            match &fields[0].1 {
                JsonValue::Array(items) => {
                    assert_eq!(items.len(), 4);
                    assert!(matches!(&items[0], JsonValue::Number(n) if n == &b"1".to_vec()));
                    assert!(matches!(&items[1], JsonValue::Str(s) if s == &b"two".to_vec()));
                    assert!(matches!(items[2], JsonValue::Bool(true)));
                    assert!(matches!(items[3], JsonValue::Null));
                },
                _ => panic!("expected an array"),
            }
            match &fields[1].1 {
                JsonValue::Object(inner) => {
                    assert!(
                        matches!(&inner[0].1, JsonValue::Number(n) if n == &b"-2.5e3".to_vec())
                    );
                },
                _ => panic!("expected an object"),
            }
        },
        _ => panic!("expected an object"),
    }
}

#[test]
fn json_is_deterministic() {
    let text = b"{\"k\": [\"v\", 7]}";
    let a = format!("{:?}", parse_json(text).is_some());
    let b = format!("{:?}", parse_json(text).is_some());
    assert_eq!(a, b);
    // structural comparison through the decoded strings
    let first = parse_json(text).unwrap();
    let second = parse_json(text).unwrap();
    match (first, second) {
        (JsonValue::Object(f1), JsonValue::Object(f2)) => {
            assert_eq!(f1[0].0, f2[0].0);
        },
        _ => panic!("expected objects"),
    }
}

#[test]
fn json_decodes_escapes() {
    let v = parse_json(b"\"a\\\"b\\\\c\\n\"").unwrap();
    assert!(matches!(v, JsonValue::Str(s) if s == b"a\"b\\c\n".to_vec()));
}

#[test]
fn json_rejects_unicode_escape() {
    assert!(parse_json(b"\"a\\u0041\"").is_none());
}

#[test]
fn json_rejects_trailing_garbage() {
    assert!(parse_json(b"{} x").is_none());
    assert!(parse_json(b"").is_none());
    assert!(parse_json(b"{\"a\":}").is_none());
}

#[test]
fn media_path_takes_locator_from_first_segment() {
    let text = b"#EXTM3U\n#EXT-X-KEY:METHOD=SAMPLE-AES,URI=\"skd://direct\"\nseg0.mp4\n";
    let si = ramdl::stream_info::StreamInfo::new_with_media(text, "https://cdn.example/audio.m3u8")
        .unwrap();
    assert_eq!(si.pssh, "skd://direct");
    assert_eq!(si.stream_url, "https://cdn.example/audio.m3u8");
    assert_eq!(si.codec, "");
}

#[test]
fn media_path_without_key_fails() {
    let r = ramdl::stream_info::StreamInfo::new_with_media(
        b"#EXTM3U\nseg0.mp4\n",
        "https://cdn.example/audio.m3u8",
    );
    assert!(matches!(
        r,
        Err(ramdl::error::Error::Extraction(
            ramdl::error::ExtractionError::KeyNotFound
        ))
    ));
}

#[test]
fn find_delimited_extracts_between_markers() {
    let page = b"<script src=\"/assets/index-4711.js\"></script>";
    let r = ramdl::byteseq::find_delimited(page, b"index", b".js\"").unwrap();
    assert_eq!(r, b"-4711".to_vec());
}

#[test]
fn find_delimited_misses_without_both_markers() {
    assert!(ramdl::byteseq::find_delimited(b"no markers here", b"index", b".js\"").is_none());
    assert!(ramdl::byteseq::find_delimited(b"index only", b"index", b".js\"").is_none());
}

#[test]
fn find_delimited_takes_first_occurrence() {
    let page = b"index-a.js\" index-b.js\"";
    let r = ramdl::byteseq::find_delimited(page, b"index", b".js\"").unwrap();
    assert_eq!(r, b"-a".to_vec());
}
