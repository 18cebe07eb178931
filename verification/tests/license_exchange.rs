use base64::Engine;
use ramdl::error::{Error, LicenseError};
use ramdl::hex_string;
use ramdl::license::{
    build_license_payload, get_decrypt_key, process_license_response, select_content_key,
    ContentKey, DrmSession, ExchangeState, HttpResponse, KeyEntry, LicenseExchangeOrchestrator,
    LicenseTransport, LicenseType,
};

fn b64(data: &[u8]) -> String {
    base64::engine::general_purpose::STANDARD.encode(data)
}

fn entry(key_type: &str, key: &[u8]) -> KeyEntry {
    KeyEntry { key_type: key_type.as_bytes().to_vec(), key: key.to_vec() }
}

#[test]
fn select_content_key_empty_fails() {
    let r = select_content_key(Vec::new());
    assert!(matches!(r, Err(Error::License(LicenseError::KeyNotFound))));
}

#[test]
fn select_content_key_single_match_returned_unchanged() {
    let k = select_content_key(vec![entry("content", &[9u8; 16])]).unwrap();
    assert_eq!(k.key_type, b"content".to_vec());
    assert_eq!(k.key, vec![9u8; 16]);
}

#[test]
fn select_content_key_prefers_content_over_signing() {
    let keys = vec![entry("signing", &[1u8; 16]), entry("content", &[2u8; 16])];
    let k = select_content_key(keys).unwrap();
    assert_eq!(k.key_type, b"content".to_vec());
    assert_eq!(k.key, vec![2u8; 16]);
}

#[test]
fn select_content_key_requires_expected_length() {
    let keys = vec![entry("content", &[1u8; 15]), entry("content", &[2u8; 32])];
    let r = select_content_key(keys);
    assert!(matches!(r, Err(Error::License(LicenseError::KeyNotFound))));
}

#[test]
fn rejected_status_is_server_rejected() {
    let r = process_license_response(403, b"{\"error\":\"forbidden\"}".to_vec());
    match r {
        Err(Error::License(LicenseError::ServerRejected { status, body })) => {
            assert_eq!(status, 403);
            assert_eq!(body, b"{\"error\":\"forbidden\"}".to_vec());
        },
        _ => panic!("expected a server rejection"),
    }
}

#[test]
fn success_without_license_field_is_server_rejected() {
    let r = process_license_response(200, b"{\"status\":\"ok\"}".to_vec());
    match r {
        Err(Error::License(LicenseError::ServerRejected { status, .. })) => {
            assert_eq!(status, 200);
        },
        _ => panic!("expected a server rejection despite the success status"),
    }
}

#[test]
fn success_with_license_field_decodes() {
    let body = format!("{{\"license\": \"{}\"}}", b64(b"license-bytes"));
    let r = process_license_response(200, body.into_bytes()).unwrap();
    assert_eq!(r, b"license-bytes".to_vec());
}

#[test]
fn malformed_license_base64_is_encoding_error() {
    let r = process_license_response(200, b"{\"license\": \"%%%\"}".to_vec());
    assert!(matches!(r, Err(Error::Encoding)));
}

#[test]
fn payload_embeds_encoded_challenge_and_fields() {
    let challenge = b"the-challenge".to_vec();
    let payload = build_license_payload(&challenge, "skd://abc", "12345");
    let text = String::from_utf8(payload).unwrap();
    let expected = format!(
        "{{\"challenge\":\"{}\",\"key-system\":\"com.widevine.alpha\",\"uri\":\"skd://abc\",\"adamId\":\"12345\",\"isLibrary\":false,\"user-initiated\":true}}",
        b64(b"the-challenge")
    );
    assert_eq!(text, expected);
}

#[test]
fn payload_escapes_quotes_and_backslashes() {
    let payload = build_license_payload(&Vec::new(), "a\"b\\c", "x");
    let text = String::from_utf8(payload).unwrap();
    assert!(text.contains("\"uri\":\"a\\\"b\\\\c\""));
}

#[test]
fn hex_string_expands_bytes() {
    let s = hex_string(&[0x00, 0xab, 0x0f, 0xff]);
    assert_eq!(s, "00ab0fff");
}

struct FakeSession {
    challenge_result: Result<Vec<u8>, String>,
    keys_result: Result<Vec<(String, Vec<u8>)>, String>,
    seen_header: Vec<u8>,
    seen_license: Vec<u8>,
}

impl DrmSession for FakeSession {
    fn build_challenge(
        &mut self,
        header: &Vec<u8>,
        _license_type: LicenseType,
    ) -> Result<Vec<u8>, String> {
        self.seen_header = header.clone();
        self.challenge_result.clone()
    }

    fn parse_license(&mut self, license: &Vec<u8>) -> Result<Vec<KeyEntry>, String> {
        self.seen_license = license.clone();
        self.keys_result.clone().map(|keys| {
            keys.into_iter()
                .map(|(t, k)| KeyEntry { key_type: t.into_bytes(), key: k })
                .collect()
        })
    }
}

struct FakeTransport {
    response: Result<(u16, Vec<u8>), String>,
    seen_url: String,
    seen_body: Vec<u8>,
}

impl LicenseTransport for FakeTransport {
    fn send(&mut self, url: &str, body: &Vec<u8>) -> Result<HttpResponse, String> {
        self.seen_url = url.to_string();
        self.seen_body = body.clone();
        self.response
            .clone()
            .map(|(status, body)| HttpResponse { status, body })
    }
}

fn happy_session() -> FakeSession {
    FakeSession {
        challenge_result: Ok(b"challenge-bytes".to_vec()),
        keys_result: Ok(vec![
            ("signing".to_string(), vec![1u8; 32]),
            ("content".to_string(), vec![0xA5u8; 16]),
        ]),
        seen_header: Vec::new(),
        seen_license: Vec::new(),
    }
}

fn happy_transport() -> FakeTransport {
    let body = format!("{{\"license\": \"{}\"}}", b64(b"license-bytes"));
    FakeTransport {
        response: Ok((200, body.into_bytes())),
        seen_url: String::new(),
        seen_body: Vec::new(),
    }
}

fn identifier() -> String {
    format!("skd://item,{}", b64(&[0x11u8; 16]))
}

#[test]
fn exchange_resolves_content_key_hex() {
    let mut session = happy_session();
    let mut transport = happy_transport();
    let key = get_decrypt_key(&mut session, &mut transport, &identifier(), "1753050648").unwrap();
    assert_eq!(key.len(), 32);
    assert_eq!(key, "a5".repeat(16));
    // the session got the serialized protection header
    assert_eq!(&session.seen_header[4..8], b"pssh");
    // the transport got the fixed endpoint and the encoded challenge
    assert_eq!(transport.seen_url, ramdl::LICENSE_API_URL);
    let sent = String::from_utf8(transport.seen_body).unwrap();
    assert!(sent.contains(&b64(b"challenge-bytes")));
    assert!(sent.contains("\"adamId\":\"1753050648\""));
    // the session parsed the decoded license bytes
    assert_eq!(session.seen_license, b"license-bytes".to_vec());
}

#[test]
fn exchange_rejected_challenge_fails() {
    let mut session = happy_session();
    session.challenge_result = Err("refused".to_string());
    let mut transport = happy_transport();
    let r = get_decrypt_key(&mut session, &mut transport, &identifier(), "1");
    assert!(matches!(
        r,
        Err(Error::License(LicenseError::ChallengeBuildFailed))
    ));
}

#[test]
fn exchange_transport_failure_is_network_error() {
    let mut session = happy_session();
    let mut transport = happy_transport();
    transport.response = Err("timeout".to_string());
    let r = get_decrypt_key(&mut session, &mut transport, &identifier(), "1");
    assert!(matches!(r, Err(Error::Network)));
}

#[test]
fn exchange_unreadable_license_fails() {
    let mut session = happy_session();
    session.keys_result = Err("bad license".to_string());
    let mut transport = happy_transport();
    let r = get_decrypt_key(&mut session, &mut transport, &identifier(), "1");
    assert!(matches!(
        r,
        Err(Error::License(LicenseError::ResponseParseFailed))
    ));
}

#[test]
fn exchange_server_rejection_carries_status_and_body() {
    let mut session = happy_session();
    let mut transport = happy_transport();
    transport.response = Ok((403, b"{\"error\":\"forbidden\"}".to_vec()));
    let r = get_decrypt_key(&mut session, &mut transport, &identifier(), "1");
    match r {
        Err(Error::License(LicenseError::ServerRejected { status, body })) => {
            assert_eq!(status, 403);
            assert_eq!(body, b"{\"error\":\"forbidden\"}".to_vec());
        },
        _ => panic!("expected a server rejection"),
    }
}

#[test]
fn exchange_bad_identifier_is_encoding_error() {
    let mut session = happy_session();
    let mut transport = happy_transport();
    let r = get_decrypt_key(&mut session, &mut transport, "skd://x,%%%", "1");
    assert!(matches!(r, Err(Error::Encoding)));
}

#[test]
fn orchestrator_tracks_exchange_state() {
    let mut orchestrator =
        LicenseExchangeOrchestrator::open_session(happy_session(), happy_transport());
    assert!(matches!(orchestrator.state, ExchangeState::SessionOpened));
    let key = orchestrator.resolve(&identifier(), "1753050648").unwrap();
    assert_eq!(key.len(), 32);
    assert!(matches!(orchestrator.state, ExchangeState::Closed));
}

#[test]
fn orchestrator_marks_failure() {
    let mut session = happy_session();
    session.challenge_result = Err("refused".to_string());
    let mut orchestrator = LicenseExchangeOrchestrator::open_session(session, happy_transport());
    assert!(orchestrator.resolve(&identifier(), "1").is_err());
    assert!(matches!(orchestrator.state, ExchangeState::Failed));
}

#[test]
fn content_key_fields_are_public() {
    let k = ContentKey { key_type: b"content".to_vec(), key: vec![0u8; 16] };
    assert_eq!(k.key.len(), 16);
}
