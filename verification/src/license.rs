//! The license exchange: build a challenge through the injected DRM session
//! capability, send it to the license endpoint through the injected HTTP
//! capability, classify the response, and select the content key.
//!
//! A license challenge is tied to a single session and must not be replayed:
//! no step retries, and a caller that wants to retry opens a fresh session.
//! The two capabilities are deliberately opaque: nothing is assumed of what
//! they return, and every decision taken on their results is verified for
//! every value they could hand back.

use crate::b64::b64_decoded;
use crate::b64::b64_encoded;
use crate::b64::base64_decode;
use crate::b64::base64_encode;
use crate::byteseq::append_bytes;
use crate::byteseq::copy_bytes;
use crate::error::Error;
use crate::error::LicenseError;
use crate::header::build;
use crate::header::spec_identifier_key_id;
use crate::json::parse_json;
use crate::json::sp_json;
use crate::json::sp_obj_get;
use crate::json::JsonValue;
use crate::json::SpecJson;
use vstd::prelude::*;
use vstd::string::StringSliceAdditionalSpecFns;

verus! {

/// The expected byte length of the cipher's content key.
pub const CONTENT_KEY_SIZE: usize = 16;

/// The type tag of a content key.
pub open spec fn content_key_type() -> Seq<u8> {
    "content".spec_bytes()
}

/// The field of a license response that carries the license.
pub open spec fn license_field() -> Seq<u8> {
    "license".spec_bytes()
}

/// The license type requested for playback.
#[derive(Clone, Copy, Debug, PartialEq, Eq, Structural)]
pub enum LicenseType {
    Streaming,
    Offline,
    Automatic,
}

/// One key returned by the session capability: a type tag and raw bytes.
pub struct KeyEntry {
    pub key_type: Vec<u8>,
    pub key: Vec<u8>,
}

/// Mathematical shape of a returned key.
pub struct SpecKeyEntry {
    pub key_type: Seq<u8>,
    pub key: Seq<u8>,
}

impl View for KeyEntry {
    type V = SpecKeyEntry;

    open spec fn view(&self) -> SpecKeyEntry {
        SpecKeyEntry { key_type: self.key_type@, key: self.key@ }
    }
}

/// The selected content key: type tag and raw bytes of the expected length.
pub struct ContentKey {
    pub key_type: Vec<u8>,
    pub key: Vec<u8>,
}

/// Views of a key list, pointwise.
pub open spec fn ke_views(s: Seq<KeyEntry>) -> Seq<SpecKeyEntry>
    decreases s,
{
    if s.len() == 0 {
        Seq::<SpecKeyEntry>::empty()
    } else {
        seq![s[0]@] + ke_views(s.skip(1))
    }
}

pub proof fn lemma_ke_views_len(s: Seq<KeyEntry>)
    ensures
        ke_views(s).len() == s.len(),
    decreases s.len(),
{
    if s.len() > 0 {
        lemma_ke_views_len(s.skip(1));
    }
}

pub proof fn lemma_ke_views_index(s: Seq<KeyEntry>, i: int)
    requires
        0 <= i < s.len(),
    ensures
        ke_views(s).len() == s.len(),
        ke_views(s)[i] == s[i]@,
    decreases i,
{
    lemma_ke_views_len(s);
    if i > 0 {
        lemma_ke_views_index(s.skip(1), i - 1);
    }
}

/// An HTTP answer of the license endpoint: status code and raw body.
pub struct HttpResponse {
    pub status: u16,
    pub body: Vec<u8>,
}

/// The DRM session capability: it turns a protection header into a license
/// challenge and a license into raw key material. One value of it belongs to
/// exactly one resolution; it is injected, and nothing here is assumed of
/// what it returns.
pub trait DrmSession {
    /// Build the license challenge for a protection header.
    fn build_challenge(&mut self, header: &Vec<u8>, license_type: LicenseType) -> Result<
        Vec<u8>,
        String,
    >;

    /// Recover the returned keys from validated license bytes.
    fn parse_license(&mut self, license: &Vec<u8>) -> Result<Vec<KeyEntry>, String>;
}

/// The HTTP capability: one authenticated POST of a JSON body to a URL.
/// Injected; nothing here is assumed of what it returns.
pub trait LicenseTransport {
    /// Send the body and hand back status and body of the answer.
    fn send(&mut self, url: &str, body: &Vec<u8>) -> Result<HttpResponse, String>;
}

/// The stages of a per-track exchange, in order. A constructed orchestrator
/// has already left `Idle` by taking its session; any failure moves to
/// `Failed` and aborts only this track's resolution.
#[derive(Clone, Copy, Debug, PartialEq, Eq, Structural)]
pub enum ExchangeState {
    Idle,
    SessionOpened,
    ChallengeBuilt,
    ChallengeSent,
    ResponseReceived,
    KeyExtracted,
    Closed,
    Failed,
}

/// The first returned key that carries the content type tag and the
/// expected byte length.
pub open spec fn sp_select_content_key(keys: Seq<SpecKeyEntry>) -> Option<SpecKeyEntry>
    decreases keys.len(),
{
    if keys.len() == 0 {
        None
    } else if keys[0].key_type == content_key_type() && keys[0].key.len() == CONTENT_KEY_SIZE {
        Some(keys[0])
    } else {
        sp_select_content_key(keys.skip(1))
    }
}

/// The selection finds the first qualifying key.
proof fn lemma_select_at(keys: Seq<KeyEntry>, i: int)
    requires
        0 <= i < keys.len(),
        keys[i].key_type@ == content_key_type(),
        keys[i].key@.len() == CONTENT_KEY_SIZE,
        forall|j: int|
            0 <= j < i ==> !(#[trigger] keys[j].key_type@ == content_key_type()
                && keys[j].key@.len() == CONTENT_KEY_SIZE),
    ensures
        sp_select_content_key(ke_views(keys)) == Some(keys[i]@),
    decreases i,
{
    lemma_ke_views_len(keys);
    lemma_ke_views_index(keys, i);
    if i == 0 {
    } else {
        lemma_ke_views_index(keys, 0);
        assert(ke_views(keys).skip(1) =~= ke_views(keys.skip(1)));
        lemma_select_at(keys.skip(1), i - 1);
    }
}

/// The selection misses exactly when no key qualifies.
proof fn lemma_select_none(keys: Seq<KeyEntry>)
    requires
        forall|j: int|
            0 <= j < keys.len() ==> !(#[trigger] keys[j].key_type@ == content_key_type()
                && keys[j].key@.len() == CONTENT_KEY_SIZE),
    ensures
        sp_select_content_key(ke_views(keys)) is None,
    decreases keys.len(),
{
    lemma_ke_views_len(keys);
    if keys.len() > 0 {
        lemma_ke_views_index(keys, 0);
        assert(ke_views(keys).skip(1) =~= ke_views(keys.skip(1)));
        lemma_select_none(keys.skip(1));
    }
}

/// Select the content key among the returned keys: the first entry whose
/// type tag is `content` and whose byte length equals the cipher's key size;
/// the key-not-found failure exactly when none qualifies. An empty list
/// always fails.
pub fn select_content_key(keys: Vec<KeyEntry>) -> (r: Result<ContentKey, Error>)
    ensures
        match r {
            Ok(k) => sp_select_content_key(ke_views(keys@)) == Some(
                SpecKeyEntry { key_type: k.key_type@, key: k.key@ },
            ) && k.key_type@ == content_key_type() && k.key@.len() == CONTENT_KEY_SIZE,
            Err(e) => e == Error::License(LicenseError::KeyNotFound) && sp_select_content_key(
                ke_views(keys@),
            ) is None,
        },
{
    let mut i: usize = 0;
    while i < keys.len()
        invariant
            i <= keys@.len(),
            forall|j: int|
                0 <= j < i ==> !(#[trigger] keys@[j].key_type@ == content_key_type()
                    && keys@[j].key@.len() == CONTENT_KEY_SIZE),
        decreases keys@.len() - i,
    {
        if crate::byteseq::bytes_eq(keys[i].key_type.as_slice(), "content".as_bytes()) && keys[i].key.len()
            == CONTENT_KEY_SIZE {
            proof {
                lemma_select_at(keys@, i as int);
            }
            let key_type = copy_bytes(&keys[i].key_type);
            let key = copy_bytes(&keys[i].key);
            return Ok(ContentKey { key_type, key });
        }
        i += 1;
    }
    proof {
        lemma_select_none(keys@);
    }
    Err(Error::License(LicenseError::KeyNotFound))
}

/// What one byte of a JSON string field is serialized to.
pub open spec fn sp_escape_byte(b: u8) -> Seq<u8> {
    if b == 34 {
        seq![92u8, 34u8]
    } else if b == 92 {
        seq![92u8, 92u8]
    } else {
        seq![b]
    }
}

/// JSON string-field escaping: quote and backslash escaped, everything else
/// carried through.
pub open spec fn sp_escape_json(s: Seq<u8>) -> Seq<u8>
    decreases s.len(),
{
    if s.len() == 0 {
        Seq::<u8>::empty()
    } else {
        sp_escape_byte(s[0]) + sp_escape_json(s.skip(1))
    }
}

/// Adding a byte extends the escaping by that byte's expansion.
proof fn lemma_sp_escape_push(s: Seq<u8>, x: u8)
    ensures
        sp_escape_json(s.push(x)) == sp_escape_json(s) + sp_escape_byte(x),
    decreases s.len(),
{
    if s.len() == 0 {
        assert(s.push(x)[0] == x);
        assert(s.push(x).skip(1) =~= Seq::<u8>::empty());
        assert(sp_escape_json(Seq::<u8>::empty()) =~= Seq::<u8>::empty());
        assert(sp_escape_json(s.push(x)) =~= sp_escape_json(s) + sp_escape_byte(x));
    } else {
        assert(s.push(x)[0] == s[0]);
        assert(s.push(x).skip(1) =~= s.skip(1).push(x));
        lemma_sp_escape_push(s.skip(1), x);
        assert(sp_escape_json(s.push(x)) =~= sp_escape_json(s) + sp_escape_byte(x));
    }
}

/// Append the escaped form of `src` to `dst`.
fn append_escaped(dst: &mut Vec<u8>, src: &[u8])
    ensures
        final(dst)@ == old(dst)@ + sp_escape_json(src@),
{
    proof {
        assert(src@.take(0) =~= Seq::<u8>::empty());
        assert(sp_escape_json(Seq::<u8>::empty()) =~= Seq::<u8>::empty());
        assert(dst@ =~= dst@ + sp_escape_json(src@.take(0)));
    }
    let mut i: usize = 0;
    while i < src.len()
        invariant
            i <= src@.len(),
            dst@ == old(dst)@ + sp_escape_json(src@.take(i as int)),
        decreases src@.len() - i,
    {
        let b = src[i];
        if b == 34 {
            dst.push(92);
            dst.push(34);
        } else if b == 92 {
            dst.push(92);
            dst.push(92);
        } else {
            dst.push(b);
        }
        proof {
            lemma_sp_escape_push(src@.take(i as int), b);
            assert(src@.take(i + 1 as int) =~= src@.take(i as int).push(src@[i as int]));
            assert(dst@ =~= old(dst)@ + sp_escape_json(src@.take(i + 1 as int)));
        }
        i += 1;
    }
    proof {
        assert(src@.take(src@.len() as int) =~= src@);
    }
}

/// The JSON body sent to the license endpoint, as a function of the
/// base64-encoded challenge, the locator URI and the track identifier.
pub open spec fn sp_license_payload(challenge_b64: Seq<u8>, uri: Seq<u8>, adam_id: Seq<
    u8,
>) -> Seq<u8> {
    "{\"challenge\":\"".spec_bytes() + sp_escape_json(challenge_b64)
        + "\",\"key-system\":\"com.widevine.alpha\",\"uri\":\"".spec_bytes() + sp_escape_json(uri)
        + "\",\"adamId\":\"".spec_bytes() + sp_escape_json(adam_id)
        + "\",\"isLibrary\":false,\"user-initiated\":true}".spec_bytes()
}

/// Serialize the license-request body: the challenge base64-encoded, the
/// fixed key-system literal, the locator URI and the track identifier, the
/// two fixed flags.
pub fn build_license_payload(challenge: &Vec<u8>, uri: &str, adam_id: &str) -> (r: Vec<u8>)
    requires
        challenge@.len() < 0x4000000000000000,
    ensures
        r@ == sp_license_payload(
            b64_encoded(challenge@),
            uri.spec_bytes(),
            adam_id.spec_bytes(),
        ),
{
    let b64 = base64_encode(challenge.as_slice());
    let mut out: Vec<u8> = Vec::new();
    append_bytes(&mut out, "{\"challenge\":\"".as_bytes());
    append_escaped(&mut out, b64.as_slice());
    append_bytes(&mut out, "\",\"key-system\":\"com.widevine.alpha\",\"uri\":\"".as_bytes());
    append_escaped(&mut out, uri.as_bytes());
    append_bytes(&mut out, "\",\"adamId\":\"".as_bytes());
    append_escaped(&mut out, adam_id.as_bytes());
    append_bytes(&mut out, "\",\"isLibrary\":false,\"user-initiated\":true}".as_bytes());
    out
}

/// The base64 license string a response body carries, when it carries one:
/// the body must be a JSON object with a string under the license field.
pub open spec fn sp_license_field_of(body: Seq<u8>) -> Option<Seq<u8>> {
    match sp_json(body) {
        Some(SpecJson::Object(fields)) => match sp_obj_get(fields, license_field()) {
            Some(SpecJson::Str(s)) => Some(s),
            _ => None,
        },
        _ => None,
    }
}

/// Classify a license answer. A non-success status is rejected with status
/// and body; a success status whose body carries no usable license field is
/// rejected the same way, success status notwithstanding; a license field
/// that is not valid base64 is an encoding failure; otherwise the decoded
/// license bytes are returned.
pub fn process_license_response(status: u16, body: Vec<u8>) -> (r: Result<Vec<u8>, Error>)
    ensures
        match r {
            Ok(v) => 200 <= status < 300 && (sp_license_field_of(body@) matches Some(s)
                && b64_decoded(s) == Some(v@)),
            Err(e) => match e {
                Error::License(le) => (le matches LicenseError::ServerRejected {
                    status: st,
                    body: b,
                } && st == status && b@ == body@) && (!(200 <= status < 300)
                    || sp_license_field_of(body@) is None),
                Error::Encoding => 200 <= status < 300 && (sp_license_field_of(
                    body@,
                ) matches Some(s) && b64_decoded(s) is None),
                _ => false,
            },
        },
{
    if !(200 <= status && status < 300) {
        return Err(Error::License(LicenseError::ServerRejected { status, body }));
    }
    let parsed = match parse_json(body.as_slice()) {
        Some(v) => v,
        None => {
            return Err(Error::License(LicenseError::ServerRejected { status, body }));
        },
    };
    let fields = match &parsed {
        JsonValue::Object(fields) => fields,
        _ => {
            return Err(Error::License(LicenseError::ServerRejected { status, body }));
        },
    };
    let b64s = match crate::json::obj_get(fields, "license".as_bytes()) {
        Some(JsonValue::Str(s)) => s,
        _ => {
            return Err(Error::License(LicenseError::ServerRejected { status, body }));
        },
    };
    match base64_decode(b64s.as_slice()) {
        Some(license) => Ok(license),
        None => Err(Error::Encoding),
    }
}

/// Run the whole exchange for one track: build the protection header from
/// the textual identifier, have the session capability turn it into a
/// challenge, post the challenge to the fixed license endpoint, classify the
/// answer, have the session capability recover the keys, select the content
/// key, and hand it out hex-encoded.
///
/// The capabilities are opaque, so the contract states what holds whatever
/// they returned: a successful resolution always yields the lower-case hex
/// expansion of a content key of the expected size, and an identifier whose
/// final component is not base64 always fails with the encoding error. A
/// challenge too large for the base64 engine (a machine limit the contract
/// cannot see, since nothing is assumed of the capability's result) is
/// rejected as a failed challenge build.
pub fn get_decrypt_key<S: DrmSession, T: LicenseTransport>(
    session: &mut S,
    transport: &mut T,
    pssh: &str,
    track_id: &str,
) -> (r: Result<String, Error>)
    requires
        pssh.spec_bytes().len() < 0x10000000,
    ensures
        (r matches Ok(key) ==> key@.len() == 2 * CONTENT_KEY_SIZE),
        (r matches Ok(key) ==> forall|i: int|
            0 <= i < key@.len() ==> (48 <= #[trigger] key@[i] as u32 <= 57 || 97 <= key@[i] as u32
                <= 102)),
        (r is Ok ==> spec_identifier_key_id(pssh.spec_bytes()) is Some),
        (spec_identifier_key_id(pssh.spec_bytes()) is None ==> (r matches Err(e) && e is Encoding)),
{
    let header = match build(pssh) {
        Ok(h) => h,
        Err(e) => {
            return Err(e);
        },
    };
    let challenge = match session.build_challenge(&header, LicenseType::Streaming) {
        Ok(c) => c,
        Err(_) => {
            return Err(Error::License(LicenseError::ChallengeBuildFailed));
        },
    };
    if challenge.len() >= 0x40000000 {
        return Err(Error::License(LicenseError::ChallengeBuildFailed));
    }
    let payload = build_license_payload(&challenge, pssh, track_id);
    let response = match transport.send(crate::LICENSE_API_URL, &payload) {
        Ok(resp) => resp,
        Err(_) => {
            return Err(Error::Network);
        },
    };
    let license = match process_license_response(response.status, response.body) {
        Ok(l) => l,
        Err(e) => {
            return Err(e);
        },
    };
    let keys = match session.parse_license(&license) {
        Ok(ks) => ks,
        Err(_) => {
            return Err(Error::License(LicenseError::ResponseParseFailed));
        },
    };
    let key = match select_content_key(keys) {
        Ok(k) => k,
        Err(e) => {
            return Err(e);
        },
    };
    Ok(crate::hex_string(key.key.as_slice()))
}

/// The per-track license orchestrator: it owns its two capabilities for the
/// lifetime of one resolution and records where the exchange stands. One
/// instance handles exactly one track and is not reused.
pub struct LicenseExchangeOrchestrator<S: DrmSession, T: LicenseTransport> {
    pub session: S,
    pub transport: T,
    pub state: ExchangeState,
}

impl<S: DrmSession, T: LicenseTransport> LicenseExchangeOrchestrator<S, T> {
    /// Take exclusive ownership of a fresh session and transport.
    pub fn open_session(session: S, transport: T) -> (r: Self)
        ensures
            r.state == ExchangeState::SessionOpened,
    {
        LicenseExchangeOrchestrator { session, transport, state: ExchangeState::SessionOpened }
    }

    /// Resolve one track's content key, stepping through the exchange:
    /// challenge built, challenge sent, response received, key extracted,
    /// then closed; any failure stops the exchange where it stands and
    /// marks it failed. Afterwards the exchange is finished either way. As
    /// with the free-standing exchange, an identifier whose final component
    /// is not base64 always fails with the encoding error, and an oversized
    /// challenge is rejected as a failed challenge build.
    pub fn resolve(&mut self, pssh: &str, track_id: &str) -> (r: Result<String, Error>)
        requires
            pssh.spec_bytes().len() < 0x10000000,
            old(self).state == ExchangeState::SessionOpened,
        ensures
            (r matches Ok(key) ==> key@.len() == 2 * CONTENT_KEY_SIZE),
            (r matches Ok(key) ==> forall|i: int|
                0 <= i < key@.len() ==> (48 <= #[trigger] key@[i] as u32 <= 57
                    || 97 <= key@[i] as u32 <= 102)),
            (r is Ok ==> spec_identifier_key_id(pssh.spec_bytes()) is Some),
            (spec_identifier_key_id(pssh.spec_bytes()) is None ==> (r matches Err(e)
                && e is Encoding)),
            final(self).state == if r is Ok {
                ExchangeState::Closed
            } else {
                ExchangeState::Failed
            },
    {
        let header = match build(pssh) {
            Ok(h) => h,
            Err(e) => {
                self.state = ExchangeState::Failed;
                return Err(e);
            },
        };
        let challenge = match self.session.build_challenge(&header, LicenseType::Streaming) {
            Ok(c) => c,
            Err(_) => {
                self.state = ExchangeState::Failed;
                return Err(Error::License(LicenseError::ChallengeBuildFailed));
            },
        };
        if challenge.len() >= 0x40000000 {
            self.state = ExchangeState::Failed;
            return Err(Error::License(LicenseError::ChallengeBuildFailed));
        }
        self.state = ExchangeState::ChallengeBuilt;
        let payload = build_license_payload(&challenge, pssh, track_id);
        self.state = ExchangeState::ChallengeSent;
        let response = match self.transport.send(crate::LICENSE_API_URL, &payload) {
            Ok(resp) => resp,
            Err(_) => {
                self.state = ExchangeState::Failed;
                return Err(Error::Network);
            },
        };
        self.state = ExchangeState::ResponseReceived;
        let license = match process_license_response(response.status, response.body) {
            Ok(l) => l,
            Err(e) => {
                self.state = ExchangeState::Failed;
                return Err(e);
            },
        };
        let keys = match self.session.parse_license(&license) {
            Ok(ks) => ks,
            Err(_) => {
                self.state = ExchangeState::Failed;
                return Err(Error::License(LicenseError::ResponseParseFailed));
            },
        };
        let key = match select_content_key(keys) {
            Ok(k) => k,
            Err(e) => {
                self.state = ExchangeState::Failed;
                return Err(e);
            },
        };
        self.state = ExchangeState::KeyExtracted;
        let hex = crate::hex_string(key.key.as_slice());
        self.state = ExchangeState::Closed;
        Ok(hex)
    }
}

} // verus!
