//! Signed `AssumeRole` requests for temporary object-store credentials, and the resource
//! names that scope such credentials to the granted object keys.

use vstd::prelude::*;
use vstd::utf8::encode_utf8;

use crate::text::{concat, decimal, is_digit, push_char, u64_text};

verus! {

/// Main-account key pair and the role whose temporary credentials are requested.
#[derive(Debug, Clone)]
pub struct StsConfig {
    pub access_key_id: String,
    pub access_key_secret: String,
    pub role_arn: String,
}

/// Temporary credentials returned by `AssumeRole`.
#[derive(Debug, Clone)]
pub struct StsToken {
    pub access_key_id: String,
    pub access_key_secret: String,
    pub security_token: String,
    pub expiration: String,
}

impl StsConfig {
    /// Settings from the values of `OSS_ACCESS_KEY_ID`, `OSS_ACCESS_KEY_SECRET` and
    /// `OSS_STS_ROLE_ARN`; `None` unless all three are set.
    pub fn from_env(access_key_id: Option<String>, access_key_secret: Option<String>, role_arn: Option<String>) -> (res: Option<StsConfig>)
        ensures
            res is Some <==> (access_key_id is Some && access_key_secret is Some && role_arn is Some),
            res matches Some(c) ==> c.access_key_id == access_key_id->0
                && c.access_key_secret == access_key_secret->0 && c.role_arn == role_arn->0,
    {
        match (access_key_id, access_key_secret, role_arn) {
            (Some(access_key_id), Some(access_key_secret), Some(role_arn)) => Some(StsConfig { access_key_id, access_key_secret, role_arn }),
            _ => None,
        }
    }
}

// ---------------------------------------------------------------------------
// Names for results of outside functions.

/// The HMAC-SHA1 tag that `hmac::Hmac<sha1::Sha1>` computes for `msg` under `key`.
pub uninterp spec fn hmac_sha1_of(key: Seq<u8>, msg: Seq<u8>) -> Seq<u8>;

/// The text that the standard base64 engine (`base64::engine::general_purpose::STANDARD`)
/// encodes `bytes` to.
pub uninterp spec fn base64_of(bytes: Seq<u8>) -> Seq<char>;

/// HMAC-SHA1 of `msg` under `key` (`Hmac::<Sha1>::new_from_slice`, `update`, `finalize`).
/// HMAC accepts keys of every length, so the key is never refused.
#[verifier::external_body]
pub(crate) fn hmac_sha1(key: &[u8], msg: &[u8]) -> (tag: Vec<u8>)
    ensures
        tag@ == hmac_sha1_of(key@, msg@),
{
    let mut mac = <hmac::Hmac<sha1::Sha1> as hmac::Mac>::new_from_slice(key).expect("HMAC takes keys of any length");
    hmac::Mac::update(&mut mac, msg);
    hmac::Mac::finalize(mac).into_bytes().to_vec()
}

/// Standard base64 (with padding) of `bytes`.
#[verifier::external_body]
pub(crate) fn base64_standard(bytes: &[u8]) -> (text: String)
    ensures
        text@ == base64_of(bytes@),
{
    base64::Engine::encode(&base64::engine::general_purpose::STANDARD, bytes)
}

/// Whether `s` has the form chrono writes for `%Y-%m-%dT%H:%M:%SZ`: a year of at least
/// four characters, then `-MM-DDTHH:MM:SSZ` with two digits in each field.
pub open spec fn timestamp_shaped(s: Seq<char>) -> bool {
    let n = s.len() as int;
    &&& n >= 20
    &&& s[n - 16] == '-' && s[n - 13] == '-' && s[n - 10] == 'T'
    &&& s[n - 7] == ':' && s[n - 4] == ':' && s[n - 1] == 'Z'
    &&& forall|i: int| #![trigger s[i]] n - 16 < i < n - 1 && i != n - 13 && i != n - 10 && i != n - 7 && i != n - 4
        ==> is_digit(s[i])
}

/// Current UTC time as `YYYY-MM-DDTHH:MM:SSZ` (`chrono::Utc::now` formatted). Which time
/// it is depends on the clock; every outcome has the shape of `timestamp_shaped`.
#[verifier::external_body]
pub(crate) fn utc_timestamp() -> (ts: String)
    ensures
        timestamp_shaped(ts@),
{
    chrono::Utc::now().format("%Y-%m-%dT%H:%M:%SZ").to_string()
}

/// A random `u64` (`rand::rng().random()`); nothing is stated of its value.
#[verifier::external_body]
pub(crate) fn random_u64() -> (n: u64) {
    rand::Rng::random(&mut rand::rng())
}

// ---------------------------------------------------------------------------
// Percent encoding.

/// Bytes left as they are by the strict encoding: RFC 3986 unreserved characters.
pub open spec fn is_unreserved(b: u8) -> bool {
    (65 <= b <= 90) || (97 <= b <= 122) || (48 <= b <= 57) || b == 45 || b == 95 || b == 46 || b == 126
}

/// Uppercase hexadecimal digit of `d < 16`.
pub open spec fn hex_upper(d: nat) -> char {
    if d < 10 {
        (('0' as u32) + d) as char
    } else {
        (('A' as u32) + (d - 10)) as char
    }
}

/// Encoded form of one byte: itself when unreserved, else `%XX` in uppercase hex.
pub open spec fn encoded_byte(b: u8) -> Seq<char> {
    if is_unreserved(b) {
        seq![(b as u32) as char]
    } else {
        seq!['%', hex_upper((b / 16) as nat), hex_upper((b % 16) as nat)]
    }
}

/// Strict percent encoding of a byte string.
pub open spec fn percent_encoded(bytes: Seq<u8>) -> Seq<char>
    decreases bytes.len(),
{
    if bytes.len() == 0 {
        Seq::empty()
    } else {
        percent_encoded(bytes.drop_last()) + encoded_byte(bytes.last())
    }
}

/// Strict percent encoding of a string's UTF-8 bytes.
pub open spec fn percent_of(s: Seq<char>) -> Seq<char> {
    percent_encoded(encode_utf8(s))
}

fn upper_hex(d: u8) -> (c: char)
    requires
        d < 16,
    ensures
        c == hex_upper(d as nat),
{
    match d {
        0 => '0',
        1 => '1',
        2 => '2',
        3 => '3',
        4 => '4',
        5 => '5',
        6 => '6',
        7 => '7',
        8 => '8',
        9 => '9',
        10 => 'A',
        11 => 'B',
        12 => 'C',
        13 => 'D',
        14 => 'E',
        _ => 'F',
    }
}

/// Percent-encodes `s` as the signature scheme requires: unreserved ASCII characters
/// are kept and every other UTF-8 byte becomes `%XX`.
pub fn encode(s: &str) -> (res: String)
    ensures
        res@ == percent_of(s@),
{
    let bytes = s.as_bytes();
    let mut out = String::new();
    let n = bytes.len();
    for i in 0..n
        invariant
            n == bytes@.len(),
            bytes@ == encode_utf8(s@),
            out@ == percent_encoded(bytes@.take(i as int)),
    {
        let b = bytes[i];
        if (65 <= b && b <= 90) || (97 <= b && b <= 122) || (48 <= b && b <= 57) || b == 45 || b == 95 || b == 46 || b == 126 {
            push_char(&mut out, b as char);
        } else {
            push_char(&mut out, '%');
            push_char(&mut out, upper_hex(b / 16));
            push_char(&mut out, upper_hex(b % 16));
        }
        assert(bytes@.take(i + 1).drop_last() =~= bytes@.take(i as int));
    }
    assert(bytes@.take(n as int) =~= bytes@);
    out
}

// ---------------------------------------------------------------------------
// Request signing.

/// Parameters of an `AssumeRole` call, in ascending key order (the order in which they
/// are signed and sent).
pub open spec fn assume_role_params(
    cfg: StsConfig,
    session: Seq<char>,
    policy: Option<Seq<char>>,
    duration_secs: u32,
    nonce: u64,
    timestamp: Seq<char>,
) -> Seq<(Seq<char>, Seq<char>)> {
    let head = seq![
        ("AccessKeyId"@, cfg.access_key_id@),
        ("Action"@, "AssumeRole"@),
        ("DurationSeconds"@, decimal(duration_secs as nat)),
        ("Format"@, "JSON"@),
    ];
    let tail = seq![
        ("RoleArn"@, cfg.role_arn@),
        ("RoleSessionName"@, session),
        ("SignatureMethod"@, "HMAC-SHA1"@),
        ("SignatureNonce"@, decimal(nonce as nat)),
        ("SignatureVersion"@, "1.0"@),
        ("Timestamp"@, timestamp),
        ("Version"@, "2015-04-01"@),
    ];
    match policy {
        Some(p) => head + seq![("Policy"@, p)] + tail,
        None => head + tail,
    }
}

/// `key=value` pairs, each side percent-encoded, joined by `&`.
pub open spec fn query_of(params: Seq<(Seq<char>, Seq<char>)>) -> Seq<char>
    decreases params.len(),
{
    if params.len() == 0 {
        Seq::empty()
    } else if params.len() == 1 {
        percent_of(params[0].0) + "="@ + percent_of(params[0].1)
    } else {
        query_of(params.drop_last()) + "&"@ + percent_of(params.last().0) + "="@ + percent_of(params.last().1)
    }
}

/// The text that is signed: `POST&%2F&` followed by the encoded query.
pub open spec fn string_to_sign_of(query: Seq<char>) -> Seq<char> {
    "POST&"@ + percent_of("/"@) + "&"@ + percent_of(query)
}

/// Signature of a query under the secret: base64 of HMAC-SHA1 keyed by `secret&`.
pub open spec fn signature_of(secret: Seq<char>, query: Seq<char>) -> Seq<char> {
    base64_of(hmac_sha1_of(encode_utf8(secret + "&"@), encode_utf8(string_to_sign_of(query))))
}

/// Form body of a signed `AssumeRole` request: the query, then `&Signature=` and the
/// encoded signature.
pub open spec fn signed_body_of(cfg: StsConfig, session: Seq<char>, policy: Option<Seq<char>>, duration_secs: u32, nonce: u64, timestamp: Seq<char>) -> Seq<char> {
    let query = query_of(assume_role_params(cfg, session, policy, duration_secs, nonce, timestamp));
    query + "&Signature="@ + percent_of(signature_of(cfg.access_key_secret@, query))
}

fn push_param(query: String, Ghost(ps): Ghost<Seq<(Seq<char>, Seq<char>)>>, key: &str, value: &str) -> (res: String)
    requires
        query@ == query_of(ps),
    ensures
        res@ == query_of(ps.push((key@, value@))),
{
    proof {
        assert(ps.push((key@, value@)).drop_last() =~= ps);
    }
    let head = if ps_is_empty(Ghost(ps), &query) { String::new() } else { concat(query.as_str(), "&") };
    let a = concat(head.as_str(), encode(key).as_str());
    let b = concat(a.as_str(), "=");
    concat(b.as_str(), encode(value).as_str())
}

/// Whether no parameter has been written yet (the query is empty exactly then, as every
/// parameter contributes at least its `=`).
fn ps_is_empty(Ghost(ps): Ghost<Seq<(Seq<char>, Seq<char>)>>, query: &String) -> (res: bool)
    requires
        query@ == query_of(ps),
    ensures
        res == (ps.len() == 0),
{
    proof {
        lemma_query_nonempty(ps);
    }
    query.as_str().is_empty()
}

proof fn lemma_query_nonempty(ps: Seq<(Seq<char>, Seq<char>)>)
    ensures
        ps.len() > 0 ==> query_of(ps).len() > 0,
{
    reveal_strlit("=");
    if ps.len() == 1 {
        assert(query_of(ps).len() >= 1);
    } else if ps.len() > 1 {
        assert(query_of(ps).len() >= 1);
    }
}

/// The views of key/value pairs of strings.
pub open spec fn pairs_view(ps: Seq<(String, String)>) -> Seq<(Seq<char>, Seq<char>)> {
    ps.map_values(|p: (String, String)| (p.0@, p.1@))
}

/// The encoded query of key/value pairs, in their order.
fn query_text(params: &Vec<(String, String)>) -> (q: String)
    ensures
        q@ == query_of(pairs_view(params@)),
{
    let mut q = String::new();
    let n = params.len();
    for i in 0..n
        invariant
            n == params@.len(),
            q@ == query_of(pairs_view(params@).take(i as int)),
    {
        let ghost done = pairs_view(params@).take(i as int);
        proof {
            assert(pairs_view(params@).take(i + 1) =~= done.push((params@[i as int].0@, params@[i as int].1@)));
        }
        q = push_param(q, Ghost(done), params[i].0.as_str(), params[i].1.as_str());
    }
    proof {
        assert(pairs_view(params@).take(n as int) =~= pairs_view(params@));
    }
    q
}

/// The sorted, encoded query of the `AssumeRole` parameters.
fn role_query(cfg: &StsConfig, session: &str, policy: Option<&str>, duration_secs: u32, nonce: u64, timestamp: &str) -> (q: String)
    ensures
        q@ == query_of(assume_role_params(*cfg, session@, match policy { Some(p) => Some(p@), None => None }, duration_secs, nonce, timestamp@)),
{
    let mut ps: Vec<(String, String)> = Vec::new();
    ps.push(("AccessKeyId".to_owned(), cfg.access_key_id.clone()));
    ps.push(("Action".to_owned(), "AssumeRole".to_owned()));
    ps.push(("DurationSeconds".to_owned(), u64_text(duration_secs as u64)));
    ps.push(("Format".to_owned(), "JSON".to_owned()));
    let ghost head = pairs_view(ps@);
    match policy {
        Some(p) => ps.push(("Policy".to_owned(), p.to_owned())),
        None => {},
    }
    let ghost middle = pairs_view(ps@);
    ps.push(("RoleArn".to_owned(), cfg.role_arn.clone()));
    ps.push(("RoleSessionName".to_owned(), session.to_owned()));
    ps.push(("SignatureMethod".to_owned(), "HMAC-SHA1".to_owned()));
    ps.push(("SignatureNonce".to_owned(), u64_text(nonce)));
    ps.push(("SignatureVersion".to_owned(), "1.0".to_owned()));
    ps.push(("Timestamp".to_owned(), timestamp.to_owned()));
    ps.push(("Version".to_owned(), "2015-04-01".to_owned()));
    proof {
        let params = assume_role_params(*cfg, session@, match policy { Some(p) => Some(p@), None => None }, duration_secs, nonce, timestamp@);
        let tail = seq![
            ("RoleArn"@, cfg.role_arn@),
            ("RoleSessionName"@, session@),
            ("SignatureMethod"@, "HMAC-SHA1"@),
            ("SignatureNonce"@, decimal(nonce as nat)),
            ("SignatureVersion"@, "1.0"@),
            ("Timestamp"@, timestamp@),
            ("Version"@, "2015-04-01"@),
        ];
        assert(pairs_view(ps@) =~= middle + tail);
        assert(head =~= seq![
            ("AccessKeyId"@, cfg.access_key_id@),
            ("Action"@, "AssumeRole"@),
            ("DurationSeconds"@, decimal(duration_secs as nat)),
            ("Format"@, "JSON"@),
        ]);
        match policy {
            Some(p) => {
                assert(middle =~= head + seq![("Policy"@, p@)]);
            },
            None => {
                assert(middle =~= head);
            },
        }
        assert(pairs_view(ps@) =~= params);
    }
    query_text(&ps)
}

/// The text that is signed for `query`.
pub fn string_to_sign(query: &str) -> (r: String)
    ensures
        r@ == string_to_sign_of(query@),
{
    let a = concat("POST&", encode("/").as_str());
    let b = concat(a.as_str(), "&");
    concat(b.as_str(), encode(query).as_str())
}

/// The form body for `query` once its base64 `signature` is known.
pub fn with_signature(query: &str, signature: &str) -> (body: String)
    ensures
        body@ == query@ + "&Signature="@ + percent_of(signature@),
{
    let with_sig = concat(query, "&Signature=");
    concat(with_sig.as_str(), encode(signature).as_str())
}

/// Form body of the `AssumeRole` request for the given time stamp and nonce.
pub fn signed_body(cfg: &StsConfig, session: &str, policy: Option<&str>, duration_secs: u32, nonce: u64, timestamp: &str) -> (body: String)
    ensures
        body@ == signed_body_of(*cfg, session@, match policy { Some(p) => Some(p@), None => None }, duration_secs, nonce, timestamp@),
{
    let q = role_query(cfg, session, policy, duration_secs, nonce, timestamp);
    let to_sign = string_to_sign(q.as_str());
    let key = concat(cfg.access_key_secret.as_str(), "&");
    let tag = hmac_sha1(key.as_str().as_bytes(), to_sign.as_str().as_bytes());
    let signature = base64_standard(tag.as_slice());
    with_signature(q.as_str(), signature.as_str())
}

/// A signed `AssumeRole` request for the current time and a fresh nonce.
pub struct AssumeRoleRequest {
    pub timestamp: String,
    pub nonce: u64,
    pub body: String,
}

/// Signs an `AssumeRole` request for `session`, optionally narrowed by the inline
/// `policy`, valid for `duration_secs`, stamped with the current time and a random nonce.
pub fn assume_role_request(cfg: &StsConfig, session: &str, policy: Option<&str>, duration_secs: u32) -> (r: AssumeRoleRequest)
    ensures
        r.body@ == signed_body_of(*cfg, session@, match policy { Some(p) => Some(p@), None => None }, duration_secs, r.nonce, r.timestamp@),
        timestamp_shaped(r.timestamp@),
{
    let timestamp = utc_timestamp();
    let nonce = random_u64();
    let body = signed_body(cfg, session, policy, duration_secs, nonce, timestamp.as_str());
    AssumeRoleRequest { timestamp, nonce, body }
}

// ---------------------------------------------------------------------------
// Direct-upload issuer.

/// Issues direct-upload credentials through `AssumeRole`, limited to the granted keys of
/// one bucket.
#[derive(Debug, Clone)]
pub struct AliyunStsIssuer {
    pub sts: StsConfig,
    pub bucket: String,
    pub endpoint: String,
}

impl AliyunStsIssuer {
    pub fn new(sts: StsConfig, bucket: String, endpoint: String) -> (i: AliyunStsIssuer)
        ensures
            i.sts == sts,
            i.bucket == bucket,
            i.endpoint == endpoint,
    {
        AliyunStsIssuer { sts, bucket, endpoint }
    }

    /// Resource names of the granted keys: `acs:oss:*:*:{bucket}/{key}`.
    pub fn resources(&self, keys: &Vec<String>) -> (res: Vec<String>)
        ensures
            res@.len() == keys@.len(),
            forall|i: int| 0 <= i < keys@.len() ==> (#[trigger] res@[i])@ == "acs:oss:*:*:"@ + self.bucket@ + "/"@ + keys@[i]@,
    {
        let mut out: Vec<String> = Vec::new();
        let n = keys.len();
        for i in 0..n
            invariant
                n == keys@.len(),
                out@.len() == i,
                forall|k: int| 0 <= k < i ==> (#[trigger] out@[k])@ == "acs:oss:*:*:"@ + self.bucket@ + "/"@ + keys@[k]@,
        {
            let a = concat("acs:oss:*:*:", self.bucket.as_str());
            let b = concat(a.as_str(), "/");
            out.push(concat(b.as_str(), keys[i].as_str()));
        }
        out
    }
}

} // verus!
