//! Signed identity tokens (Google, Apple): choosing the signing key of a token, checking
//! its RS256 signature, issuer, audience and expiry, and reading its claims.

use vstd::prelude::*;

use crate::auth::model::AuthIdentity;
use crate::auth::providers::{
    apple_identity, apple_key_id, AppleClaims, google_audience_check, google_display, google_key_id,
    google_token_invalid, invalid_google_token, opt_view, token_key,
};
use crate::error::{refuses, unauthorized_refusal, AppError, Refusal};
use crate::text::{before_first, same_text};

verus! {

/// A key of a JSON Web Key set: its id and its RSA modulus and exponent (base64url).
#[derive(Debug, Clone)]
pub struct Jwk {
    pub kid: String,
    pub n: String,
    pub e: String,
}

/// Why a token was not accepted: its key did not decode (with the crate's text), or the
/// token failed the signature, issuer, audience or expiry check.
#[derive(Debug, Clone)]
pub enum JwtRefusal {
    Key(String),
    Token,
}

/// One claim of an accepted token, as its JSON holds it.
#[derive(Debug, Clone)]
pub enum ClaimField {
    Missing,
    Null,
    Text(String),
    Flag(bool),
    Other,
}

/// The claims this library reads from an accepted token.
#[derive(Debug, Clone)]
pub struct JwtClaims {
    pub sub: ClaimField,
    pub email: ClaimField,
    pub email_verified: ClaimField,
    pub name: ClaimField,
    pub picture: ClaimField,
}

/// A claim value as JSON holds it, seen as a mathematical value.
pub enum ClaimValue {
    Missing,
    Null,
    Text(Seq<char>),
    Flag(bool),
    Other,
}

/// The value of a claim field.
pub open spec fn claim_view(f: ClaimField) -> ClaimValue {
    match f {
        ClaimField::Missing => ClaimValue::Missing,
        ClaimField::Null => ClaimValue::Null,
        ClaimField::Text(t) => ClaimValue::Text(t@),
        ClaimField::Flag(b) => ClaimValue::Flag(b),
        ClaimField::Other => ClaimValue::Other,
    }
}

/// The claim `name` of the payload of `token`: the JSON object that `jsonwebtoken` reads
/// from the token's second segment, looked up with `serde_json::Value::get`. It depends
/// on the token text alone.
pub uninterp spec fn payload_claim(token: Seq<char>, name: Seq<char>) -> ClaimValue;

/// `c` holds the claims of `token`'s payload.
pub open spec fn claims_of_token(c: JwtClaims, token: Seq<char>) -> bool {
    &&& claim_view(c.sub) == payload_claim(token, "sub"@)
    &&& claim_view(c.email) == payload_claim(token, "email"@)
    &&& claim_view(c.email_verified) == payload_claim(token, "email_verified"@)
    &&& claim_view(c.name) == payload_claim(token, "name"@)
    &&& claim_view(c.picture) == payload_claim(token, "picture"@)
}

/// The texts of a vector of strings.
pub open spec fn texts(v: Seq<String>) -> Seq<Seq<char>> {
    v.map_values(|s: String| s@)
}

/// What an RS256 check is given: the token, the RSA key `(n, e)` and the accepted
/// issuers and audiences.
#[derive(Debug)]
pub struct Rs256Request {
    pub token: String,
    pub n: String,
    pub e: String,
    pub issuers: Vec<String>,
    pub audiences: Vec<String>,
}

/// The error text of `DecodingKey::from_rsa_components` for a modulus and exponent, or
/// `None` when both decode.
pub uninterp spec fn rsa_key_error(n: Seq<char>, e: Seq<char>) -> Option<Seq<char>>;

/// Checks `req.token` with `jsonwebtoken::decode` under the RSA key `(n, e)`
/// (`DecodingKey::from_rsa_components`) for RS256, the given issuers and audiences and
/// the current time, and reads the claims this library uses from the payload
/// (`Value::get`). Whether the token is accepted depends on the clock as well, so that is
/// not stated; what is stated is that a key error is the key's, that accepted claims are
/// the token's own payload claims, and that an accepted token's textual `iss` and `aud`
/// are among the given issuers and audiences (`Validation::set_issuer`, `set_audience`).
#[verifier::external_body]
fn rs256_claims(req: &Rs256Request) -> (r: Result<JwtClaims, JwtRefusal>)
    ensures
        (r matches Err(JwtRefusal::Key(_))) == (rsa_key_error(req.n@, req.e@) is Some),
        r matches Err(JwtRefusal::Key(k)) ==> rsa_key_error(req.n@, req.e@) == Some(k@),
        r matches Ok(c) ==> claims_of_token(c, req.token@),
        r is Ok ==> (payload_claim(req.token@, "iss"@) matches ClaimValue::Text(t) ==> texts(req.issuers@).contains(t)),
        r is Ok ==> (payload_claim(req.token@, "aud"@) matches ClaimValue::Text(a) ==> texts(req.audiences@).contains(a)),
{
    let key = jsonwebtoken::DecodingKey::from_rsa_components(&req.n, &req.e).map_err(|e| JwtRefusal::Key(e.to_string()))?;
    let mut validation = jsonwebtoken::Validation::new(jsonwebtoken::Algorithm::RS256);
    validation.set_issuer(&req.issuers);
    validation.set_audience(&req.audiences);
    let c = jsonwebtoken::decode::<serde_json::Value>(&req.token, &key, &validation).map_err(|_| JwtRefusal::Token)?.claims;
    Ok(JwtClaims {
        sub: claim_field(&c, "sub"),
        email: claim_field(&c, "email"),
        email_verified: claim_field(&c, "email_verified"),
        name: claim_field(&c, "name"),
        picture: claim_field(&c, "picture"),
    })
}

/// The claim `name` of a JSON object (`Value::get`), told apart by its JSON kind.
#[verifier::external_body]
fn claim_field(claims: &serde_json::Value, name: &str) -> (r: ClaimField) {
    match claims.get(name) {
        None => ClaimField::Missing,
        Some(serde_json::Value::Null) => ClaimField::Null,
        Some(serde_json::Value::String(text)) => ClaimField::Text(text.clone()),
        Some(serde_json::Value::Bool(flag)) => ClaimField::Flag(*flag),
        Some(_) => ClaimField::Other,
    }
}

/// A copy of `v`, text by text.
fn copy_texts(v: &Vec<String>) -> (r: Vec<String>)
    ensures
        texts(r@) == texts(v@),
{
    let mut r: Vec<String> = Vec::new();
    let n = v.len();
    for i in 0..n
        invariant
            n == v@.len(),
            r@.len() == i,
            forall|j: int| 0 <= j < i ==> #[trigger] r@[j]@ == v@[j]@,
    {
        r.push(v[i].as_str().to_owned());
    }
    assert(texts(r@) =~= texts(v@));
    r
}

/// The RS256 check of a Google ID token under `key`: Google's two issuers and the
/// configured audiences.
pub fn google_request(audiences: &Vec<String>, token: &str, key: &Jwk) -> (r: Rs256Request)
    ensures
        r.token@ == token@,
        r.n@ == key.n@,
        r.e@ == key.e@,
        texts(r.issuers@) == seq!["accounts.google.com"@, "https://accounts.google.com"@],
        texts(r.audiences@) == texts(audiences@),
{
    let mut issuers: Vec<String> = Vec::new();
    issuers.push("accounts.google.com".to_owned());
    issuers.push("https://accounts.google.com".to_owned());
    assert(texts(issuers@) =~= seq!["accounts.google.com"@, "https://accounts.google.com"@]);
    Rs256Request {
        token: token.to_owned(),
        n: key.n.as_str().to_owned(),
        e: key.e.as_str().to_owned(),
        issuers,
        audiences: copy_texts(audiences),
    }
}

/// The RS256 check of an Apple identity token under `key`: Apple's issuer and the app
/// as the one audience.
pub fn apple_request(audience: &str, token: &str, key: &Jwk) -> (r: Rs256Request)
    ensures
        r.token@ == token@,
        r.n@ == key.n@,
        r.e@ == key.e@,
        texts(r.issuers@) == seq!["https://appleid.apple.com"@],
        texts(r.audiences@) == seq![audience@],
{
    let mut issuers: Vec<String> = Vec::new();
    issuers.push("https://appleid.apple.com".to_owned());
    let mut audiences: Vec<String> = Vec::new();
    audiences.push(audience.to_owned());
    assert(texts(issuers@) =~= seq!["https://appleid.apple.com"@]);
    assert(texts(audiences@) =~= seq![audience@]);
    Rs256Request {
        token: token.to_owned(),
        n: key.n.as_str().to_owned(),
        e: key.e.as_str().to_owned(),
        issuers,
        audiences,
    }
}

/// A required text claim; any other JSON value does not deserialize.
pub open spec fn required_text(f: ClaimValue) -> Option<Seq<char>> {
    match f {
        ClaimValue::Text(t) => Some(t),
        _ => None,
    }
}

/// An optional text claim (`Option<String>`): missing or null is `Some(None)`; a value
/// that is not text does not deserialize (`None`).
pub open spec fn optional_text(f: ClaimValue) -> Option<Option<Seq<char>>> {
    match f {
        ClaimValue::Missing | ClaimValue::Null => Some(None),
        ClaimValue::Text(t) => Some(Some(t)),
        _ => None,
    }
}

/// A flag that defaults to `false` when missing; any other value but a boolean does not
/// deserialize.
pub open spec fn defaulted_flag(f: ClaimValue) -> Option<bool> {
    match f {
        ClaimValue::Missing => Some(false),
        ClaimValue::Flag(b) => Some(b),
        _ => None,
    }
}

fn text_of(f: ClaimField) -> (r: Option<String>)
    ensures
        opt_view(r) == required_text(claim_view(f)),
{
    match f {
        ClaimField::Text(t) => Some(t),
        _ => None,
    }
}

fn optional_text_of(f: ClaimField) -> (r: Option<Option<String>>)
    ensures
        match optional_text(claim_view(f)) {
            None => r is None,
            Some(o) => r matches Some(x) && opt_view(x) == o,
        },
{
    match f {
        ClaimField::Missing | ClaimField::Null => Some(None),
        ClaimField::Text(t) => Some(Some(t)),
        _ => None,
    }
}

fn flag_of(f: ClaimField) -> (r: Option<bool>)
    ensures
        r == defaulted_flag(claim_view(f)),
{
    match f {
        ClaimField::Missing => Some(false),
        ClaimField::Flag(b) => Some(b),
        _ => None,
    }
}

/// The Google claims `(sub, email, email_verified, name, picture)` of the claim values
/// given, or `None` when one of them has the wrong JSON kind or `sub` is missing.
pub open spec fn google_values(sub: ClaimValue, email: ClaimValue, verified: ClaimValue, name: ClaimValue, picture: ClaimValue)
    -> Option<(Seq<char>, Option<Seq<char>>, bool, Option<Seq<char>>, Option<Seq<char>>)> {
    match (required_text(sub), optional_text(email), defaulted_flag(verified), optional_text(name), optional_text(picture)) {
        (Some(s), Some(e), Some(v), Some(n), Some(p)) => Some((s, e, v, n, p)),
        _ => None,
    }
}

/// The Google claims of claim fields read from a token.
pub open spec fn google_fields(c: JwtClaims) -> Option<(Seq<char>, Option<Seq<char>>, bool, Option<Seq<char>>, Option<Seq<char>>)> {
    google_values(claim_view(c.sub), claim_view(c.email), claim_view(c.email_verified), claim_view(c.name), claim_view(c.picture))
}

/// The Google claims of the payload of `token`.
pub open spec fn google_token_fields(token: Seq<char>) -> Option<(Seq<char>, Option<Seq<char>>, bool, Option<Seq<char>>, Option<Seq<char>>)> {
    google_values(
        payload_claim(token, "sub"@),
        payload_claim(token, "email"@),
        payload_claim(token, "email_verified"@),
        payload_claim(token, "name"@),
        payload_claim(token, "picture"@),
    )
}

/// `id` is the Google identity of the claims `f`.
pub open spec fn google_identity_of(id: AuthIdentity, f: (Seq<char>, Option<Seq<char>>, bool, Option<Seq<char>>, Option<Seq<char>>)) -> bool {
    &&& id.auth_type@ == "google"@
    &&& id.identifier@ == f.0
    &&& id.display_name matches Some(d) && d@ == google_display(f.3, f.1, f.2)
    &&& opt_view(id.avatar) == f.4
}

/// The outcome of a Google token check: a key that does not decode is an internal error,
/// a refused token or claims that do not deserialize are an invalid token, and accepted
/// claims give the Google identity.
pub fn google_claims_identity(v: Result<JwtClaims, JwtRefusal>) -> (r: Result<AuthIdentity, AppError>)
    ensures
        match v {
            Err(JwtRefusal::Key(t)) => refuses(r, Refusal::Internal { error: t@, context: "google key"@ }),
            Err(JwtRefusal::Token) => refuses(r, invalid_google_token()),
            Ok(c) => match google_fields(c) {
                None => refuses(r, invalid_google_token()),
                Some(f) => r matches Ok(id) && google_identity_of(id, f),
            },
        },
{
    let c = match v {
        Err(JwtRefusal::Key(t)) => return Err(AppError::internal(t.as_str(), "google key")),
        Err(JwtRefusal::Token) => return Err(google_token_invalid()),
        Ok(c) => c,
    };
    let sub = text_of(c.sub);
    let email = optional_text_of(c.email);
    let verified = flag_of(c.email_verified);
    let name = optional_text_of(c.name);
    let picture = optional_text_of(c.picture);
    match (sub, email, verified, name, picture) {
        (Some(sub), Some(email), Some(email_verified), Some(name), Some(picture)) => {
            let claims = crate::auth::providers::GoogleClaims { sub, email, email_verified, name, picture };
            Ok(crate::auth::providers::google_identity(claims))
        },
        _ => Err(google_token_invalid()),
    }
}

/// `i` is the position of the first key with id `kid`.
pub open spec fn first_key(keys: Seq<Jwk>, kid: Seq<char>, i: int) -> bool {
    &&& 0 <= i < keys.len()
    &&& keys[i].kid@ == kid
    &&& forall|j: int| 0 <= j < i ==> keys[j].kid@ != kid
}

/// The position of the first key of `keys` with id `kid`.
pub fn key_index(keys: &Vec<Jwk>, kid: &str) -> (r: Option<usize>)
    ensures
        match r {
            Some(i) => first_key(keys@, kid@, i as int),
            None => forall|j: int| 0 <= j < keys@.len() ==> keys@[j].kid@ != kid@,
        },
{
    let n = keys.len();
    for i in 0..n
        invariant
            n == keys@.len(),
            forall|j: int| 0 <= j < i ==> keys@[j].kid@ != kid@,
    {
        if same_text(keys[i].kid.as_str(), kid) {
            return Some(i);
        }
    }
    None
}

/// Verifies a Google ID token against the key set `keys`: the audiences must be
/// configured, the token's header must name a key of the set, and the token must pass the
/// RS256 check for Google's issuers and the audiences; its claims give the identity.
pub fn google_verify(audiences: &Vec<String>, token: &str, keys: &Vec<Jwk>) -> (r: Result<AuthIdentity, AppError>)
    ensures
        audiences@.len() == 0 ==> refuses(
            r,
            Refusal::Internal { error: "Google audience is empty"@, context: "google auth config"@ },
        ),
        audiences@.len() > 0 ==> match token_key(token@) {
            None => refuses(r, invalid_google_token()),
            Some(k) => {
                &&& (forall|j: int| 0 <= j < keys@.len() ==> keys@[j].kid@ != k) ==> refuses(r, invalid_google_token())
                &&& forall|i: int| first_key(keys@, k, i) ==> (rsa_key_error(keys@[i].n@, keys@[i].e@) matches Some(t)
                    ==> refuses(r, Refusal::Internal { error: t, context: "google key"@ }))
            },
        },
        r matches Ok(id) ==> (google_token_fields(token@) matches Some(f) && google_identity_of(id, f)),
        r is Ok ==> (payload_claim(token@, "iss"@) matches ClaimValue::Text(t)
            ==> (t == "accounts.google.com"@ || t == "https://accounts.google.com"@)),
        r is Ok ==> (payload_claim(token@, "aud"@) matches ClaimValue::Text(a) ==> texts(audiences@).contains(a)),
{
    if let Err(e) = google_audience_check(audiences) {
        return Err(e);
    }
    let kid = match google_key_id(token) {
        Ok(k) => k,
        Err(e) => return Err(e),
    };
    let i = match key_index(keys, kid.as_str()) {
        Some(i) => i,
        None => return Err(google_token_invalid()),
    };
    let req = google_request(audiences, token, &keys[i]);
    let checked = rs256_claims(&req);
    proof {
        if checked is Ok {
            if let ClaimValue::Text(t) = payload_claim(token@, "iss"@) {
                let k = choose|k: int| 0 <= k < texts(req.issuers@).len() && texts(req.issuers@)[k] == t;
                assert(k == 0 || k == 1);
            }
        }
    }
    google_claims_identity(checked)
}

/// The Apple claims `(sub, email)` of a token, or `None` when one has the wrong JSON kind
/// or `sub` is missing.
pub open spec fn apple_fields(c: JwtClaims) -> Option<(Seq<char>, Option<Seq<char>>)> {
    apple_values(claim_view(c.sub), claim_view(c.email))
}

/// The Apple claims `(sub, email)` of the claim values given.
pub open spec fn apple_values(sub: ClaimValue, email: ClaimValue) -> Option<(Seq<char>, Option<Seq<char>>)> {
    match (required_text(sub), optional_text(email)) {
        (Some(s), Some(e)) => Some((s, e)),
        _ => None,
    }
}

/// The Apple claims of the payload of `token`.
pub open spec fn apple_token_fields(token: Seq<char>) -> Option<(Seq<char>, Option<Seq<char>>)> {
    apple_values(payload_claim(token, "sub"@), payload_claim(token, "email"@))
}

/// `id` is the Apple identity of the claims `f`.
pub open spec fn apple_identity_of(id: AuthIdentity, f: (Seq<char>, Option<Seq<char>>)) -> bool {
    &&& id.auth_type@ == "apple"@
    &&& id.identifier@ == f.0
    &&& id.display_name matches Some(d) && d@ == (match f.1 {
        Some(e) => before_first(e, '@'),
        None => "Apple 用户"@,
    })
    &&& id.avatar is None
}

/// The outcome of an Apple token check: a key that does not decode is an internal error,
/// a refused token or claims that do not deserialize are `Apple 授权验证失败`, and
/// accepted claims give the Apple identity, named by the part of the e-mail address
/// before `@`, or `Apple 用户` without one.
pub fn apple_claims_identity(v: Result<JwtClaims, JwtRefusal>) -> (r: Result<AuthIdentity, AppError>)
    ensures
        match v {
            Err(JwtRefusal::Key(t)) => refuses(r, Refusal::Internal { error: t@, context: "apple key"@ }),
            Err(JwtRefusal::Token) => refuses(r, unauthorized_refusal("Apple 授权验证失败"@)),
            Ok(c) => match apple_fields(c) {
                None => refuses(r, unauthorized_refusal("Apple 授权验证失败"@)),
                Some(f) => r matches Ok(id) && apple_identity_of(id, f),
            },
        },
{
    let c = match v {
        Err(JwtRefusal::Key(t)) => return Err(AppError::internal(t.as_str(), "apple key")),
        Err(JwtRefusal::Token) => return Err(AppError::unauthorized("Apple 授权验证失败")),
        Ok(c) => c,
    };
    match (text_of(c.sub), optional_text_of(c.email)) {
        (Some(sub), Some(email)) => Ok(apple_identity(AppleClaims { sub, email })),
        _ => Err(AppError::unauthorized("Apple 授权验证失败")),
    }
}

/// Verifies an Apple identity token against the key set `keys`: the token's header must
/// name a key of the set, and the token must pass the RS256 check for Apple's issuer and
/// the app's audience; its claims give the identity.
pub fn apple_verify(audience: &str, token: &str, keys: &Vec<Jwk>) -> (r: Result<AuthIdentity, AppError>)
    ensures
        match token_key(token@) {
            None => refuses(r, unauthorized_refusal("Apple 授权信息无效"@)),
            Some(k) => {
                &&& (forall|j: int| 0 <= j < keys@.len() ==> keys@[j].kid@ != k) ==> refuses(
                    r,
                    unauthorized_refusal("Apple 公钥不存在"@),
                )
                &&& forall|i: int| first_key(keys@, k, i) ==> (rsa_key_error(keys@[i].n@, keys@[i].e@) matches Some(t)
                    ==> refuses(r, Refusal::Internal { error: t, context: "apple key"@ }))
            },
        },
        r matches Ok(id) ==> (apple_token_fields(token@) matches Some(f) && apple_identity_of(id, f)),
        r is Ok ==> (payload_claim(token@, "iss"@) matches ClaimValue::Text(t) ==> t == "https://appleid.apple.com"@),
        r is Ok ==> (payload_claim(token@, "aud"@) matches ClaimValue::Text(a) ==> a == audience@),
{
    let kid = match apple_key_id(token) {
        Ok(k) => k,
        Err(e) => return Err(e),
    };
    let i = match key_index(keys, kid.as_str()) {
        Some(i) => i,
        None => return Err(AppError::unauthorized("Apple 公钥不存在")),
    };
    let req = apple_request(audience, token, &keys[i]);
    let checked = rs256_claims(&req);
    proof {
        if checked is Ok {
            if let ClaimValue::Text(t) = payload_claim(token@, "iss"@) {
                let k = choose|k: int| 0 <= k < texts(req.issuers@).len() && texts(req.issuers@)[k] == t;
                assert(k == 0);
            }
            if let ClaimValue::Text(a) = payload_claim(token@, "aud"@) {
                let k = choose|k: int| 0 <= k < texts(req.audiences@).len() && texts(req.audiences@)[k] == a;
                assert(k == 0);
            }
        }
    }
    apple_claims_identity(checked)
}

} // verus!
