use frameworkx::auth::token::{
    apple_claims_identity, apple_request, apple_verify, google_claims_identity, google_request,
    google_verify, key_index, ClaimField, Jwk, JwtClaims, JwtRefusal,
};
use frameworkx::error::ErrorKind;

fn text(s: &str) -> ClaimField {
    ClaimField::Text(s.to_owned())
}

fn claims(sub: ClaimField, email: ClaimField, verified: ClaimField, name: ClaimField) -> JwtClaims {
    JwtClaims { sub, email, email_verified: verified, name, picture: ClaimField::Missing }
}

// {"alg":"RS256","kid":"k1"} . {} . signature
const TOKEN_K1: &str = "eyJhbGciOiJSUzI1NiIsImtpZCI6ImsxIn0.e30.c2ln";

fn key(kid: &str, n: &str) -> Jwk {
    Jwk { kid: kid.to_owned(), n: n.to_owned(), e: "AQAB".to_owned() }
}

#[test]
fn google_claims_give_the_identity() {
    let id = google_claims_identity(Ok(claims(text("g-1"), text("toly@example.com"), ClaimField::Flag(true), ClaimField::Missing))).unwrap();
    assert_eq!((id.auth_type.as_str(), id.identifier.as_str()), ("google", "g-1"));
    assert_eq!(id.display_name.as_deref(), Some("toly"));
    assert_eq!(id.avatar, None);

    let id = google_claims_identity(Ok(claims(text("g-2"), text("x@example.com"), ClaimField::Missing, text("Ann")))).unwrap();
    assert_eq!(id.display_name.as_deref(), Some("Ann"));
    let id = google_claims_identity(Ok(claims(text("g-3"), ClaimField::Null, ClaimField::Flag(false), ClaimField::Null))).unwrap();
    assert_eq!(id.display_name.as_deref(), Some("Google 用户"));
}

#[test]
fn google_claims_of_the_wrong_kind_are_an_invalid_token() {
    for c in [
        claims(ClaimField::Missing, ClaimField::Missing, ClaimField::Missing, ClaimField::Missing),
        claims(text("s"), ClaimField::Flag(true), ClaimField::Missing, ClaimField::Missing),
        claims(text("s"), ClaimField::Missing, ClaimField::Null, ClaimField::Missing),
        claims(text("s"), ClaimField::Missing, ClaimField::Missing, ClaimField::Other),
    ] {
        assert_eq!(google_claims_identity(Ok(c)).unwrap_err().code, "AUTH_GOOGLE_TOKEN_INVALID");
    }
    assert_eq!(google_claims_identity(Err(JwtRefusal::Token)).unwrap_err().code, "AUTH_GOOGLE_TOKEN_INVALID");
    let e = google_claims_identity(Err(JwtRefusal::Key("bad key".to_owned()))).unwrap_err();
    assert_eq!(e.kind, ErrorKind::Internal);
    assert_eq!(e.detail.as_deref(), Some("[google key] bad key"));
}

#[test]
fn apple_claims_give_the_identity() {
    let id = apple_claims_identity(Ok(claims(text("a-1"), text("me@privaterelay.appleid.com"), ClaimField::Missing, ClaimField::Missing))).unwrap();
    assert_eq!((id.auth_type.as_str(), id.identifier.as_str()), ("apple", "a-1"));
    assert_eq!(id.display_name.as_deref(), Some("me"));
    let id = apple_claims_identity(Ok(claims(text("a-2"), ClaimField::Missing, ClaimField::Missing, ClaimField::Missing))).unwrap();
    assert_eq!(id.display_name.as_deref(), Some("Apple 用户"));
    let e = apple_claims_identity(Ok(claims(ClaimField::Flag(true), ClaimField::Missing, ClaimField::Missing, ClaimField::Missing))).unwrap_err();
    assert_eq!(e.message, "Apple 授权验证失败");
    assert_eq!(apple_claims_identity(Err(JwtRefusal::Token)).unwrap_err().message, "Apple 授权验证失败");
}

#[test]
fn keys_are_found_by_id() {
    let keys = vec![key("a", "x"), key("k1", "y"), key("k1", "z")];
    assert_eq!(key_index(&keys, "k1"), Some(1));
    assert_eq!(key_index(&keys, "none"), None);
}

#[test]
fn google_verification_refusals_before_the_signature() {
    let keys = vec![key("k1", "AQAB")];
    let e = google_verify(&vec![], TOKEN_K1, &keys).unwrap_err();
    assert_eq!(e.detail.as_deref(), Some("[google auth config] Google audience is empty"));
    let aud = vec!["client".to_owned()];
    assert_eq!(google_verify(&aud, "not a token", &keys).unwrap_err().code, "AUTH_GOOGLE_TOKEN_INVALID");
    assert_eq!(google_verify(&aud, TOKEN_K1, &vec![key("other", "AQAB")]).unwrap_err().code, "AUTH_GOOGLE_TOKEN_INVALID");
    let e = google_verify(&aud, TOKEN_K1, &vec![key("k1", "!!!")]).unwrap_err();
    assert_eq!(e.kind, ErrorKind::Internal);
    // A well-formed key does not accept a token with a forged signature.
    assert_eq!(google_verify(&aud, TOKEN_K1, &keys).unwrap_err().code, "AUTH_GOOGLE_TOKEN_INVALID");
}

#[test]
fn apple_verification_refusals_before_the_signature() {
    let keys = vec![key("k1", "AQAB")];
    assert_eq!(apple_verify("app", "not a token", &keys).unwrap_err().message, "Apple 授权信息无效");
    assert_eq!(apple_verify("app", TOKEN_K1, &vec![]).unwrap_err().message, "Apple 公钥不存在");
    assert_eq!(apple_verify("app", TOKEN_K1, &vec![key("k1", "!!!")]).unwrap_err().kind, ErrorKind::Internal);
    assert_eq!(apple_verify("app", TOKEN_K1, &keys).unwrap_err().message, "Apple 授权验证失败");
}

#[test]
fn rs256_requests_carry_the_token_key_issuers_and_audiences() {
    let k = key("k1", "modulus");
    let g = google_request(&vec!["web".to_owned(), "ios".to_owned()], TOKEN_K1, &k);
    assert_eq!((g.token.as_str(), g.n.as_str(), g.e.as_str()), (TOKEN_K1, "modulus", "AQAB"));
    assert_eq!(g.issuers, vec!["accounts.google.com", "https://accounts.google.com"]);
    assert_eq!(g.audiences, vec!["web", "ios"]);
    let a = apple_request("com.example.app", TOKEN_K1, &k);
    assert_eq!(a.issuers, vec!["https://appleid.apple.com"]);
    assert_eq!(a.audiences, vec!["com.example.app"]);
    assert_eq!(a.token, TOKEN_K1);
}
