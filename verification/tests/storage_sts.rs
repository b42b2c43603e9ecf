use base64::Engine;
use hmac::{Hmac, Mac};
use serde_json::Value;
use sha1::Sha1;

use frameworkx::storage::backend::{dual_route, strip_https, BackendRoute, DualUrls, LocalFs, OssConfig, OssLocation, StorageBackend};
use frameworkx::storage::model::StorageError;
use frameworkx::storage::sts::{assume_role_request, encode, signed_body, string_to_sign, with_signature, AliyunStsIssuer, StsConfig};

fn cfg() -> StsConfig {
    StsConfig {
        access_key_id: "AKID".to_string(),
        access_key_secret: "secret".to_string(),
        role_arn: "acs:ram::1:role/upload".to_string(),
    }
}

fn issuer() -> AliyunStsIssuer {
    AliyunStsIssuer::new(cfg(), "bucket-a".to_string(), "oss-cn-beijing.aliyuncs.com".to_string())
}

/// Independent computation of the signed form body, written the way the signature
/// scheme documents it.
fn expected_body(c: &StsConfig, session: &str, policy: Option<&str>, duration: u32, nonce: u64, ts: &str) -> String {
    let duration_s = duration.to_string();
    let nonce_s = nonce.to_string();
    let mut params: Vec<(&str, &str)> = vec![
        ("Action", "AssumeRole"),
        ("Format", "JSON"),
        ("Version", "2015-04-01"),
        ("AccessKeyId", &c.access_key_id),
        ("SignatureMethod", "HMAC-SHA1"),
        ("SignatureVersion", "1.0"),
        ("SignatureNonce", &nonce_s),
        ("Timestamp", ts),
        ("RoleArn", &c.role_arn),
        ("RoleSessionName", session),
        ("DurationSeconds", &duration_s),
    ];
    if let Some(p) = policy {
        params.push(("Policy", p));
    }
    params.sort_by_key(|&(k, _)| k);
    let query = params
        .iter()
        .map(|(k, v)| format!("{}={}", encode(k), encode(v)))
        .collect::<Vec<_>>()
        .join("&");
    let to_sign = format!("POST&{}&{}", encode("/"), encode(&query));
    let key = format!("{}&", c.access_key_secret);
    let mut mac = Hmac::<Sha1>::new_from_slice(key.as_bytes()).unwrap();
    mac.update(to_sign.as_bytes());
    let sig = base64::engine::general_purpose::STANDARD.encode(mac.finalize().into_bytes());
    format!("{}&Signature={}", query, encode(&sig))
}

#[test]
fn percent_encoding_keeps_only_unreserved_bytes() {
    assert_eq!(encode("AZaz09-_.~"), "AZaz09-_.~");
    assert_eq!(encode("/"), "%2F");
    assert_eq!(encode("a b&c=d"), "a%20b%26c%3Dd");
    assert_eq!(encode("上"), "%E4%B8%8A");
    assert_eq!(encode(""), "");
}

#[test]
fn signed_body_matches_the_documented_scheme() {
    let c = cfg();
    let body = signed_body(&c, "upload-user-1", None, 900, 42, "2024-01-02T03:04:05Z");
    assert_eq!(body, expected_body(&c, "upload-user-1", None, 900, 42, "2024-01-02T03:04:05Z"));
    assert!(body.starts_with("AccessKeyId=AKID&Action=AssumeRole&DurationSeconds=900&Format=JSON&RoleArn=acs%3Aram%3A%3A1%3Arole%2Fupload&RoleSessionName=upload-user-1&SignatureMethod=HMAC-SHA1&SignatureNonce=42&SignatureVersion=1.0&Timestamp=2024-01-02T03%3A04%3A05Z&Version=2015-04-01&Signature="));
}

#[test]
fn signed_body_with_policy_signs_the_policy() {
    let c = cfg();
    let policy = "{\"Version\":\"1\"}";
    let body = signed_body(&c, "s", Some(policy), 3600, 7, "2024-05-06T07:08:09Z");
    assert_eq!(body, expected_body(&c, "s", Some(policy), 3600, 7, "2024-05-06T07:08:09Z"));
    assert!(body.contains("&Policy=%7B%22Version%22%3A%221%22%7D&RoleArn="));
    let other = signed_body(&c, "s", None, 3600, 7, "2024-05-06T07:08:09Z");
    assert_ne!(body, other);
}

#[test]
fn assume_role_request_signs_its_own_stamp() {
    let c = cfg();
    let r = assume_role_request(&c, "upload-user-2", None, 1200);
    assert_eq!(r.body, expected_body(&c, "upload-user-2", None, 1200, r.nonce, &r.timestamp));
    assert_eq!(r.timestamp.len(), 20);
}

#[test]
fn resources_are_scoped_to_the_bucket() {
    let keys = vec!["users/1/a.png".to_string(), "users/1/b.mp4".to_string()];
    let res = issuer().resources(&keys);
    assert_eq!(res, vec!["acs:oss:*:*:bucket-a/users/1/a.png".to_string(), "acs:oss:*:*:bucket-a/users/1/b.mp4".to_string()]);
    assert!(issuer().resources(&Vec::new()).is_empty());
}

#[test]
fn upload_policy_is_compact_sorted_json() {
    let keys = vec!["users/1/a.png".to_string(), "users/1/b\"c.png".to_string()];
    let p = issuer().upload_policy(&keys);
    assert_eq!(
        p,
        "{\"Statement\":[{\"Action\":[\"oss:PutObject\"],\"Effect\":\"Allow\",\"Resource\":[\"acs:oss:*:*:bucket-a/users/1/a.png\",\"acs:oss:*:*:bucket-a/users/1/b\\\"c.png\"]}],\"Version\":\"1\"}"
    );
    let strings = |v: Vec<String>| Value::Array(v.into_iter().map(Value::String).collect());
    let mut statement = serde_json::Map::new();
    statement.insert("Effect".to_string(), Value::String("Allow".to_string()));
    statement.insert("Action".to_string(), strings(vec!["oss:PutObject".to_string()]));
    statement.insert("Resource".to_string(), strings(issuer().resources(&keys)));
    let mut root = serde_json::Map::new();
    root.insert("Version".to_string(), Value::String("1".to_string()));
    root.insert("Statement".to_string(), Value::Array(vec![Value::Object(statement)]));
    let reference = Value::Object(root).to_string();
    assert_eq!(p, reference);
    let empty = issuer().upload_policy(&Vec::new());
    assert_eq!(empty, "{\"Statement\":[{\"Action\":[\"oss:PutObject\"],\"Effect\":\"Allow\",\"Resource\":[]}],\"Version\":\"1\"}");
}

#[test]
fn issue_failure_is_a_backend_error() {
    match AliyunStsIssuer::issue_failure("timeout") {
        StorageError::Backend(t) => assert_eq!(t, "STS 签发失败: timeout"),
        _ => panic!("expected a backend error"),
    }
}

#[test]
fn sts_settings_need_all_three_values() {
    let c = StsConfig::from_env(Some("a".to_string()), Some("b".to_string()), Some("r".to_string())).unwrap();
    assert_eq!((c.access_key_id.as_str(), c.access_key_secret.as_str(), c.role_arn.as_str()), ("a", "b", "r"));
    assert!(StsConfig::from_env(Some("a".to_string()), None, Some("r".to_string())).is_none());
}

#[test]
fn object_store_urls_and_routes() {
    let oss = OssConfig::from_env(
        Some("https://oss-cn-beijing.aliyuncs.com".to_string()),
        Some("bkt".to_string()),
        Some("id".to_string()),
        Some("sk".to_string()),
        None,
    )
    .unwrap();
    assert_eq!(oss.region, "cn-beijing");
    assert_eq!(oss.url_prefix(), "https://bkt.oss-cn-beijing.aliyuncs.com");
    assert_eq!(strip_https("https://https://x"), "x");
    let loc = OssLocation::of(&oss);
    assert_eq!(loc.url_for("users/1/a.png"), "https://bkt.oss-cn-beijing.aliyuncs.com/users/1/a.png");

    let local = LocalFs::new("/data".to_string(), "/files".to_string());
    let dual = DualUrls { local: local.clone(), oss: Some(loc) };
    assert_eq!(dual.url_for("users/1/a.png"), "https://bkt.oss-cn-beijing.aliyuncs.com/users/1/a.png");
    assert_eq!(dual.url_for("2024/05/x.png"), "/files/2024/05/x.png");
    let local_only = DualUrls { local, oss: None };
    assert_eq!(local_only.url_for("users/1/a.png"), "/files/users/1/a.png");

    assert_eq!(dual_route("users/9/v.mp4", true), BackendRoute::ObjectStore);
    assert_eq!(dual_route("users/9/v.mp4", false), BackendRoute::MissingObjectStore);
    assert_eq!(dual_route("img/users/9", true), BackendRoute::Local);
}

#[test]
fn signing_text_and_signature_parameter() {
    assert_eq!(string_to_sign("A=1&B=x y"), "POST&%2F&A%3D1%26B%3Dx%20y");
    assert_eq!(with_signature("A=1", "ab+/c="), "A=1&Signature=ab%2B%2Fc%3D");
}
