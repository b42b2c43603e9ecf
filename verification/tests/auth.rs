use std::cell::RefCell;

use frameworkx::auth::code::{cooldown_check, generate_code, verify_code_decision};
use frameworkx::auth::code_flow::{CodeCall, CodeIssue, CodeReply, CodeStep, CodeVerify};
use frameworkx::auth::model::{
    ActiveVerificationCode, NewVerificationCode, PasswordRecord, VerificationCodePolicy,
};
use frameworkx::auth::provider::{auth_method_index, code_channel_index, kind_index};
use frameworkx::auth::providers::{
    apple_identity, apple_key_id, email_address, email_identity, github_access_token,
    github_identity, github_user_status, google_audience_check, header_key, google_identity, google_key_id,
    password_identity, phone_number, sms_identity, token_key_id, wechat_code,
    wechat_config_check, wechat_identity, wechat_openid, wechat_session_query, AppleClaims,
    GitHubUser, GoogleClaims, WeChatSessionResponse,
};
use frameworkx::error::{AppError, ErrorKind};
use frameworkx::user::password::new_password_hash;

// ---------------------------------------------------------------------------
// An in-memory code store and sender, driven through the code flows.

#[derive(Default)]
struct MemoryCodes {
    records: RefCell<Vec<(i64, NewVerificationCode, bool)>>,
    sent: RefCell<Vec<(String, String, String)>>,
}

impl MemoryCodes {
    fn answer(&self, call: CodeCall, ttl: i64) -> CodeReply {
        match call {
            CodeCall::LatestIssuedAt { identifier, .. } => CodeReply::Latest(Ok(self
                .records
                .borrow()
                .iter()
                .rev()
                .find(|(_, r, _)| r.identifier == identifier)
                .map(|(_, r, _)| r.expires_at - ttl))),
            CodeCall::SenderName { .. } => CodeReply::SenderName(Some("memory".into())),
            CodeCall::Save { record } => {
                let mut records = self.records.borrow_mut();
                let id = records.len() as i64 + 1;
                records.push((id, record, false));
                CodeReply::Saved(Ok(()))
            }
            CodeCall::Send { channel, identifier, code } => {
                self.sent.borrow_mut().push((channel, identifier, code));
                CodeReply::Sent(Ok(()))
            }
            CodeCall::FindActive { identifier, channel, scene, now } => CodeReply::Active(Ok(self
                .records
                .borrow()
                .iter()
                .rev()
                .find(|(_, r, used)| {
                    !used && r.identifier == identifier && r.channel == channel && r.scene == scene && r.expires_at > now
                })
                .map(|(id, r, _)| ActiveVerificationCode { id: *id, code: r.code.clone() }))),
            CodeCall::MarkUsed { id } => {
                for record in self.records.borrow_mut().iter_mut() {
                    if record.0 == id {
                        record.2 = true;
                    }
                }
                CodeReply::Marked(Ok(()))
            }
        }
    }

    fn issue(&self, policy: &VerificationCodePolicy, channel: &str, identifier: &str, scene: &str, now: i64) -> Result<Option<String>, AppError> {
        let ttl = policy.ttl_micros;
        let (mut flow, mut step) = CodeIssue::start(channel, identifier, scene, None, now, policy.clone());
        loop {
            match step {
                CodeStep::Finish(result) => return result,
                CodeStep::Call(call) => {
                    let reply = self.answer(call, ttl);
                    let (next, next_step) = flow.step(reply);
                    flow = next;
                    step = next_step;
                }
            }
        }
    }

    fn verify(&self, channel: &str, identifier: &str, code: &str, scene: &str, now: i64) -> Result<(), AppError> {
        let (mut flow, mut step) = CodeVerify::start(channel, identifier, code, scene, now);
        loop {
            match step {
                CodeStep::Finish(result) => return result,
                CodeStep::Call(call) => {
                    let reply = self.answer(call, 0);
                    let (next, next_step) = flow.step(reply);
                    flow = next;
                    step = next_step;
                }
            }
        }
    }
}

fn debug_policy() -> VerificationCodePolicy {
    VerificationCodePolicy { cooldown_micros: 0, expose_code: true, ..Default::default() }
}

#[test]
fn debug_mode_exposes_code_and_allows_single_consumption() {
    let codes = MemoryCodes::default();
    let now = 1_700_000_000_000_000;
    let code = codes.issue(&debug_policy(), "email", "user@example.com", "login", now).unwrap().unwrap();

    assert_eq!(code.len(), 6);
    assert!(code.chars().all(|c| c.is_ascii_digit()));
    assert_eq!(codes.sent.borrow().len(), 0);
    codes.verify("email", "user@example.com", &code, "login", now).unwrap();
    let again = codes.verify("email", "user@example.com", &code, "login", now).unwrap_err();
    assert_eq!(again.code, "AUTH_CODE_EXPIRED");
}

#[test]
fn production_mode_sends_code_and_rejects_during_cooldown() {
    let codes = MemoryCodes::default();
    let policy = VerificationCodePolicy::default();
    let now = 1_700_000_000_000_000;

    let result = codes.issue(&policy, "sms", "18700000000", "login", now).unwrap();

    assert!(result.is_none());
    assert_eq!(codes.sent.borrow().len(), 1);
    let refused = codes.issue(&policy, "sms", "18700000000", "login", now).unwrap_err();
    assert_eq!(refused.code, "AUTH_CODE_RATE_LIMITED");
    assert_eq!(refused.kind, ErrorKind::TooManyRequests);
    assert_eq!(codes.sent.borrow().len(), 1);
    // After the cooldown another code may be sent.
    assert!(codes.issue(&policy, "sms", "18700000000", "login", now + 60_000_000).is_ok());
    assert_eq!(codes.sent.borrow().len(), 2);
}

#[test]
fn invalid_code_does_not_consume_active_code() {
    let codes = MemoryCodes::default();
    let now = 5_000_000;
    let code = codes.issue(&debug_policy(), "email", "user@example.com", "login", now).unwrap().unwrap();

    let wrong = codes.verify("email", "user@example.com", "wrong", "login", now).unwrap_err();
    assert_eq!(wrong.code, "AUTH_CODE_INVALID");
    codes.verify("email", "user@example.com", &code, "login", now).unwrap();
}

#[test]
fn code_cannot_be_consumed_by_another_scene() {
    let codes = MemoryCodes::default();
    let now = 5_000_000;
    let code = codes.issue(&debug_policy(), "email", "user@example.com", "bind_email", now).unwrap().unwrap();

    assert!(codes.verify("email", "user@example.com", &code, "reset_password", now).is_err());
    codes.verify("email", "user@example.com", &code, "bind_email", now).unwrap();
}

#[test]
fn codes_expire_after_their_lifetime() {
    let codes = MemoryCodes::default();
    let policy = debug_policy();
    let now = 5_000_000;
    let code = codes.issue(&policy, "email", "a@b.c", "login", now).unwrap().unwrap();
    let late = now + policy.ttl_micros;
    assert_eq!(codes.verify("email", "a@b.c", &code, "login", late).unwrap_err().code, "AUTH_CODE_EXPIRED");
}

#[test]
fn generated_codes_have_the_policy_length() {
    for (length, width) in [(0u32, 1usize), (1, 1), (4, 4), (6, 6), (9, 9), (12, 9)] {
        let code = generate_code(length);
        assert_eq!(code.len(), width);
        assert!(code.chars().all(|c| c.is_ascii_digit()));
    }
}

#[test]
fn cooldown_and_code_decisions() {
    assert!(cooldown_check(None, 10, 60).is_ok());
    assert!(cooldown_check(Some(0), 59, 60).is_err());
    assert!(cooldown_check(Some(0), 60, 60).is_ok());
    assert!(cooldown_check(Some(i64::MIN), i64::MAX, 60).is_ok());
    let active = ActiveVerificationCode { id: 3, code: "123456".into() };
    assert_eq!(verify_code_decision(Some(active.clone()), "123456").unwrap(), 3);
    assert_eq!(verify_code_decision(Some(active), "654321").unwrap_err().kind, ErrorKind::Unauthorized);
    assert_eq!(verify_code_decision(None, "1").unwrap_err().kind, ErrorKind::BadRequest);
}

#[test]
fn policy_defaults() {
    let p = VerificationCodePolicy::default();
    assert_eq!(p.scene, "login");
    assert_eq!(p.length, 6);
    assert_eq!(p.ttl_micros, 300_000_000);
    assert_eq!(p.cooldown_micros, 60_000_000);
    assert!(!p.expose_code);
}

#[test]
fn provider_lookup_takes_the_first_match() {
    let kinds: Vec<String> = vec!["email".into(), "sms".into(), "email".into()];
    assert_eq!(kind_index(&kinds, "email"), Some(0));
    assert_eq!(kind_index(&kinds, "sms"), Some(1));
    assert_eq!(kind_index(&kinds, "wechat"), None);
    assert_eq!(code_channel_index(&kinds, "push").unwrap_err().code, "AUTH_CHANNEL_UNSUPPORTED");
    assert_eq!(auth_method_index(&kinds, "push").unwrap_err().message, "不支持的认证方式");
    assert_eq!(auth_method_index(&kinds, "sms").unwrap(), 1);
}

#[test]
fn email_and_sms_identities() {
    assert_eq!(email_address("  toly@example.com ").unwrap(), "toly@example.com");
    assert_eq!(email_address("toly").unwrap_err().code, "AUTH_EMAIL_INVALID");
    let id = email_identity("toly@example.com");
    assert_eq!(id.auth_type, "email");
    assert_eq!(id.display_name.as_deref(), Some("toly"));

    assert_eq!(phone_number("   ").unwrap_err().message, "手机号不能为空");
    assert_eq!(phone_number(" 18712345678 ").unwrap(), "18712345678");
    let id = sms_identity("18712345678");
    assert_eq!(id.auth_type, "sms");
    assert_eq!(id.display_name.as_deref(), Some("用户8765"));
    assert_eq!(sms_identity("12").display_name.as_deref(), Some("用户21"));
}

#[test]
fn password_identities() {
    let hash = new_password_hash("hunter42").unwrap();
    let record = PasswordRecord {
        auth_type: "password".into(),
        identifier: "toly".into(),
        password_hash: hash.clone(),
        display_name: None,
        avatar: None,
    };
    let id = password_identity(Some(record), "hunter42").unwrap();
    assert_eq!(id.identifier, "toly");
    assert_eq!(id.display_name.as_deref(), Some("toly"));

    let named = PasswordRecord {
        auth_type: "password".into(),
        identifier: "toly".into(),
        password_hash: hash.clone(),
        display_name: Some("Toly".into()),
        avatar: Some("a.png".into()),
    };
    let id = password_identity(Some(named), "hunter42").unwrap();
    assert_eq!(id.display_name.as_deref(), Some("Toly"));
    assert_eq!(id.avatar.as_deref(), Some("a.png"));

    let bad = PasswordRecord {
        auth_type: "password".into(),
        identifier: "toly".into(),
        password_hash: hash,
        display_name: None,
        avatar: None,
    };
    assert_eq!(password_identity(Some(bad), "wrong").unwrap_err().code, "AUTH_CREDENTIAL_INVALID");
    assert_eq!(password_identity(None, "x").unwrap_err().code, "AUTH_CREDENTIAL_INVALID");
}

fn claims(name: Option<&str>, email: Option<&str>, verified: bool) -> GoogleClaims {
    GoogleClaims {
        sub: "google-subject".into(),
        email: email.map(str::to_owned),
        email_verified: verified,
        name: name.map(str::to_owned),
        picture: None,
    }
}

#[test]
fn verified_email_can_supply_display_name() {
    let claims = claims(None, Some("toly@example.com"), true);
    assert_eq!(claims.display_name(), "toly");
}

#[test]
fn unverified_email_is_not_used_as_profile_name() {
    let claims = claims(None, Some("unknown@example.com"), false);
    assert_eq!(claims.display_name(), "Google 用户");
}

#[test]
fn google_name_rules() {
    assert_eq!(claims(Some(" Toly "), None, false).display_name(), " Toly ");
    assert_eq!(claims(Some("  "), Some("a@b.c"), true).display_name(), "a");
    let id = google_identity(claims(Some("Toly"), None, false));
    assert_eq!(id.auth_type, "google");
    assert_eq!(id.identifier, "google-subject");
    assert!(google_audience_check(&vec![]).is_err());
    assert!(google_audience_check(&vec!["client".to_owned()]).is_ok());
}

#[test]
fn token_headers_name_their_key() {
    // {"alg":"RS256","kid":"k1"} . {} . signature
    let token = "eyJhbGciOiJSUzI1NiIsImtpZCI6ImsxIn0.e30.c2ln";
    assert_eq!(token_key_id(token).as_deref(), Some("k1"));
    assert_eq!(google_key_id(token).unwrap(), "k1");
    // {"alg":"RS256"} has no key id.
    let keyless = "eyJhbGciOiJSUzI1NiJ9.e30.c2ln";
    assert_eq!(token_key_id(keyless), None);
    assert_eq!(google_key_id(keyless).unwrap_err().code, "AUTH_GOOGLE_TOKEN_INVALID");
    assert_eq!(apple_key_id("not a token").unwrap_err().message, "Apple 授权信息无效");
    assert_eq!(header_key(Some(Some("k2".to_owned()))).as_deref(), Some("k2"));
    assert_eq!(header_key(Some(None)), None);
    assert_eq!(header_key(None), None);
}

#[test]
fn apple_and_github_identities() {
    let id = apple_identity(AppleClaims { sub: "s".into(), email: Some("x@privaterelay.appleid.com".into()) });
    assert_eq!(id.display_name.as_deref(), Some("x"));
    let id = apple_identity(AppleClaims { sub: "s".into(), email: None });
    assert_eq!(id.display_name.as_deref(), Some("Apple 用户"));

    assert_eq!(github_access_token(None).unwrap_err().message, "GitHub 授权失败");
    assert_eq!(github_access_token(Some("t".into())).unwrap(), "t");
    assert_eq!(github_user_status(false).unwrap_err().message, "GitHub 授权信息无效");
    let id = github_identity(GitHubUser { id: 583231, login: "octocat".into(), name: None, avatar_url: None });
    assert_eq!(id.identifier, "583231");
    assert_eq!(id.display_name.as_deref(), Some("octocat"));
}

#[test]
fn extracts_openid_from_success_response() {
    let response = WeChatSessionResponse { openid: Some("openid-1".into()), errcode: None, errmsg: None };

    assert_eq!(response.into_openid().unwrap(), "openid-1");
}

#[test]
fn preserves_wechat_error_for_classification() {
    let response = WeChatSessionResponse { openid: None, errcode: Some(40029), errmsg: Some("invalid code".into()) };

    let error = response.into_openid().unwrap_err();
    assert_eq!(error.code, Some(40029));
    assert_eq!(error.message.as_deref(), Some("invalid code"));
}

#[test]
fn wechat_rules() {
    assert_eq!(wechat_code("  ").unwrap_err().code, "AUTH_WECHAT_CODE_REQUIRED");
    assert_eq!(wechat_code(" js ").unwrap(), "js");
    assert!(wechat_config_check("app", " ").is_err());
    assert!(wechat_config_check("app", "secret").is_ok());
    let blank = WeChatSessionResponse { openid: Some("  ".into()), errcode: None, errmsg: None };
    assert_eq!(wechat_openid(blank).unwrap_err().code, "AUTH_WECHAT_CODE_INVALID");
    assert_eq!(wechat_identity("  ", "o".into()).display_name.as_deref(), Some("微信用户"));
    assert_eq!(wechat_identity(" Toly ", "o".into()).display_name.as_deref(), Some("Toly"));
    let q = wechat_session_query("a", "s", "c");
    assert_eq!(q[0], ("appid".to_owned(), "a".to_owned()));
    assert_eq!(q[3], ("grant_type".to_owned(), "authorization_code".to_owned()));
}
