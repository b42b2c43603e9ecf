//! The rules of each login method: which identifiers they accept, which errors they
//! report, and the identity they establish. Network calls to the identity providers
//! happen around these functions; the decisions are here.

use vstd::prelude::*;

use crate::auth::model::{AuthIdentity, PasswordRecord};
use crate::error::{
    bad_request_refusal, is_error, is_internal, refuses, unauthorized_refusal, AppError, ErrorKind,
    Refusal,
};
use crate::text::{before_first, chars_of, concat, has_char, i64_text, prefix_before, push_char, signed_decimal, trim, trimmed};
use crate::user::password::{argon2_verifies, check_password, check_verdict, phc_parse_error};

verus! {

/// The view of an optional string.
pub open spec fn opt_view(value: Option<String>) -> Option<Seq<char>> {
    match value {
        Some(v) => Some(v@),
        None => None,
    }
}

// ---------------------------------------------------------------------------
// E-mail codes.

pub open spec fn invalid_email() -> Refusal {
    Refusal::Coded { kind: ErrorKind::BadRequest, code: "AUTH_EMAIL_INVALID"@, message: "邮箱格式不正确"@ }
}

/// The trimmed e-mail address of a request; it must contain `@`.
pub fn email_address(identifier: &str) -> (r: Result<String, AppError>)
    ensures
        trimmed(identifier@).contains('@') ==> (r matches Ok(e) && e@ == trimmed(identifier@)),
        !trimmed(identifier@).contains('@') ==> refuses(r, invalid_email()),
{
    let email = trim(identifier);
    if !has_char(email.as_str(), '@') {
        return Err(AppError::bad_request_code("AUTH_EMAIL_INVALID", "邮箱格式不正确"));
    }
    Ok(email)
}

/// The identity of a verified e-mail login; its display name is the part before `@`.
pub fn email_identity(email: &str) -> (r: AuthIdentity)
    ensures
        r.auth_type@ == "email"@,
        r.identifier@ == email@,
        r.display_name matches Some(d) && d@ == before_first(email@, '@'),
        r.avatar is None,
{
    AuthIdentity {
        auth_type: "email".to_owned(),
        identifier: email.to_owned(),
        display_name: Some(prefix_before(email, '@')),
        avatar: None,
    }
}

// ---------------------------------------------------------------------------
// SMS codes.

/// The trimmed phone number of a request; it must not be empty.
pub fn phone_number(identifier: &str) -> (r: Result<String, AppError>)
    ensures
        trimmed(identifier@).len() > 0 ==> (r matches Ok(p) && p@ == trimmed(identifier@)),
        trimmed(identifier@).len() == 0 ==> refuses(r, bad_request_refusal("手机号不能为空"@)),
{
    let phone = trim(identifier);
    if phone.as_str().is_empty() {
        return Err(AppError::bad_request("手机号不能为空"));
    }
    Ok(phone)
}

/// The last `n` characters of `s`, last first (`s.chars().rev().take(n)`).
pub open spec fn reversed_tail(s: Seq<char>, n: nat) -> Seq<char> {
    let k = if s.len() < n { s.len() } else { n };
    Seq::new(k, |i: int| s[s.len() - 1 - i])
}

/// The identity of a verified SMS login; its display name is `用户` followed by the
/// number's last four digits in reverse order.
pub fn sms_identity(phone: &str) -> (r: AuthIdentity)
    ensures
        r.auth_type@ == "sms"@,
        r.identifier@ == phone@,
        r.display_name matches Some(d) && d@ == "用户"@ + reversed_tail(phone@, 4),
        r.avatar is None,
{
    let cs = chars_of(phone);
    let n = cs.len();
    let k: usize = if n < 4 { n } else { 4 };
    let mut tail = String::new();
    for i in 0..k
        invariant
            k <= n,
            n == cs@.len(),
            cs@ == phone@,
            k == (if n < 4 { n } else { 4 }),
            tail@ == reversed_tail(phone@, 4).take(i as int),
    {
        push_char(&mut tail, cs[n - 1 - i]);
        assert(reversed_tail(phone@, 4).take(i + 1) =~= reversed_tail(phone@, 4).take(i as int).push(cs@[n - 1 - i]));
    }
    assert(reversed_tail(phone@, 4).take(k as int) =~= reversed_tail(phone@, 4));
    AuthIdentity {
        auth_type: "sms".to_owned(),
        identifier: phone.to_owned(),
        display_name: Some(concat("用户", tail.as_str())),
        avatar: None,
    }
}

// ---------------------------------------------------------------------------
// Passwords.

pub open spec fn bad_credentials() -> Refusal {
    Refusal::Coded { kind: ErrorKind::Unauthorized, code: "AUTH_CREDENTIAL_INVALID"@, message: "账号或密码错误"@ }
}

/// The identity a password record establishes: the record's type, identifier and
/// avatar, and its display name or else its identifier.
pub open spec fn password_login_identity(id: AuthIdentity, rec: PasswordRecord) -> bool {
    &&& id.auth_type == rec.auth_type
    &&& id.identifier == rec.identifier
    &&& id.avatar == rec.avatar
    &&& id.display_name == Some(match rec.display_name {
        Some(n) => n,
        None => rec.identifier,
    })
}

/// The identity of a password login, given the record stored for the trimmed
/// identifier: an unknown account and a wrong password are the same error.
pub fn password_identity(record: Option<PasswordRecord>, credential: &str) -> (r: Result<AuthIdentity, AppError>)
    ensures
        match record {
            None => refuses(r, bad_credentials()),
            Some(rec) => match phc_parse_error(rec.password_hash@) {
                Some(t) => refuses(r, Refusal::Internal { error: t, context: "password hash"@ }),
                None => if argon2_verifies(rec.password_hash@, credential@) {
                    r matches Ok(id) && password_login_identity(id, rec)
                } else {
                    refuses(r, bad_credentials())
                },
            },
        },
{
    let rec = match record {
        None => return Err(AppError::unauthorized_code("AUTH_CREDENTIAL_INVALID", "账号或密码错误")),
        Some(rec) => rec,
    };
    let checked = check_password(rec.password_hash.as_str(), credential);
    match check_verdict(checked, AppError::unauthorized_code("AUTH_CREDENTIAL_INVALID", "账号或密码错误")) {
        Err(e) => Err(e),
        Ok(()) => {
            let identifier = rec.identifier;
            let display_name = match rec.display_name {
                Some(n) => n,
                None => identifier.clone(),
            };
            Ok(AuthIdentity {
                auth_type: rec.auth_type,
                identifier,
                display_name: Some(display_name),
                avatar: rec.avatar,
            })
        },
    }
}

// ---------------------------------------------------------------------------
// Signed identity tokens (Google, Apple).

/// The key id in the header of a JSON Web Token (`jsonwebtoken::decode_header`): `None`
/// when the header does not decode, `Some(None)` when it names no key.
pub uninterp spec fn jwt_header_kid(token: Seq<char>) -> Option<Option<Seq<char>>>;

/// Decodes the header of a token and returns its `kid` field.
#[verifier::external_body]
fn decode_header_kid(token: &str) -> (r: Option<Option<String>>)
    ensures
        match r {
            None => jwt_header_kid(token@) is None,
            Some(k) => jwt_header_kid(token@) == Some(opt_view(k)),
        },
{
    match jsonwebtoken::decode_header(token) {
        Ok(header) => Some(header.kid),
        Err(_) => None,
    }
}

/// The key a token names, when its header decodes and names one.
pub open spec fn token_key(token: Seq<char>) -> Option<Seq<char>> {
    match jwt_header_kid(token) {
        Some(Some(k)) => Some(k),
        _ => None,
    }
}

/// The key id of a decoded header: `decoded` is `None` for a header that did not
/// decode and `Some(kid)` for one that did.
pub fn header_key(decoded: Option<Option<String>>) -> (r: Option<String>)
    ensures
        r == (match decoded {
            Some(Some(k)) => Some(k),
            _ => None::<String>,
        }),
{
    match decoded {
        Some(Some(k)) => Some(k),
        _ => None,
    }
}

/// The key id a token's header names.
pub fn token_key_id(token: &str) -> (r: Option<String>)
    ensures
        opt_view(r) == token_key(token@),
{
    header_key(decode_header_kid(token))
}

pub open spec fn invalid_google_token() -> Refusal {
    Refusal::Coded { kind: ErrorKind::Unauthorized, code: "AUTH_GOOGLE_TOKEN_INVALID"@, message: "Google 授权验证失败"@ }
}

/// The error for any Google token that fails a check.
pub fn google_token_invalid() -> (e: AppError)
    ensures
        refuses(Err::<(), AppError>(e), invalid_google_token()),
{
    AppError::unauthorized_code("AUTH_GOOGLE_TOKEN_INVALID", "Google 授权验证失败")
}

/// Google logins need at least one accepted audience.
pub fn google_audience_check(audiences: &Vec<String>) -> (r: Result<(), AppError>)
    ensures
        r is Ok <==> audiences@.len() > 0,
        audiences@.len() == 0 ==> refuses(
            r,
            Refusal::Internal { error: "Google audience is empty"@, context: "google auth config"@ },
        ),
{
    if audiences.len() == 0 {
        return Err(AppError::internal("Google audience is empty", "google auth config"));
    }
    Ok(())
}

/// The key id of a Google token; a token without one is invalid.
pub fn google_key_id(token: &str) -> (r: Result<String, AppError>)
    ensures
        match token_key(token@) {
            Some(k) => r matches Ok(x) && x@ == k,
            None => refuses(r, invalid_google_token()),
        },
{
    match token_key_id(token) {
        Some(k) => Ok(k),
        None => Err(google_token_invalid()),
    }
}

/// The claims of a validated Google identity token.
#[derive(Debug, Clone)]
pub struct GoogleClaims {
    pub sub: String,
    pub email: Option<String>,
    pub email_verified: bool,
    pub name: Option<String>,
    pub picture: Option<String>,
}

/// The display name of a Google user: the name when it is not blank, else the part of a
/// verified e-mail address before `@`, else `Google 用户`.
pub open spec fn google_display(name: Option<Seq<char>>, email: Option<Seq<char>>, email_verified: bool) -> Seq<char> {
    if name matches Some(n) && trimmed(n).len() > 0 {
        name.unwrap()
    } else if email_verified && email is Some {
        before_first(email.unwrap(), '@')
    } else {
        "Google 用户"@
    }
}

impl GoogleClaims {
    pub fn display_name(&self) -> (r: String)
        ensures
            r@ == google_display(opt_view(self.name), opt_view(self.email), self.email_verified),
    {
        if let Some(n) = &self.name {
            let t = trim(n.as_str());
            if !t.as_str().is_empty() {
                return n.clone();
            }
        }
        if self.email_verified {
            if let Some(e) = &self.email {
                return prefix_before(e.as_str(), '@');
            }
        }
        "Google 用户".to_owned()
    }
}

/// The identity of a validated Google token.
pub fn google_identity(claims: GoogleClaims) -> (r: AuthIdentity)
    ensures
        r.auth_type@ == "google"@,
        r.identifier == claims.sub,
        r.display_name matches Some(d)
            && d@ == google_display(opt_view(claims.name), opt_view(claims.email), claims.email_verified),
        r.avatar == claims.picture,
{
    let display = claims.display_name();
    AuthIdentity {
        auth_type: "google".to_owned(),
        identifier: claims.sub,
        display_name: Some(display),
        avatar: claims.picture,
    }
}

/// The key id of an Apple token; a token without one is refused.
pub fn apple_key_id(token: &str) -> (r: Result<String, AppError>)
    ensures
        match token_key(token@) {
            Some(k) => r matches Ok(x) && x@ == k,
            None => refuses(r, unauthorized_refusal("Apple 授权信息无效"@)),
        },
{
    match token_key_id(token) {
        Some(k) => Ok(k),
        None => Err(AppError::unauthorized("Apple 授权信息无效")),
    }
}

/// The claims of a validated Apple identity token.
#[derive(Debug, Clone)]
pub struct AppleClaims {
    pub sub: String,
    pub email: Option<String>,
}

/// The identity of a validated Apple token; its display name is the part of the e-mail
/// address before `@`, or `Apple 用户` without one.
pub fn apple_identity(claims: AppleClaims) -> (r: AuthIdentity)
    ensures
        r.auth_type@ == "apple"@,
        r.identifier == claims.sub,
        r.display_name matches Some(d) && d@ == (match claims.email {
            Some(e) => before_first(e@, '@'),
            None => "Apple 用户"@,
        }),
        r.avatar is None,
{
    let display = match &claims.email {
        Some(e) => prefix_before(e.as_str(), '@'),
        None => "Apple 用户".to_owned(),
    };
    AuthIdentity {
        auth_type: "apple".to_owned(),
        identifier: claims.sub,
        display_name: Some(display),
        avatar: None,
    }
}

// ---------------------------------------------------------------------------
// GitHub OAuth.

/// The access token GitHub returned for an authorization code; none means the code was
/// refused.
pub fn github_access_token(token: Option<String>) -> (r: Result<String, AppError>)
    ensures
        match token {
            Some(t) => r matches Ok(x) && x == t,
            None => refuses(r, unauthorized_refusal("GitHub 授权失败"@)),
        },
{
    match token {
        Some(t) => Ok(t),
        None => Err(AppError::unauthorized("GitHub 授权失败")),
    }
}

/// A user lookup that GitHub did not answer with success means the token is invalid.
pub fn github_user_status(success: bool) -> (r: Result<(), AppError>)
    ensures
        r is Ok <==> success,
        !success ==> refuses(r, unauthorized_refusal("GitHub 授权信息无效"@)),
{
    if !success {
        return Err(AppError::unauthorized("GitHub 授权信息无效"));
    }
    Ok(())
}

/// A GitHub user.
#[derive(Debug, Clone)]
pub struct GitHubUser {
    pub id: i64,
    pub login: String,
    pub name: Option<String>,
    pub avatar_url: Option<String>,
}

/// The identity of a GitHub user: its numeric id, its name or else its login.
pub fn github_identity(user: GitHubUser) -> (r: AuthIdentity)
    ensures
        r.auth_type@ == "github"@,
        r.identifier@ == signed_decimal(user.id as int),
        r.display_name matches Some(d) && d == (match user.name {
            Some(n) => n,
            None => user.login,
        }),
        r.avatar == user.avatar_url,
{
    let display = match user.name {
        Some(n) => n,
        None => user.login,
    };
    AuthIdentity {
        auth_type: "github".to_owned(),
        identifier: i64_text(user.id),
        display_name: Some(display),
        avatar: user.avatar_url,
    }
}

// ---------------------------------------------------------------------------
// WeChat mini-program login.

/// The trimmed login code of a WeChat request; it must not be empty.
pub fn wechat_code(credential: &str) -> (r: Result<String, AppError>)
    ensures
        trimmed(credential@).len() > 0 ==> (r matches Ok(c) && c@ == trimmed(credential@)),
        trimmed(credential@).len() == 0 ==> refuses(
            r,
            Refusal::Coded { kind: ErrorKind::BadRequest, code: "AUTH_WECHAT_CODE_REQUIRED"@, message: "微信登录凭证不能为空"@ },
        ),
{
    let code = trim(credential);
    if code.as_str().is_empty() {
        return Err(AppError::bad_request_code("AUTH_WECHAT_CODE_REQUIRED", "微信登录凭证不能为空"));
    }
    Ok(code)
}

/// WeChat logins need a non-blank app id and secret.
pub fn wechat_config_check(app_id: &str, app_secret: &str) -> (r: Result<(), AppError>)
    ensures
        r is Ok <==> (trimmed(app_id@).len() > 0 && trimmed(app_secret@).len() > 0),
        r is Err ==> refuses(
            r,
            Refusal::Internal { error: "wechat app id or secret is empty"@, context: "wechat auth config"@ },
        ),
{
    let id = trim(app_id);
    let secret = trim(app_secret);
    if id.as_str().is_empty() || secret.as_str().is_empty() {
        return Err(AppError::internal("wechat app id or secret is empty", "wechat auth config"));
    }
    Ok(())
}

/// The query of the `jscode2session` request, in order.
pub fn wechat_session_query(app_id: &str, app_secret: &str, code: &str) -> (r: Vec<(String, String)>)
    ensures
        r@.len() == 4,
        r@[0].0@ == "appid"@ && r@[0].1@ == app_id@,
        r@[1].0@ == "secret"@ && r@[1].1@ == app_secret@,
        r@[2].0@ == "js_code"@ && r@[2].1@ == code@,
        r@[3].0@ == "grant_type"@ && r@[3].1@ == "authorization_code"@,
{
    let mut v: Vec<(String, String)> = Vec::new();
    v.push(("appid".to_owned(), app_id.to_owned()));
    v.push(("secret".to_owned(), app_secret.to_owned()));
    v.push(("js_code".to_owned(), code.to_owned()));
    v.push(("grant_type".to_owned(), "authorization_code".to_owned()));
    v
}

/// The answer of WeChat's `jscode2session` endpoint.
#[derive(Debug, Clone)]
pub struct WeChatSessionResponse {
    pub openid: Option<String>,
    pub errcode: Option<i64>,
    pub errmsg: Option<String>,
}

/// The error WeChat reported instead of an openid.
#[derive(Debug, Clone)]
pub struct WeChatSessionError {
    pub code: Option<i64>,
    pub message: Option<String>,
}

impl WeChatSessionResponse {
    /// The openid when it is not blank, else WeChat's error code and message.
    pub fn into_openid(self) -> (r: Result<String, WeChatSessionError>)
        ensures
            match self.openid {
                Some(o) if trimmed(o@).len() > 0 => r matches Ok(x) && x == o,
                _ => r matches Err(e) && e.code == self.errcode && e.message == self.errmsg,
            },
    {
        if let Some(openid) = self.openid {
            let t = trim(openid.as_str());
            if !t.as_str().is_empty() {
                return Ok(openid);
            }
        }
        Err(WeChatSessionError { code: self.errcode, message: self.errmsg })
    }
}

/// The openid of an answer; an answer without one means the login code is invalid.
pub fn wechat_openid(response: WeChatSessionResponse) -> (r: Result<String, AppError>)
    ensures
        match response.openid {
            Some(o) if trimmed(o@).len() > 0 => r matches Ok(x) && x == o,
            _ => refuses(
                r,
                Refusal::Coded { kind: ErrorKind::Unauthorized, code: "AUTH_WECHAT_CODE_INVALID"@, message: "微信登录凭证无效"@ },
            ),
        },
{
    match response.into_openid() {
        Ok(openid) => Ok(openid),
        Err(_) => Err(AppError::unauthorized_code("AUTH_WECHAT_CODE_INVALID", "微信登录凭证无效")),
    }
}

/// The identity of a WeChat login: the openid, and the trimmed identifier the client
/// sent as display name, or `微信用户` when it is blank.
pub fn wechat_identity(identifier: &str, openid: String) -> (r: AuthIdentity)
    ensures
        r.auth_type@ == "wechat"@,
        r.identifier == openid,
        r.display_name matches Some(d) && d@ == (if trimmed(identifier@).len() == 0 {
            "微信用户"@
        } else {
            trimmed(identifier@)
        }),
        r.avatar is None,
{
    let t = trim(identifier);
    let display = if t.as_str().is_empty() { "微信用户".to_owned() } else { t };
    AuthIdentity {
        auth_type: "wechat".to_owned(),
        identifier: openid,
        display_name: Some(display),
        avatar: None,
    }
}

} // verus!
