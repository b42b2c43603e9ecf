//! Decisions of the account service: who may act, what a profile update may hold,
//! which identifiers a user may bind, and how logins map to accounts.

use vstd::prelude::*;

use crate::error::{bad_request_refusal, forbidden_refusal, not_found_refusal, refuses, AppError, ErrorKind, Refusal};
use crate::auth::model::AuthIdentity;
use crate::text::{chars_of, concat, has_char, i64_text, same_text, signed_decimal, trim, trimmed};
use crate::user::model::{is_valid_phone, valid_phone, Account, AccountIdentifierCheck, AccountStatus, UserContext, UserProfile};

verus! {

pub open spec fn inactive_refusal() -> Refusal {
    forbidden_refusal("账号不可用"@)
}

/// Only an active account may log in, read or change its profile.
pub fn require_active(user: &UserContext) -> (r: Result<(), AppError>)
    ensures
        r is Ok <==> user.status == AccountStatus::Active,
        r is Err ==> refuses(r, inactive_refusal()),
{
    if !user.status.is_active() {
        return Err(AppError::forbidden("账号不可用"));
    }
    Ok(())
}

/// A nickname must hold something besides white space and at most 50 characters.
pub open spec fn nickname_invalid(nickname: Seq<char>) -> bool {
    trimmed(nickname).len() == 0 || nickname.len() > 50
}

/// A signature holds at most 100 characters.
pub open spec fn signature_invalid(signature: Seq<char>) -> bool {
    signature.len() > 100
}

/// A nickname is accepted when it holds something besides white space and at most 50
/// characters; a signature when it holds at most 100 characters.
pub proof fn law_profile_text_limits(nickname: Seq<char>, signature: Seq<char>)
    ensures
        nickname.len() > 50 ==> nickname_invalid(nickname),
        trimmed(nickname).len() == 0 ==> nickname_invalid(nickname),
        (trimmed(nickname).len() > 0 && nickname.len() <= 50) ==> !nickname_invalid(nickname),
        signature.len() <= 100 <==> !signature_invalid(signature),
{
}

/// Why a profile update is refused.
pub open spec fn profile_update_refusal(user: UserContext, nickname: Option<Seq<char>>, signature: Option<Seq<char>>) -> Option<Refusal> {
    if user.status != AccountStatus::Active {
        Some(inactive_refusal())
    } else if nickname matches Some(n) && nickname_invalid(n) {
        Some(bad_request_refusal("名字不能为空且不能超过 50 个字符"@))
    } else if signature matches Some(s) && signature_invalid(s) {
        Some(bad_request_refusal("签名不能超过 100 个字符"@))
    } else {
        None
    }
}

/// Checks a profile update before it is stored.
pub fn profile_update_check(user: &UserContext, nickname: Option<&str>, signature: Option<&str>) -> (r: Result<(), AppError>)
    ensures
        match profile_update_refusal(*user, crate::web::opt_text(nickname), crate::web::opt_text(signature)) {
            None => r is Ok,
            Some(why) => refuses(r, why),
        },
{
    require_active(user)?;
    if let Some(value) = nickname {
        let t = trim(value);
        let cs = chars_of(value);
        if t.as_str().is_empty() || cs.len() > 50 {
            return Err(AppError::bad_request("名字不能为空且不能超过 50 个字符"));
        }
    }
    if let Some(value) = signature {
        let cs = chars_of(value);
        if cs.len() > 100 {
            return Err(AppError::bad_request("签名不能超过 100 个字符"));
        }
    }
    Ok(())
}

/// The kinds of identifier a user can bind to an account.
#[derive(Debug, Clone, Copy, PartialEq, Eq, Structural)]
pub enum BindKind {
    Email,
    Phone,
}

impl BindKind {
    /// Name of the kind in account checks.
    pub open spec fn account_type_text(self) -> Seq<char> {
        match self {
            BindKind::Email => "email"@,
            BindKind::Phone => "phone"@,
        }
    }

    /// Credential type (and verification-code channel) of the kind.
    pub open spec fn credential_text(self) -> Seq<char> {
        match self {
            BindKind::Email => "email"@,
            BindKind::Phone => "sms"@,
        }
    }

    pub fn account_type(self) -> (r: &'static str)
        ensures
            r@ == self.account_type_text(),
    {
        match self {
            BindKind::Email => "email",
            BindKind::Phone => "phone",
        }
    }

    pub fn credential_type(self) -> (r: &'static str)
        ensures
            r@ == self.credential_text(),
    {
        match self {
            BindKind::Email => "email",
            BindKind::Phone => "sms",
        }
    }
}

/// Where an account check looks: the credential type and the trimmed identifier, or why
/// the check is refused.
pub open spec fn check_target(auth_type: Seq<char>, identifier: Seq<char>) -> Result<(Seq<char>, Seq<char>), Refusal> {
    let kind = trimmed(auth_type);
    let id = trimmed(identifier);
    if kind == "email"@ {
        if id.contains('@') {
            Ok(("email"@, id))
        } else {
            Err(Refusal::Coded { kind: ErrorKind::BadRequest, code: "AUTH_EMAIL_INVALID"@, message: "邮箱格式不正确"@ })
        }
    } else if kind == "phone"@ {
        if valid_phone(id) {
            Ok(("sms"@, id))
        } else {
            Err(Refusal::Coded { kind: ErrorKind::BadRequest, code: "AUTH_PHONE_INVALID"@, message: "手机号格式不正确"@ })
        }
    } else {
        Err(Refusal::Coded {
            kind: ErrorKind::BadRequest,
            code: "AUTH_ACCOUNT_TYPE_UNSUPPORTED"@,
            message: "暂不支持该账号类型"@,
        })
    }
}

/// The credential type and identifier an account check looks up: `email` stays
/// `email`, `phone` looks in `sms`; the identifier must be a valid one of its kind.
pub fn account_check_target(auth_type: &str, identifier: &str) -> (r: Result<(String, String), AppError>)
    ensures
        match check_target(auth_type@, identifier@) {
            Ok((c, i)) => r matches Ok((rc, ri)) && rc@ == c && ri@ == i,
            Err(why) => refuses(r, why),
        },
{
    let kind = trim(auth_type);
    let id = trim(identifier);
    if same_text(kind.as_str(), "email") {
        if has_char(id.as_str(), '@') {
            Ok(("email".to_owned(), id))
        } else {
            Err(AppError::bad_request_code("AUTH_EMAIL_INVALID", "邮箱格式不正确"))
        }
    } else if same_text(kind.as_str(), "phone") {
        if is_valid_phone(id.as_str()) {
            Ok(("sms".to_owned(), id))
        } else {
            Err(AppError::bad_request_code("AUTH_PHONE_INVALID", "手机号格式不正确"))
        }
    } else {
        Err(AppError::bad_request_code("AUTH_ACCOUNT_TYPE_UNSUPPORTED", "暂不支持该账号类型"))
    }
}

/// The result of an account check, given the owner of the credential found (if any):
/// an identifier is available when nobody holds it or the current account does.
pub fn identifier_check(owner: Option<i64>, account_id: i64) -> (r: AccountIdentifierCheck)
    ensures
        r.exists == (owner is Some),
        r.owned_by_current_account == (owner == Some(account_id)),
        r.available == available_to(owner, account_id),
{
    let found = owner.is_some();
    let owned = match owner {
        Some(id) => id == account_id,
        None => false,
    };
    AccountIdentifierCheck { exists: found, owned_by_current_account: owned, available: !found || owned }
}

/// Whether an identifier held by `owner` (nobody when `None`) may be bound by `me`.
pub open spec fn available_to(owner: Option<i64>, me: i64) -> bool {
    owner is None || owner == Some(me)
}

/// An identifier the current account holds is always available to it, one nobody holds
/// is available to everyone, and one another account holds is available to nobody else.
pub proof fn law_availability(owner: i64, me: i64)
    ensures
        available_to(Some(me), me),
        available_to(None, me),
        owner != me ==> !available_to(Some(owner), me),
{
}

/// The trimmed e-mail address to bind, or why it is refused.
pub fn email_binding(email: &str) -> (r: Result<String, AppError>)
    ensures
        trimmed(email@).contains('@') ==> (r matches Ok(e) && e@ == trimmed(email@)),
        !trimmed(email@).contains('@') ==> refuses(r, bad_request_refusal("邮箱格式不正确"@)),
{
    let e = trim(email);
    if !has_char(e.as_str(), '@') {
        return Err(AppError::bad_request("邮箱格式不正确"));
    }
    Ok(e)
}

/// The trimmed phone number to bind, or why it is refused.
pub fn phone_binding(phone: &str) -> (r: Result<String, AppError>)
    ensures
        valid_phone(trimmed(phone@)) ==> (r matches Ok(p) && p@ == trimmed(phone@)),
        !valid_phone(trimmed(phone@)) ==> refuses(
            r,
            Refusal::Coded { kind: ErrorKind::BadRequest, code: "AUTH_PHONE_INVALID"@, message: "手机号格式不正确"@ },
        ),
{
    let p = trim(phone);
    if !is_valid_phone(p.as_str()) {
        return Err(AppError::bad_request_code("AUTH_PHONE_INVALID", "手机号格式不正确"));
    }
    Ok(p)
}

/// The conflict reported when an identifier of `kind` belongs to another account.
pub open spec fn bound_elsewhere(kind: BindKind) -> Refusal {
    match kind {
        BindKind::Email => Refusal::Coded {
            kind: ErrorKind::Conflict,
            code: "AUTH_EMAIL_ALREADY_BOUND"@,
            message: "该邮箱已被其他账号绑定"@,
        },
        BindKind::Phone => Refusal::Coded {
            kind: ErrorKind::Conflict,
            code: "AUTH_PHONE_ALREADY_BOUND"@,
            message: "该手机号已被其他账号绑定"@,
        },
    }
}

/// Refuses to bind an identifier that another account holds.
pub fn binding_available(kind: BindKind, check: AccountIdentifierCheck) -> (r: Result<(), AppError>)
    ensures
        r is Ok <==> check.available,
        !check.available ==> refuses(r, bound_elsewhere(kind)),
{
    if check.available {
        return Ok(());
    }
    match kind {
        BindKind::Email => Err(AppError::conflict("AUTH_EMAIL_ALREADY_BOUND", "该邮箱已被其他账号绑定")),
        BindKind::Phone => Err(AppError::conflict("AUTH_PHONE_ALREADY_BOUND", "该手机号已被其他账号绑定")),
    }
}

/// The user of an account that a login credential points to; a dangling credential
/// means the account does not exist.
pub fn existing_account_user(account: Option<Account>) -> (r: Result<UserContext, AppError>)
    ensures
        match account {
            Some(a) => r == Ok::<UserContext, AppError>(UserContext { account_id: a.id, status: a.status }),
            None => refuses(r, not_found_refusal("账号不存在"@)),
        },
{
    match account {
        Some(a) => Ok(UserContext { account_id: a.id, status: a.status }),
        None => Err(AppError::not_found("账号不存在")),
    }
}

/// New accounts are created only while registration is open.
pub fn registration_gate(enabled: bool) -> (r: Result<(), AppError>)
    ensures
        r is Ok <==> enabled,
        !enabled ==> refuses(r, forbidden_refusal("当前未开放新用户注册"@)),
{
    if !enabled {
        return Err(AppError::forbidden("当前未开放新用户注册"));
    }
    Ok(())
}

/// The user of a newly created account.
pub fn new_account_user(account: &Account) -> (r: UserContext)
    ensures
        r == (UserContext { account_id: account.id, status: account.status }),
{
    UserContext { account_id: account.id, status: account.status }
}

/// The profile of an account, which must exist.
pub fn require_profile(profile: Option<UserProfile>) -> (r: Result<UserProfile, AppError>)
    ensures
        match profile {
            Some(p) => r matches Ok(q) && q == p,
            None => refuses(r, not_found_refusal("用户资料不存在"@)),
        },
{
    match profile {
        Some(p) => Ok(p),
        None => Err(AppError::not_found("用户资料不存在")),
    }
}

/// Nickname and avatar of an account created for `identity`: the identity's display
/// name and avatar, or `用户<id>` and `identicon:<id>`.
pub fn new_profile_defaults(identity: &AuthIdentity, account_id: i64) -> (r: (String, String))
    ensures
        r.0@ == (match identity.display_name {
            Some(n) => n@,
            None => "用户"@ + signed_decimal(account_id as int),
        }),
        r.1@ == (match identity.avatar {
            Some(a) => a@,
            None => "identicon:"@ + signed_decimal(account_id as int),
        }),
{
    let id = i64_text(account_id);
    let nickname = match &identity.display_name {
        Some(n) => n.clone(),
        None => concat("用户", id.as_str()),
    };
    let avatar = match &identity.avatar {
        Some(a) => a.clone(),
        None => concat("identicon:", id.as_str()),
    };
    (nickname, avatar)
}

/// Outcome of a store update that must change a row: none changed means `message`
/// is missing.
pub fn require_changed(rows: u64, message: &str) -> (r: Result<(), AppError>)
    ensures
        r is Ok <==> rows > 0,
        rows == 0 ==> refuses(r, not_found_refusal(message@)),
{
    if rows == 0 {
        return Err(AppError::not_found(message));
    }
    Ok(())
}

} // verus!
