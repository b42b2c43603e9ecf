use frameworkx::auth::model::AuthIdentity;
use frameworkx::error::ErrorKind;
use frameworkx::user::account::{
    account_check_target, binding_available, email_binding, existing_account_user,
    identifier_check, new_profile_defaults, phone_binding, profile_update_check, registration_gate,
    require_active, require_changed, require_profile, BindKind,
};
use frameworkx::user::model::{
    account_status_from_db, account_status_to_db, is_valid_phone, Account, AccountStatus,
    UserContext,
};
use frameworkx::user::password::{
    check_verdict, deletion_check, new_password_hash, password_change_check, password_policy,
    reset_password_hash, set_password_hash, PasswordCheck,
};
use frameworkx::error::AppError;
use frameworkx::user::routes::{bind_channel_check, code_request_scene, default_code_scene, request_token};
use frameworkx::user::scan::{
    apply_scan_action, apply_scan_cancel, scan_action, scan_change_outcome, scan_expiry,
    scan_qr_content, scan_status_report, new_scan_token, ScanAction, ScanReport, ScanSession,
};

fn active(id: i64) -> UserContext {
    UserContext { account_id: id, status: AccountStatus::Active }
}

#[test]
fn account_status_helpers() {
    assert!(AccountStatus::Active.is_active());
    assert!(!AccountStatus::Disabled.is_active());
    assert_eq!(account_status_from_db(1), AccountStatus::Disabled);
    assert_eq!(account_status_from_db(2), AccountStatus::Deleted);
    assert_eq!(account_status_from_db(0), AccountStatus::Active);
    assert_eq!(account_status_to_db(AccountStatus::Deleted), 2);
}

#[test]
fn phone_numbers_are_eleven_digits_starting_with_one() {
    assert!(is_valid_phone("18700000000"));
    assert!(!is_valid_phone("28700000000"));
    assert!(!is_valid_phone("1870000000"));
    assert!(!is_valid_phone("1870000000a"));
    assert!(!is_valid_phone("１8700000000"));
}

#[test]
fn inactive_accounts_are_refused() {
    assert!(require_active(&active(1)).is_ok());
    let e = require_active(&UserContext { account_id: 1, status: AccountStatus::Disabled }).unwrap_err();
    assert_eq!(e.kind, ErrorKind::Forbidden);
    assert_eq!(e.message, "账号不可用");
}

#[test]
fn profile_update_limits() {
    assert!(profile_update_check(&active(1), Some("toly"), Some("hi")).is_ok());
    assert!(profile_update_check(&active(1), None, None).is_ok());
    let blank = profile_update_check(&active(1), Some("   "), None).unwrap_err();
    assert_eq!(blank.message, "名字不能为空且不能超过 50 个字符");
    let long_name: String = "名".repeat(51);
    assert!(profile_update_check(&active(1), Some(&long_name), None).is_err());
    let fifty: String = "名".repeat(50);
    assert!(profile_update_check(&active(1), Some(&fifty), None).is_ok());
    let long_sig: String = "x".repeat(101);
    let e = profile_update_check(&active(1), None, Some(&long_sig)).unwrap_err();
    assert_eq!(e.message, "签名不能超过 100 个字符");
    let disabled = UserContext { account_id: 1, status: AccountStatus::Deleted };
    assert_eq!(profile_update_check(&disabled, Some(""), None).unwrap_err().kind, ErrorKind::Forbidden);
}

#[test]
fn account_check_targets() {
    let (t, id) = account_check_target(" email ", " a@b.c ").unwrap();
    assert_eq!(t, "email");
    assert_eq!(id, "a@b.c");
    let (t, id) = account_check_target("phone", "18700000000").unwrap();
    assert_eq!(t, "sms");
    assert_eq!(id, "18700000000");
    assert_eq!(account_check_target("email", "nobody").unwrap_err().code, "AUTH_EMAIL_INVALID");
    assert_eq!(account_check_target("phone", "123").unwrap_err().code, "AUTH_PHONE_INVALID");
    assert_eq!(account_check_target("wechat", "x").unwrap_err().code, "AUTH_ACCOUNT_TYPE_UNSUPPORTED");
}

#[test]
fn identifier_availability() {
    let none = identifier_check(None, 5);
    assert!(!none.exists && !none.owned_by_current_account && none.available);
    let mine = identifier_check(Some(5), 5);
    assert!(mine.exists && mine.owned_by_current_account && mine.available);
    let theirs = identifier_check(Some(6), 5);
    assert!(theirs.exists && !theirs.owned_by_current_account && !theirs.available);
    let e = binding_available(BindKind::Email, theirs).unwrap_err();
    assert_eq!(e.kind, ErrorKind::Conflict);
    assert_eq!(e.code, "AUTH_EMAIL_ALREADY_BOUND");
    assert_eq!(binding_available(BindKind::Phone, theirs).unwrap_err().code, "AUTH_PHONE_ALREADY_BOUND");
    assert!(binding_available(BindKind::Phone, mine).is_ok());
}

#[test]
fn binding_targets_are_trimmed_and_checked() {
    assert_eq!(email_binding("  me@x.io ").unwrap(), "me@x.io");
    let e = email_binding("me").unwrap_err();
    assert_eq!(e.code, "BAD_REQUEST");
    assert_eq!(e.message, "邮箱格式不正确");
    assert_eq!(phone_binding(" 18700000000 ").unwrap(), "18700000000");
    assert_eq!(phone_binding("1870").unwrap_err().code, "AUTH_PHONE_INVALID");
}

#[test]
fn account_lookup_and_registration() {
    let user = existing_account_user(Some(Account { id: 9, status: AccountStatus::Disabled })).unwrap();
    assert_eq!(user.account_id, 9);
    assert_eq!(user.status, AccountStatus::Disabled);
    assert_eq!(existing_account_user(None).unwrap_err().message, "账号不存在");
    assert!(registration_gate(true).is_ok());
    assert_eq!(registration_gate(false).unwrap_err().message, "当前未开放新用户注册");
    assert_eq!(require_profile(None).unwrap_err().message, "用户资料不存在");
    assert_eq!(require_changed(0, "用户认证凭据不存在").unwrap_err().kind, ErrorKind::NotFound);
    assert!(require_changed(2, "x").is_ok());
}

#[test]
fn new_profiles_default_to_id_names() {
    let bare = AuthIdentity { auth_type: "sms".into(), identifier: "1".into(), display_name: None, avatar: None };
    let (nick, avatar) = new_profile_defaults(&bare, 12);
    assert_eq!(nick, "用户12");
    assert_eq!(avatar, "identicon:12");
    let named = AuthIdentity {
        auth_type: "google".into(),
        identifier: "g".into(),
        display_name: Some("Toly".into()),
        avatar: Some("https://a/b.png".into()),
    };
    let (nick, avatar) = new_profile_defaults(&named, 12);
    assert_eq!(nick, "Toly");
    assert_eq!(avatar, "https://a/b.png");
}

#[test]
fn password_rules_with_real_hashes() {
    assert_eq!(password_policy("12345").unwrap_err().message, "密码至少需要 6 位");
    assert!(password_policy("123456").is_ok());

    // First password: nothing stored, no old password.
    let stored = set_password_hash(None, None, "secret1").unwrap();
    assert!(stored.starts_with("$argon2"));
    // Changing it needs the old one.
    assert_eq!(set_password_hash(Some(&stored), None, "secret2").unwrap_err().message, "已设置密码");
    assert_eq!(set_password_hash(None, Some("x"), "secret2").unwrap_err().message, "请先设置密码");
    let wrong = set_password_hash(Some(&stored), Some("nope"), "secret2").unwrap_err();
    assert_eq!(wrong.kind, ErrorKind::Unauthorized);
    assert_eq!(wrong.message, "旧密码错误");
    let changed = set_password_hash(Some(&stored), Some("secret1"), "secret2").unwrap();
    assert!(password_change_check(Some(&changed), Some("secret2")).is_ok());
    assert!(password_change_check(Some(&changed), Some("secret1")).is_err());

    // Deleting the account needs the current password.
    assert!(deletion_check(Some(&changed), "secret2").is_ok());
    assert_eq!(deletion_check(Some(&changed), "secret1").unwrap_err().message, "密码错误");
    assert_eq!(deletion_check(None, "secret2").unwrap_err().message, "请先设置密码");

    // A stored value that is not a PHC string is an internal error.
    let broken = deletion_check(Some("not-a-hash"), "secret2").unwrap_err();
    assert_eq!(broken.kind, ErrorKind::Internal);
    assert!(broken.detail.unwrap().starts_with("[password hash] "));
}

#[test]
fn reset_password_needs_active_account() {
    let e = reset_password_hash(AccountStatus::Disabled, "longenough").unwrap_err();
    assert_eq!(e.kind, ErrorKind::Forbidden);
    assert_eq!(reset_password_hash(AccountStatus::Active, "short").unwrap_err().message, "密码至少需要 6 位");
    let hash = reset_password_hash(AccountStatus::Active, "longenough").unwrap();
    assert!(deletion_check(Some(&hash), "longenough").is_ok());
    let other = new_password_hash("longenough").unwrap();
    assert_ne!(hash, other);
}

#[test]
fn code_request_scenes_and_channels() {
    assert_eq!(default_code_scene(), "login");
    assert_eq!(code_request_scene("login").unwrap(), None);
    assert_eq!(code_request_scene("reset_password").unwrap(), None);
    assert_eq!(code_request_scene("bind_email").unwrap(), Some(BindKind::Email));
    assert_eq!(code_request_scene("bind_phone").unwrap(), Some(BindKind::Phone));
    assert_eq!(code_request_scene("other").unwrap_err().code, "AUTH_CODE_SCENE_INVALID");
    assert!(bind_channel_check(BindKind::Phone, "sms").is_ok());
    assert_eq!(bind_channel_check(BindKind::Phone, "email").unwrap_err().code, "AUTH_CODE_CHANNEL_INVALID");
    assert!(bind_channel_check(BindKind::Email, "email").is_ok());
}

#[test]
fn login_token_comes_from_bearer_header() {
    assert_eq!(request_token(Some("Bearer t0k")).unwrap(), "t0k");
    let e = request_token(Some("Token t0k")).unwrap_err();
    assert_eq!(e.kind, ErrorKind::Unauthorized);
    assert_eq!(e.message, "缺少有效登录凭据");
}

#[test]
fn scan_session_reports() {
    let pending = ScanSession { status: 0, user_id: None, expires_at: 100 };
    assert_eq!(scan_status_report(Some(pending), 50).unwrap(), ScanReport::Pending);
    assert_eq!(scan_status_report(Some(pending), 150).unwrap(), ScanReport::Expired);
    let confirmed = ScanSession { status: 2, user_id: Some(7), expires_at: 100 };
    assert_eq!(scan_status_report(Some(confirmed), 150).unwrap(), ScanReport::Confirmed { account_id: 7 });
    let broken = ScanSession { status: 2, user_id: None, expires_at: 100 };
    assert_eq!(scan_status_report(Some(broken), 50).unwrap_err().message, "扫码用户不存在");
    assert_eq!(scan_status_report(None, 50).unwrap_err().kind, ErrorKind::NotFound);
    let odd = ScanSession { status: 9, user_id: None, expires_at: 100 };
    assert_eq!(scan_status_report(Some(odd), 150).unwrap().name(), "unknown");
    assert_eq!(ScanReport::Cancelled.name(), "cancelled");
}

#[test]
fn scan_actions_and_transitions() {
    let mut s = ScanSession { status: 0, user_id: None, expires_at: 100 };
    assert_eq!(scan_action(Some(s), 50, "scan").unwrap(), ScanAction::Scan);
    assert_eq!(scan_action(Some(s), 50, "confirm").unwrap(), ScanAction::Confirm);
    assert_eq!(scan_action(Some(s), 50, "wave").unwrap_err().message, "扫码状态不匹配");
    assert_eq!(scan_action(Some(s), 150, "scan").unwrap_err().message, "二维码已过期");
    assert_eq!(scan_action(None, 50, "scan").unwrap_err().message, "扫码会话不存在");

    assert!(!apply_scan_action(&mut s, ScanAction::Confirm, 7, 50));
    assert!(apply_scan_action(&mut s, ScanAction::Scan, 7, 50));
    assert_eq!(s.status, 1);
    assert_eq!(s.user_id, Some(7));
    assert!(!apply_scan_action(&mut s, ScanAction::Confirm, 8, 50));
    assert!(!apply_scan_cancel(&mut s, 8));
    assert!(apply_scan_action(&mut s, ScanAction::Confirm, 7, 50));
    assert_eq!(scan_status_report(Some(s), 60).unwrap(), ScanReport::Confirmed { account_id: 7 });
    assert!(!apply_scan_cancel(&mut s, 7));
    assert!(scan_change_outcome(true).is_ok());
    assert!(scan_change_outcome(false).is_err());
}

#[test]
fn scan_session_creation() {
    let token = new_scan_token();
    assert_eq!(token.len(), 36);
    assert_eq!(&token[14..15], "4");
    assert_eq!(scan_qr_content("abc"), "fx://auth/scan/abc");
    assert_eq!(scan_expiry(1_000), 300_001_000);
}

#[test]
fn password_check_verdicts() {
    assert!(check_verdict(PasswordCheck::Match, AppError::unauthorized("密码错误")).is_ok());
    let e = check_verdict(PasswordCheck::Mismatch, AppError::unauthorized("密码错误")).unwrap_err();
    assert_eq!((e.kind, e.message.as_str()), (ErrorKind::Unauthorized, "密码错误"));
    let e = check_verdict(PasswordCheck::Malformed("bad phc".to_owned()), AppError::unauthorized("x")).unwrap_err();
    assert_eq!(e.kind, ErrorKind::Internal);
    assert_eq!(e.detail.as_deref(), Some("[password hash] bad phc"));
}
