//! Password rules: length policy, Argon2 hashing and checking, and the decisions of
//! setting, changing, resetting a password and deleting an account with it.

use vstd::prelude::*;
use vstd::utf8::encode_utf8;

use crate::error::{
    bad_request_refusal, describes, forbidden_refusal, refuses, unauthorized_refusal, AppError,
    ErrorKind, Refusal,
};
use crate::text::chars_of;
use crate::user::model::AccountStatus;
use crate::web::opt_text;

verus! {

/// Whether `PasswordHash::new` rejects a stored hash, and with which error text (`None`
/// when the PHC string parses).
pub uninterp spec fn phc_parse_error(hash: Seq<char>) -> Option<Seq<char>>;

/// Whether `Argon2::default().verify_password` accepts `password` for a parsed hash.
pub uninterp spec fn argon2_verifies(hash: Seq<char>, password: Seq<char>) -> bool;

/// Outcome of checking a password against a stored PHC hash.
#[derive(Debug, Clone)]
pub enum PasswordCheck {
    /// The stored hash does not parse; the text is the parser's error.
    Malformed(String),
    Mismatch,
    Match,
}

/// Parses a stored hash (`argon2::PasswordHash::new`) and verifies `password` against it
/// (`Argon2::default().verify_password`, which uses the parameters held in the hash).
#[verifier::external_body]
pub(crate) fn check_password(hash: &str, password: &str) -> (r: PasswordCheck)
    ensures
        match phc_parse_error(hash@) {
            Some(t) => r matches PasswordCheck::Malformed(m) && m@ == t,
            None => if argon2_verifies(hash@, password@) {
                r is Match
            } else {
                r is Mismatch
            },
        },
{
    match argon2::PasswordHash::new(hash) {
        Err(error) => PasswordCheck::Malformed(error.to_string()),
        Ok(parsed) => match argon2::PasswordVerifier::verify_password(
            &argon2::Argon2::default(),
            password.as_bytes(),
            &parsed,
        ) {
            Ok(()) => PasswordCheck::Match,
            Err(_) => PasswordCheck::Mismatch,
        },
    }
}

/// Hashes `password` with Argon2 defaults and a fresh random salt
/// (`SaltString::generate(&mut OsRng)`, `Argon2::hash_password`, rendered as a PHC
/// string). The salt is random, so the hash is not named; what is stated is what the
/// crate documents: the PHC string parses and verifies the same password. With the
/// default parameters and a generated 16-byte salt, hashing fails only for a password of
/// more than `0xFFFF_FFFF` bytes (`MAX_PWD_LEN`). The text of a hashing error is left
/// unstated.
#[verifier::external_body]
pub(crate) fn hash_new_password(password: &str) -> (r: Result<String, String>)
    ensures
        r matches Ok(h) ==> phc_parse_error(h@) is None && argon2_verifies(h@, password@),
        encode_utf8(password@).len() <= 0xFFFF_FFFF ==> r is Ok,
{
    let salt = argon2::password_hash::SaltString::generate(
        &mut argon2::password_hash::rand_core::OsRng,
    );
    match argon2::PasswordHasher::hash_password(&argon2::Argon2::default(), password.as_bytes(), &salt) {
        Ok(hash) => Ok(hash.to_string()),
        Err(error) => Err(error.to_string()),
    }
}

/// What a password check decides: a stored hash that does not parse is an internal
/// error with the parser's text, a password that does not verify is refused with
/// `mismatch`, and a verified one passes.
pub fn check_verdict(check: PasswordCheck, mismatch: AppError) -> (r: Result<(), AppError>)
    ensures
        match check {
            PasswordCheck::Malformed(t) => refuses(r, Refusal::Internal { error: t@, context: "password hash"@ }),
            PasswordCheck::Mismatch => r == Err::<(), AppError>(mismatch),
            PasswordCheck::Match => r is Ok,
        },
{
    match check {
        PasswordCheck::Malformed(error) => Err(AppError::internal(error.as_str(), "password hash")),
        PasswordCheck::Mismatch => Err(mismatch),
        PasswordCheck::Match => Ok(()),
    }
}

/// A new password needs at least six characters.
pub open spec fn password_too_short(password: Seq<char>) -> bool {
    password.len() < 6
}

/// A new password of six characters or more passes the length policy, and one of five
/// or fewer is refused.
pub proof fn law_password_length(password: Seq<char>)
    ensures
        password.len() >= 6 ==> !password_too_short(password),
        password.len() <= 5 ==> password_too_short(password),
{
}

pub open spec fn short_password_refusal() -> Refusal {
    bad_request_refusal("密码至少需要 6 位"@)
}

/// Checks the length of a new password.
pub fn password_policy(new_password: &str) -> (r: Result<(), AppError>)
    ensures
        r is Ok <==> !password_too_short(new_password@),
        r is Err ==> refuses(r, short_password_refusal()),
{
    let cs = chars_of(new_password);
    if cs.len() < 6 {
        Err(AppError::bad_request("密码至少需要 6 位"))
    } else {
        Ok(())
    }
}

/// Why replacing a password is refused, given the stored hash and the old password the
/// request gives: a set password needs the old one, an unset one takes none, and the old
/// one must verify against the stored hash.
pub open spec fn change_refusal(existing: Option<Seq<char>>, old: Option<Seq<char>>) -> Option<Refusal> {
    match (existing, old) {
        (Some(_), None) => Some(bad_request_refusal("已设置密码"@)),
        (None, Some(_)) => Some(bad_request_refusal("请先设置密码"@)),
        (None, None) => None,
        (Some(h), Some(o)) => match phc_parse_error(h) {
            Some(t) => Some(Refusal::Internal { error: t, context: "password hash"@ }),
            None => if argon2_verifies(h, o) {
                None
            } else {
                Some(unauthorized_refusal("旧密码错误"@))
            },
        },
    }
}

/// Checks the old password of a password change against the stored hash.
pub fn password_change_check(existing: Option<&str>, old: Option<&str>) -> (r: Result<(), AppError>)
    ensures
        match change_refusal(opt_text(existing), opt_text(old)) {
            None => r is Ok,
            Some(why) => refuses(r, why),
        },
{
    match (existing, old) {
        (Some(_), None) => Err(AppError::bad_request("已设置密码")),
        (None, Some(_)) => Err(AppError::bad_request("请先设置密码")),
        (None, None) => Ok(()),
        (Some(hash), Some(old)) => check_verdict(check_password(hash, old), AppError::unauthorized("旧密码错误")),
    }
}

/// `r` holds a hash that verifies `password`, or the failure of hashing it; a password of
/// at most `0xFFFF_FFFF` bytes is always hashed.
pub open spec fn hashed_or_failed(r: Result<String, AppError>, password: Seq<char>) -> bool {
    &&& encode_utf8(password).len() <= 0xFFFF_FFFF ==> r is Ok
    &&& match r {
        Ok(h) => phc_parse_error(h@) is None && argon2_verifies(h@, password),
        Err(e) => e.kind == ErrorKind::Internal,
    }
}

/// Hashes a new password; a failure of the hasher is an internal error.
pub fn new_password_hash(new_password: &str) -> (r: Result<String, AppError>)
    ensures
        hashed_or_failed(r, new_password@),
{
    match hash_new_password(new_password) {
        Ok(hash) => Ok(hash),
        Err(error) => Err(AppError::internal(error.as_str(), "password hash")),
    }
}

/// Sets or changes the password of an account whose stored hash is `existing`: checks
/// the new password's length, then the old password, and returns the hash to store.
pub fn set_password_hash(existing: Option<&str>, old: Option<&str>, new_password: &str) -> (r: Result<String, AppError>)
    ensures
        password_too_short(new_password@) ==> refuses(r, short_password_refusal()),
        !password_too_short(new_password@) ==> match change_refusal(opt_text(existing), opt_text(old)) {
            Some(why) => refuses(r, why),
            None => hashed_or_failed(r, new_password@),
        },
{
    password_policy(new_password)?;
    password_change_check(existing, old)?;
    new_password_hash(new_password)
}

/// Resets the password of an account found by a verified identifier: the new password
/// must be long enough and the account active.
pub fn reset_password_hash(status: AccountStatus, new_password: &str) -> (r: Result<String, AppError>)
    ensures
        password_too_short(new_password@) ==> refuses(r, short_password_refusal()),
        !password_too_short(new_password@) && status != AccountStatus::Active
            ==> refuses(r, forbidden_refusal("账号不可用"@)),
        !password_too_short(new_password@) && status == AccountStatus::Active
            ==> hashed_or_failed(r, new_password@),
{
    password_policy(new_password)?;
    if !status.is_active() {
        return Err(AppError::forbidden("账号不可用"));
    }
    new_password_hash(new_password)
}

/// Why deleting an account with `password` is refused, given its stored hash.
pub open spec fn deletion_refusal(existing: Option<Seq<char>>, password: Seq<char>) -> Option<Refusal> {
    match existing {
        None => Some(bad_request_refusal("请先设置密码"@)),
        Some(h) => match phc_parse_error(h) {
            Some(t) => Some(Refusal::Internal { error: t, context: "password hash"@ }),
            None => if argon2_verifies(h, password) {
                None
            } else {
                Some(unauthorized_refusal("密码错误"@))
            },
        },
    }
}

/// Confirms an account deletion with the account's password.
pub fn deletion_check(existing: Option<&str>, password: &str) -> (r: Result<(), AppError>)
    ensures
        match deletion_refusal(opt_text(existing), password@) {
            None => r is Ok,
            Some(why) => refuses(r, why),
        },
{
    match existing {
        None => Err(AppError::bad_request("请先设置密码")),
        Some(hash) => check_verdict(check_password(hash, password), AppError::unauthorized("密码错误")),
    }
}

/// A password that was set can be used to change it again and to delete the account:
/// the hash stored by a successful set verifies that password.
pub proof fn law_set_password_is_accepted_later(stored: Seq<char>, password: Seq<char>)
    requires
        phc_parse_error(stored) is None,
        argon2_verifies(stored, password),
    ensures
        change_refusal(Some(stored), Some(password)) is None,
        deletion_refusal(Some(stored), password) is None,
{
}

/// A wrong password never deletes an account and never changes its password.
pub proof fn law_wrong_password_is_refused(stored: Seq<char>, password: Seq<char>)
    requires
        !argon2_verifies(stored, password),
    ensures
        change_refusal(Some(stored), Some(password)) is Some,
        deletion_refusal(Some(stored), password) is Some,
{
}

} // verus!
