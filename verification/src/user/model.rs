//! The account model shared by the user service, its storage and its HTTP routes.

use vstd::prelude::*;

use crate::text::{chars_of, is_digit};

verus! {

/// Lifecycle state of an account.
#[derive(Clone, Copy, Debug, PartialEq, Eq, Structural)]
pub enum AccountStatus {
    Active,
    Disabled,
    Deleted,
}

impl AccountStatus {
    /// Only an active account may log in or change its data.
    pub fn is_active(self) -> (r: bool)
        ensures
            r == (self == AccountStatus::Active),
    {
        match self {
            AccountStatus::Active => true,
            _ => false,
        }
    }
}

/// An account row.
#[derive(Debug, Clone)]
pub struct Account {
    pub id: i64,
    pub status: AccountStatus,
}

/// A user's profile together with the identifiers bound to the account.
#[derive(Debug, Clone)]
pub struct UserProfile {
    pub account_id: i64,
    pub nickname: String,
    pub avatar: Option<String>,
    pub signature: Option<String>,
    pub bio: Option<String>,
    pub email: Option<String>,
    pub phone: Option<String>,
    pub identifier: Option<String>,
    pub auth_type: Option<String>,
    pub has_password: bool,
}

/// A login credential: an identifier of some kind bound to an account.
#[derive(Debug, Clone)]
pub struct AuthCredential {
    pub account_id: i64,
    pub auth_type: String,
    pub identifier: String,
    pub verified: bool,
}

/// Whether an account identifier is taken, and whether the current user may bind it.
#[derive(Debug, Clone, Copy, PartialEq, Eq, Structural)]
pub struct AccountIdentifierCheck {
    pub exists: bool,
    pub owned_by_current_account: bool,
    pub available: bool,
}

/// The authenticated user of a request.
#[derive(Debug, Clone, Copy, PartialEq, Eq, Structural)]
pub struct UserContext {
    pub account_id: i64,
    pub status: AccountStatus,
}

/// Account lifecycle hooks that do nothing.
#[derive(Debug, Default)]
pub struct EmptyUserHooks;

/// The status stored in the database as a small integer: `1` disabled, `2` deleted,
/// anything else active.
pub open spec fn status_of_code(value: i16) -> AccountStatus {
    if value == 1 {
        AccountStatus::Disabled
    } else if value == 2 {
        AccountStatus::Deleted
    } else {
        AccountStatus::Active
    }
}

/// The database code of a status.
pub open spec fn code_of_status(status: AccountStatus) -> i16 {
    match status {
        AccountStatus::Active => 0,
        AccountStatus::Disabled => 1,
        AccountStatus::Deleted => 2,
    }
}

/// Reads a stored status code.
pub fn account_status_from_db(status: i16) -> (r: AccountStatus)
    ensures
        r == status_of_code(status),
{
    match status {
        1 => AccountStatus::Disabled,
        2 => AccountStatus::Deleted,
        _ => AccountStatus::Active,
    }
}

/// The code under which a status is stored.
pub fn account_status_to_db(status: AccountStatus) -> (r: i16)
    ensures
        r == code_of_status(status),
{
    match status {
        AccountStatus::Active => 0,
        AccountStatus::Disabled => 1,
        AccountStatus::Deleted => 2,
    }
}

/// Storing a status and reading it back gives the same status.
pub proof fn law_status_code_round_trip(status: AccountStatus)
    ensures
        status_of_code(code_of_status(status)) == status,
{
}

/// A mainland mobile number: eleven ASCII digits, the first of them `1`.
pub open spec fn valid_phone(s: Seq<char>) -> bool {
    &&& s.len() == 11
    &&& s[0] == '1'
    &&& forall|i: int| 0 <= i < s.len() ==> is_digit(#[trigger] s[i])
}

/// Whether `phone` is eleven ASCII digits starting with `1`. (Eleven bytes of which all
/// are ASCII digits are exactly eleven characters that are.)
pub fn is_valid_phone(phone: &str) -> (r: bool)
    ensures
        r == valid_phone(phone@),
{
    let cs = chars_of(phone);
    if cs.len() != 11 || cs[0] != '1' {
        return false;
    }
    let n = cs.len();
    for i in 0..n
        invariant
            n == cs@.len(),
            cs@ == phone@,
            forall|k: int| 0 <= k < i ==> is_digit(#[trigger] cs@[k]),
    {
        if !('0' <= cs[i] && cs[i] <= '9') {
            assert(!is_digit(phone@[i as int]));
            return false;
        }
    }
    true
}

} // verus!
