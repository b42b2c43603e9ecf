//! Administration of user accounts: listing queries, status changes and the static
//! administrator credential.

use vstd::prelude::*;

use crate::error::{is_error, AppError as CoreError, ErrorKind};
use crate::text::{concat, lemma_trimmed_idempotent, same_text, trim, trimmed, signed_decimal, i64_text};
use crate::user::model::{code_of_status, status_of_code, AccountStatus};
use crate::web::{bearer_credential, bearer_of, opt_text, AppError};

verus! {

/// Page requested when the query names none.
pub fn default_page() -> (r: i64)
    ensures
        r == 1,
{
    1
}

/// Page size used when the query names none.
pub fn default_page_size() -> (r: i64)
    ensures
        r == 30,
{
    30
}

/// A paged search over user accounts.
#[derive(Debug, Clone)]
pub struct AdminUserQuery {
    pub page: i64,
    pub page_size: i64,
    pub query: String,
}

/// Pages are counted from 1.
pub open spec fn bounded_page(page: i64) -> i64 {
    if page < 1 {
        1
    } else {
        page
    }
}

/// A page holds between 1 and 100 users.
pub open spec fn bounded_page_size(size: i64) -> i64 {
    if size < 1 {
        1
    } else if size > 100 {
        100
    } else {
        size
    }
}

impl AdminUserQuery {
    /// The query with its page at least 1, its page size between 1 and 100 and its search
    /// text trimmed.
    pub fn normalized(&self) -> (q: Self)
        ensures
            q.page == bounded_page(self.page),
            q.page_size == bounded_page_size(self.page_size),
            q.query@ == trimmed(self.query@),
    {
        let page = if self.page < 1 { 1 } else { self.page };
        let page_size = if self.page_size < 1 {
            1
        } else if self.page_size > 100 {
            100
        } else {
            self.page_size
        };
        AdminUserQuery { page, page_size, query: trim(self.query.as_str()) }
    }

    /// Number of users before the requested page.
    pub fn offset(&self) -> (r: i64)
        requires
            1 <= self.page,
            1 <= self.page_size,
            (self.page - 1) * self.page_size <= i64::MAX,
        ensures
            r == (self.page - 1) * self.page_size,
    {
        (self.page - 1) * self.page_size
    }

    /// The `ILIKE` pattern that matches the search text anywhere: `%query%`.
    pub fn search_pattern(&self) -> (r: String)
        ensures
            r@ == "%"@ + self.query@ + "%"@,
    {
        let head = concat("%", self.query.as_str());
        concat(head.as_str(), "%")
    }
}

/// Normalizing a query twice gives the same query as normalizing it once, and a
/// normalized query is within the page bounds.
pub proof fn law_normalized_is_stable(page: i64, page_size: i64, query: Seq<char>)
    ensures
        bounded_page(bounded_page(page)) == bounded_page(page),
        bounded_page_size(bounded_page_size(page_size)) == bounded_page_size(page_size),
        trimmed(trimmed(query)) == trimmed(query),
        1 <= bounded_page(page),
        1 <= bounded_page_size(page_size) <= 100,
{
    lemma_trimmed_idempotent(query);
}

/// A requested page is kept when it is at least 1 and becomes 1 otherwise; a requested
/// page size is kept when it is between 1 and 100, becomes 1 below and 100 above.
pub proof fn law_admin_page_bounds(page: i64, page_size: i64)
    ensures
        page >= 1 ==> bounded_page(page) == page,
        page < 1 ==> bounded_page(page) == 1,
        1 <= page_size <= 100 ==> bounded_page_size(page_size) == page_size,
        page_size < 1 ==> bounded_page_size(page_size) == 1,
        page_size > 100 ==> bounded_page_size(page_size) == 100,
{
}

/// Reads a stored status code: `1` disabled, `2` deleted, anything else active.
pub fn status_from_db(value: i16) -> (r: AccountStatus)
    ensures
        r == status_of_code(value),
{
    match value {
        1 => AccountStatus::Disabled,
        2 => AccountStatus::Deleted,
        _ => AccountStatus::Active,
    }
}

/// The code under which a status is stored.
pub fn status_to_db(status: AccountStatus) -> (r: i16)
    ensures
        r == code_of_status(status),
{
    match status {
        AccountStatus::Active => 0,
        AccountStatus::Disabled => 1,
        AccountStatus::Deleted => 2,
    }
}

/// Name of a status in audit records.
pub open spec fn status_label(status: AccountStatus) -> Seq<char> {
    match status {
        AccountStatus::Active => "active"@,
        AccountStatus::Disabled => "disabled"@,
        AccountStatus::Deleted => "deleted"@,
    }
}

pub fn status_name(status: AccountStatus) -> (r: &'static str)
    ensures
        r@ == status_label(status),
{
    match status {
        AccountStatus::Active => "active",
        AccountStatus::Disabled => "disabled",
        AccountStatus::Deleted => "deleted",
    }
}

/// Audit action of a status change: `users.status.<name>`.
pub fn status_action(status: AccountStatus) -> (r: String)
    ensures
        r@ == "users.status."@ + status_label(status),
{
    concat("users.status.", status_name(status))
}

/// Audit target id of an account: its id in decimal.
pub fn audit_target(account_id: i64) -> (r: String)
    ensures
        r@ == signed_decimal(account_id as int),
{
    i64_text(account_id)
}

/// Outcome of a status update that changed `rows` accounts: none means no such user.
pub fn status_update_outcome(rows: u64) -> (r: Result<(), CoreError>)
    ensures
        rows == 0 ==> (r matches Err(e) && is_error(e, ErrorKind::NotFound, "NOT_FOUND"@, "用户不存在"@)),
        rows != 0 ==> r is Ok,
{
    if rows == 0 {
        Err(CoreError::not_found("用户不存在"))
    } else {
        Ok(())
    }
}

/// The static administrator credential and the name recorded as the actor of changes.
#[derive(Debug, Clone)]
pub struct AdminAccess {
    token: String,
    actor: String,
}

impl AdminAccess {
    /// The token that requests must present.
    pub closed spec fn token_text(&self) -> Seq<char> {
        self.token@
    }

    /// The actor recorded in audit logs.
    pub closed spec fn actor_text(&self) -> Seq<char> {
        self.actor@
    }

    /// Access guarded by `token`, acting as `static-admin`.
    pub fn new(token: &str) -> (a: Self)
        ensures
            a.token_text() == token@,
            a.actor_text() == "static-admin"@,
    {
        AdminAccess { token: token.to_owned(), actor: "static-admin".to_owned() }
    }

    /// The same access recording `actor` as the actor.
    pub fn with_actor(self, actor: &str) -> (a: Self)
        ensures
            a.token_text() == self.token_text(),
            a.actor_text() == actor@,
    {
        AdminAccess { token: self.token, actor: actor.to_owned() }
    }

    pub fn actor(&self) -> (r: &str)
        ensures
            r@ == self.actor_text(),
    {
        self.actor.as_str()
    }

    /// Checks the `Authorization` header value of a request: a missing header or one
    /// without `Bearer ` is unauthorized, a credential other than the token is forbidden.
    pub fn authorize(&self, authorization: Option<&str>) -> (r: Result<(), AppError>)
        ensures
            match bearer_of(opt_text(authorization)) {
                None => r matches Err(e)
                    && is_error(e.0, ErrorKind::Unauthorized, "UNAUTHORIZED"@, "缺少管理员凭据"@),
                Some(t) => if t == self.token_text() {
                    r is Ok
                } else {
                    r matches Err(e)
                        && is_error(e.0, ErrorKind::Forbidden, "FORBIDDEN"@, "管理员凭据无效"@)
                },
            },
    {
        match bearer_credential(authorization) {
            None => Err(AppError::unauthorized("缺少管理员凭据")),
            Some(received) => {
                if same_text(received.as_str(), self.token.as_str()) {
                    Ok(())
                } else {
                    Err(AppError::forbidden("管理员凭据无效"))
                }
            },
        }
    }
}

} // verus!
