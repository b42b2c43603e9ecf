use frameworkx::admin::{
    audit_target, default_page, default_page_size, status_action, status_from_db, status_name,
    status_to_db, status_update_outcome, AdminAccess, AdminUserQuery,
};
use frameworkx::error::ErrorKind;
use frameworkx::user::model::AccountStatus;

#[test]
fn user_query_is_trimmed_and_bounded() {
    let query = AdminUserQuery {
        page: 0,
        page_size: 999,
        query: "  toly  ".into(),
    }
    .normalized();
    assert_eq!(query.page, 1);
    assert_eq!(query.page_size, 100);
    assert_eq!(query.query, "toly");
}

#[test]
fn user_query_defaults_and_small_page_size() {
    assert_eq!(default_page(), 1);
    assert_eq!(default_page_size(), 30);
    let query = AdminUserQuery { page: 7, page_size: 0, query: "\t a b \n".into() }.normalized();
    assert_eq!(query.page, 7);
    assert_eq!(query.page_size, 1);
    assert_eq!(query.query, "a b");
}

#[test]
fn normalizing_twice_changes_nothing() {
    let once = AdminUserQuery { page: -5, page_size: 250, query: "  x  ".into() }.normalized();
    let twice = once.normalized();
    assert_eq!(once.page, twice.page);
    assert_eq!(once.page_size, twice.page_size);
    assert_eq!(once.query, twice.query);
}

#[test]
fn query_offset_and_pattern() {
    let query = AdminUserQuery { page: 3, page_size: 30, query: "toly".into() };
    assert_eq!(query.offset(), 60);
    assert_eq!(query.search_pattern(), "%toly%");
    let empty = AdminUserQuery { page: 1, page_size: 30, query: String::new() };
    assert_eq!(empty.offset(), 0);
    assert_eq!(empty.search_pattern(), "%%");
}

#[test]
fn status_codes_round_trip() {
    for status in [AccountStatus::Active, AccountStatus::Disabled, AccountStatus::Deleted] {
        assert_eq!(status_from_db(status_to_db(status)), status);
    }
    assert_eq!(status_to_db(AccountStatus::Disabled), 1);
    assert_eq!(status_from_db(2), AccountStatus::Deleted);
    assert_eq!(status_from_db(7), AccountStatus::Active);
    assert_eq!(status_from_db(-1), AccountStatus::Active);
    assert_eq!(status_name(AccountStatus::Disabled), "disabled");
    assert_eq!(status_action(AccountStatus::Active), "users.status.active");
    assert_eq!(audit_target(-42), "-42");
}

#[test]
fn status_update_of_missing_user_is_not_found() {
    let err = status_update_outcome(0).unwrap_err();
    assert_eq!(err.kind, ErrorKind::NotFound);
    assert_eq!(err.message, "用户不存在");
    assert!(status_update_outcome(1).is_ok());
}

#[test]
fn admin_access_checks_bearer_token() {
    let access = AdminAccess::new("secret");
    assert_eq!(access.actor(), "static-admin");
    assert!(access.authorize(Some("Bearer secret")).is_ok());

    let missing = access.authorize(None).unwrap_err();
    assert_eq!(missing.0.kind, ErrorKind::Unauthorized);
    assert_eq!(missing.0.message, "缺少管理员凭据");

    let other_scheme = access.authorize(Some("Basic secret")).unwrap_err();
    assert_eq!(other_scheme.0.kind, ErrorKind::Unauthorized);

    let wrong = access.authorize(Some("Bearer nope")).unwrap_err();
    assert_eq!(wrong.0.kind, ErrorKind::Forbidden);
    assert_eq!(wrong.0.message, "管理员凭据无效");
}

#[test]
fn admin_access_with_actor_keeps_token() {
    let access = AdminAccess::new("t").with_actor("ops");
    assert_eq!(access.actor(), "ops");
    assert!(access.authorize(Some("Bearer t")).is_ok());
}
