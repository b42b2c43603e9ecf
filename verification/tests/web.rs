use frameworkx::error::{kind_from_status, status_from_kind, AppError as CoreError, ErrorKind};
use frameworkx::web::{
    ascii_lowercase, bearer_credential, detail_exposed, error_body, ApiResponse, AppError,
    FxServer, FxServerConfig,
};

#[test]
fn core_error_maps_to_http_status() {
    let error = AppError::from(CoreError::conflict("DUPLICATE", "重复"));
    assert_eq!(status_from_kind(error.0.kind), 409);
}

#[test]
fn statuses_map_back_to_kinds() {
    assert_eq!(kind_from_status(401), ErrorKind::Unauthorized);
    assert_eq!(kind_from_status(503), ErrorKind::Internal);
    assert_eq!(kind_from_status(413), ErrorKind::BadRequest);
    for kind in [
        ErrorKind::BadRequest,
        ErrorKind::Unauthorized,
        ErrorKind::Forbidden,
        ErrorKind::NotFound,
        ErrorKind::Conflict,
        ErrorKind::Unprocessable,
        ErrorKind::TooManyRequests,
        ErrorKind::Internal,
    ] {
        assert_eq!(kind_from_status(status_from_kind(kind)), kind);
    }
}

#[test]
fn internal_error_detail_and_body() {
    let e = AppError::internal("disk full", "upload");
    assert_eq!(e.0.kind, ErrorKind::Internal);
    assert_eq!(e.0.detail.as_deref(), Some("[upload] disk full"));
    let hidden = error_body(AppError::internal("disk full", "upload"), false);
    assert_eq!(hidden.status, 500);
    assert!(hidden.detail.is_none());
    let shown = error_body(e, true);
    assert_eq!(shown.detail.as_deref(), Some("[upload] disk full"));
}

#[test]
fn detail_setting_accepts_one_or_true() {
    assert!(detail_exposed(Some("1")));
    assert!(detail_exposed(Some("TRUE")));
    assert!(detail_exposed(Some("tRuE")));
    assert!(!detail_exposed(Some("yes")));
    assert!(!detail_exposed(None));
}

#[test]
fn success_envelope() {
    let r = ApiResponse::success(5u32);
    assert_eq!(r.code, "SUCCESS");
    assert_eq!(r.data, 5);
    let m = ApiResponse::with_message((), "done");
    assert_eq!(m.message, "done");
}

#[test]
fn server_config_defaults_and_version() {
    let c = FxServerConfig::from_env(None, None, None);
    assert_eq!(c.host, "0.0.0.0");
    assert_eq!(c.port, 9600);
    let c = FxServerConfig::from_env(Some("127.0.0.1".into()), Some("8080".into()), Some("postgres://x".into()))
        .with_version("1.2.3");
    assert_eq!(c.port, 8080);
    assert_eq!(c.version, "1.2.3");
    let server = FxServer::new(c);
    assert_eq!(server.config.host, "127.0.0.1");
}

#[test]
fn bearer_header_and_ascii_lowercase() {
    assert_eq!(bearer_credential(Some("Bearer abc")).as_deref(), Some("abc"));
    assert_eq!(bearer_credential(Some("bearer abc")), None);
    assert_eq!(bearer_credential(None), None);
    assert_eq!(ascii_lowercase("JPEG.Png"), "jpeg.png");
}
