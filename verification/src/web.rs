//! HTTP-facing pieces of the server foundation: the success envelope, the HTTP error
//! wrapper and its response body, and the server configuration.

use vstd::prelude::*;

use crate::error::{is_error, kind_status, status_from_kind, status_kind, kind_from_status, AppError as CoreError, ErrorKind};
use crate::text::{chars_of, parse_u64, parsed_u64, starts_with, strip_prefix};

verus! {

/// Success envelope: `{ code: "SUCCESS", message, data }`.
#[derive(Debug)]
pub struct ApiResponse<T> {
    pub code: &'static str,
    pub message: String,
    pub data: T,
}

impl<T> ApiResponse<T> {
    /// Wraps `data` with the default success message.
    pub fn success(data: T) -> (r: ApiResponse<T>)
        ensures
            r.code@ == "SUCCESS"@,
            r.message@ == "请求成功"@,
            r.data == data,
    {
        Self::with_message(data, "请求成功")
    }

    /// Wraps `data` with `message`.
    pub fn with_message(data: T, message: &str) -> (r: ApiResponse<T>)
        ensures
            r.code@ == "SUCCESS"@,
            r.message@ == message@,
            r.data == data,
    {
        ApiResponse { code: "SUCCESS", message: message.to_owned(), data }
    }
}

/// An application error reported over HTTP.
#[derive(Debug)]
pub struct AppError(pub CoreError);

impl AppError {
    /// An error for an HTTP status; the status chooses the error kind.
    pub fn new(status: u16, code: &str, message: &str) -> (e: AppError)
        ensures
            is_error(e.0, status_kind(status), code@, message@),
    {
        AppError(CoreError::new(kind_from_status(status), code, message))
    }

    pub fn bad_request(message: &str) -> (e: AppError)
        ensures
            is_error(e.0, ErrorKind::BadRequest, "BAD_REQUEST"@, message@),
    {
        AppError(CoreError::bad_request(message))
    }

    pub fn bad_request_code(code: &str, message: &str) -> (e: AppError)
        ensures
            is_error(e.0, ErrorKind::BadRequest, code@, message@),
    {
        AppError(CoreError::bad_request_code(code, message))
    }

    pub fn unauthorized(message: &str) -> (e: AppError)
        ensures
            is_error(e.0, ErrorKind::Unauthorized, "UNAUTHORIZED"@, message@),
    {
        AppError(CoreError::unauthorized(message))
    }

    pub fn unauthorized_code(code: &str, message: &str) -> (e: AppError)
        ensures
            is_error(e.0, ErrorKind::Unauthorized, code@, message@),
    {
        AppError(CoreError::unauthorized_code(code, message))
    }

    pub fn forbidden(message: &str) -> (e: AppError)
        ensures
            is_error(e.0, ErrorKind::Forbidden, "FORBIDDEN"@, message@),
    {
        AppError(CoreError::forbidden(message))
    }

    pub fn forbidden_code(code: &str, message: &str) -> (e: AppError)
        ensures
            is_error(e.0, ErrorKind::Forbidden, code@, message@),
    {
        AppError(CoreError::forbidden_code(code, message))
    }

    pub fn not_found(message: &str) -> (e: AppError)
        ensures
            is_error(e.0, ErrorKind::NotFound, "NOT_FOUND"@, message@),
    {
        AppError(CoreError::not_found(message))
    }

    pub fn not_found_code(code: &str, message: &str) -> (e: AppError)
        ensures
            is_error(e.0, ErrorKind::NotFound, code@, message@),
    {
        AppError(CoreError::not_found_code(code, message))
    }

    pub fn conflict(code: &str, message: &str) -> (e: AppError)
        ensures
            is_error(e.0, ErrorKind::Conflict, code@, message@),
    {
        AppError(CoreError::conflict(code, message))
    }

    pub fn unprocessable(code: &str, message: &str) -> (e: AppError)
        ensures
            is_error(e.0, ErrorKind::Unprocessable, code@, message@),
    {
        AppError(CoreError::unprocessable(code, message))
    }

    pub fn too_many_requests(code: &str, message: &str) -> (e: AppError)
        ensures
            is_error(e.0, ErrorKind::TooManyRequests, code@, message@),
    {
        AppError(CoreError::too_many_requests(code, message))
    }

    pub fn internal(error: &str, context: &str) -> (e: AppError)
        ensures
            crate::error::is_internal(e.0, error@, context@),
    {
        AppError(CoreError::internal(error, context))
    }

    pub fn with_detail(self, detail: &str) -> (e: AppError)
        ensures
            e.0 == (CoreError { detail: e.0.detail, ..self.0 }),
            e.0.detail matches Some(d) && d@ == detail@,
    {
        AppError(self.0.with_detail(detail))
    }

    pub fn with_data(self, data: serde_json::Value) -> (e: AppError)
        ensures
            e.0 == (CoreError { data: Some(data), ..self.0 }),
    {
        AppError(self.0.with_data(data))
    }
}

impl From<CoreError> for AppError {
    fn from(error: CoreError) -> (e: AppError)
        ensures
            e.0 == error,
    {
        AppError(error)
    }
}

impl vstd::std_specs::convert::FromSpecImpl<CoreError> for AppError {
    open spec fn obeys_from_spec() -> bool {
        true
    }

    open spec fn from_spec(error: CoreError) -> AppError {
        AppError(error)
    }
}

/// JSON body of an error response.
#[derive(Debug)]
pub struct ErrorBody {
    pub code: String,
    pub message: String,
    pub status: u16,
    pub detail: Option<String>,
    pub data: Option<serde_json::Value>,
}

/// ASCII lowercase of a character.
pub open spec fn ascii_lower(c: char) -> char {
    if 'A' <= c && c <= 'Z' {
        ((c as u32) + 32) as char
    } else {
        c
    }
}

/// ASCII lowercase of a text (`str::to_ascii_lowercase`).
pub open spec fn ascii_lowered(s: Seq<char>) -> Seq<char> {
    Seq::new(s.len(), |i: int| ascii_lower(s[i]))
}

pub fn ascii_lowercase(s: &str) -> (r: String)
    ensures
        r@ == ascii_lowered(s@),
{
    let cs = chars_of(s);
    let n = cs.len();
    let mut out = String::new();
    for i in 0..n
        invariant
            n == cs@.len(),
            cs@ == s@,
            out@ == ascii_lowered(s@).take(i as int),
    {
        crate::text::push_char(&mut out, lower(cs[i]));
        assert(ascii_lowered(s@).take(i + 1) =~= ascii_lowered(s@).take(i as int).push(ascii_lower(cs@[i as int])));
    }
    assert(ascii_lowered(s@).take(n as int) =~= ascii_lowered(s@));
    out
}

/// Whether a setting's text turns error details on: `1`, or `true` in any ASCII case.
pub open spec fn enables_detail(value: Seq<char>) -> bool {
    value == "1"@ || (value.len() == 4 && ascii_lower(value[0]) == 't' && ascii_lower(value[1]) == 'r'
        && ascii_lower(value[2]) == 'u' && ascii_lower(value[3]) == 'e')
}

fn lower(c: char) -> (r: char)
    ensures
        r == ascii_lower(c),
{
    if 'A' <= c && c <= 'Z' {
        ((c as u8) + 32) as char
    } else {
        c
    }
}

/// Whether the value of `FX_ERROR_DETAIL` exposes error details to clients; an unset
/// value does not.
pub fn detail_exposed(value: Option<&str>) -> (res: bool)
    ensures
        res == (match value {
            Some(v) => enables_detail(v@),
            None => false,
        }),
{
    match value {
        None => false,
        Some(v) => {
            let cs = chars_of(v);
            proof {
                reveal_strlit("1");
            }
            if cs.len() == 1 && cs[0] == '1' {
                assert(cs@ =~= "1"@);
                return true;
            }
            if cs.len() != 4 {
                assert(v@ != "1"@);
                return false;
            }
            if cs.len() == 1 {
                return false;
            }
            lower(cs[0]) == 't' && lower(cs[1]) == 'r' && lower(cs[2]) == 'u' && lower(cs[3]) == 'e'
        },
    }
}

/// The response body of an error: its code, message and data, the HTTP status of its
/// kind, and its detail only when details are exposed.
pub fn error_body(error: AppError, expose_detail: bool) -> (b: ErrorBody)
    ensures
        b.code == error.0.code,
        b.message == error.0.message,
        b.status == kind_status(error.0.kind),
        b.detail == (if expose_detail { error.0.detail } else { None }),
        b.data == error.0.data,
{
    let status = status_from_kind(error.0.kind);
    let e = error.0;
    ErrorBody {
        code: e.code,
        message: e.message,
        status,
        detail: if expose_detail { e.detail } else { None },
        data: e.data,
    }
}

/// Server settings.
#[derive(Debug, Clone)]
pub struct FxServerConfig {
    pub host: String,
    pub port: u16,
    pub database_url: Option<String>,
    pub version: String,
}

/// Whether a `SERVER_PORT` value is a valid port number.
pub open spec fn valid_port(value: Seq<char>) -> bool {
    parsed_u64(value) matches Some(n) && n <= 65535
}

impl FxServerConfig {
    /// Settings from the values of `SERVER_HOST` (default `0.0.0.0`), `SERVER_PORT`
    /// (default 9600) and `DATABASE_URL`; the version starts at `0.1.0`.
    pub fn from_env(host: Option<String>, port: Option<String>, database_url: Option<String>) -> (c: FxServerConfig)
        requires
            port matches Some(p) ==> valid_port(p@),
        ensures
            host matches Some(h) ==> c.host == h,
            host is None ==> c.host@ == "0.0.0.0"@,
            port matches Some(p) ==> Some(c.port as u64) == parsed_u64(p@),
            port is None ==> c.port == 9600,
            c.database_url == database_url,
            c.version@ == "0.1.0"@,
    {
        let host = match host {
            Some(h) => h,
            None => "0.0.0.0".to_owned(),
        };
        let port: u16 = match port {
            Some(p) => match parse_u64(p.as_str()) {
                Some(n) => n as u16,
                None => 9600,
            },
            None => 9600,
        };
        FxServerConfig { host, port, database_url, version: "0.1.0".to_owned() }
    }

    pub fn with_version(self, version: &str) -> (c: FxServerConfig)
        ensures
            c.host == self.host,
            c.port == self.port,
            c.database_url == self.database_url,
            c.version@ == version@,
    {
        FxServerConfig { version: version.to_owned(), ..self }
    }
}

/// A configured server; the host runs it.
#[derive(Debug, Clone)]
pub struct FxServer {
    pub config: FxServerConfig,
}

impl FxServer {
    pub fn new(config: FxServerConfig) -> (s: FxServer)
        ensures
            s.config == config,
    {
        FxServer { config }
    }
}

/// Body of the version endpoint.
#[derive(Debug, Clone)]
pub struct VersionInfo {
    pub version: String,
}

/// The credential of an `Authorization` header value of the form `Bearer <credential>`.
pub open spec fn bearer_of(header: Option<Seq<char>>) -> Option<Seq<char>> {
    match header {
        Some(h) => if starts_with(h, "Bearer "@) {
            Some(h.subrange("Bearer "@.len() as int, h.len() as int))
        } else {
            None
        },
        None => None,
    }
}

/// The text of an optional string, as a sequence of characters.
pub open spec fn opt_text(value: Option<&str>) -> Option<Seq<char>> {
    match value {
        Some(v) => Some(v@),
        None => None,
    }
}

/// The credential after `Bearer ` in an `Authorization` header value (`None` for a
/// missing header or another scheme).
pub fn bearer_credential(authorization: Option<&str>) -> (r: Option<String>)
    ensures
        match r {
            Some(t) => bearer_of(opt_text(authorization)) == Some(t@),
            None => bearer_of(opt_text(authorization)) is None,
        },
{
    match authorization {
        None => None,
        Some(h) => strip_prefix(h, "Bearer "),
    }
}

/// A header carrying `Bearer ` and a credential yields exactly that credential.
pub proof fn law_bearer_round_trip(credential: Seq<char>)
    ensures
        bearer_of(Some("Bearer "@ + credential)) == Some(credential),
{
    let p = "Bearer "@;
    let h = p + credential;
    assert(h.subrange(0, p.len() as int) =~= p);
    assert(h.subrange(p.len() as int, h.len() as int) =~= credential);
}

} // verus!
