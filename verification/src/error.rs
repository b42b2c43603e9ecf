//! Transport-independent application errors and their HTTP status mapping.

use vstd::prelude::*;

use crate::text::{concat, signed_decimal};

verus! {

/// A JSON document carried along with an error for the client.
#[verifier::external_type_specification]
#[verifier::external_body]
pub struct ExJsonValue(serde_json::Value);

/// Error category, independent of the transport that reports it.
#[derive(Debug, Clone, Copy, PartialEq, Eq, Structural)]
pub enum ErrorKind {
    BadRequest,
    Unauthorized,
    Forbidden,
    NotFound,
    Conflict,
    Unprocessable,
    TooManyRequests,
    Internal,
}

/// Application error shared by every domain module.
#[derive(Debug, Clone)]
pub struct AppError {
    pub kind: ErrorKind,
    pub code: String,
    pub message: String,
    pub detail: Option<String>,
    pub data: Option<serde_json::Value>,
}

/// Result type used throughout the library.
pub type AppResult<T> = Result<T, AppError>;

/// `e` is an error of kind `kind` with the given code and message and no detail.
pub open spec fn is_error(e: AppError, kind: ErrorKind, code: Seq<char>, message: Seq<char>) -> bool {
    &&& e.kind == kind
    &&& e.code@ == code
    &&& e.message@ == message
    &&& e.detail is None
    &&& e.data is None
}

/// `e` is an error of kind `kind` with the given code, whatever its message.
pub open spec fn has_code(e: AppError, kind: ErrorKind, code: Seq<char>) -> bool {
    &&& e.kind == kind
    &&& e.code@ == code
}

/// `e` is an internal error about the failure `error` in `context`.
pub open spec fn is_internal(e: AppError, error: Seq<char>, context: Seq<char>) -> bool {
    &&& e.kind == ErrorKind::Internal
    &&& e.code@ == "INTERNAL_SERVER_ERROR"@
    &&& e.message@ == "Internal Server Error"@
    &&& e.detail matches Some(d) && d@ == internal_detail(error, context)
    &&& e.data is None
}

/// Why a request is refused, as contracts state it: an error of a kind with a code and
/// a message, or an internal failure with its text and context.
pub enum Refusal {
    Coded { kind: ErrorKind, code: Seq<char>, message: Seq<char> },
    Internal { error: Seq<char>, context: Seq<char> },
}

/// `e` is the error that `why` describes.
pub open spec fn describes(e: AppError, why: Refusal) -> bool {
    match why {
        Refusal::Coded { kind, code, message } => is_error(e, kind, code, message),
        Refusal::Internal { error, context } => is_internal(e, error, context),
    }
}

/// `r` is an error that `why` describes.
pub open spec fn refuses<T>(r: Result<T, AppError>, why: Refusal) -> bool {
    r matches Err(e) && describes(e, why)
}

/// A bad request with the generic code.
pub open spec fn bad_request_refusal(message: Seq<char>) -> Refusal {
    Refusal::Coded { kind: ErrorKind::BadRequest, code: "BAD_REQUEST"@, message }
}

/// An unauthorized request with the generic code.
pub open spec fn unauthorized_refusal(message: Seq<char>) -> Refusal {
    Refusal::Coded { kind: ErrorKind::Unauthorized, code: "UNAUTHORIZED"@, message }
}

/// A forbidden request with the generic code.
pub open spec fn forbidden_refusal(message: Seq<char>) -> Refusal {
    Refusal::Coded { kind: ErrorKind::Forbidden, code: "FORBIDDEN"@, message }
}

/// A missing resource with the generic code.
pub open spec fn not_found_refusal(message: Seq<char>) -> Refusal {
    Refusal::Coded { kind: ErrorKind::NotFound, code: "NOT_FOUND"@, message }
}

impl AppError {
    pub fn new(kind: ErrorKind, code: &str, message: &str) -> (e: AppError)
        ensures
            is_error(e, kind, code@, message@),
    {
        AppError {
            kind,
            code: code.to_owned(),
            message: message.to_owned(),
            detail: None,
            data: None,
        }
    }

    pub fn with_detail(self, detail: &str) -> (e: AppError)
        ensures
            e == (AppError { detail: e.detail, ..self }),
            e.detail matches Some(d) && d@ == detail@,
    {
        AppError { detail: Some(detail.to_owned()), ..self }
    }

    pub fn with_data(self, data: serde_json::Value) -> (e: AppError)
        ensures
            e == (AppError { data: Some(data), ..self }),
    {
        AppError { data: Some(data), ..self }
    }

    pub fn bad_request(message: &str) -> (e: AppError)
        ensures
            is_error(e, ErrorKind::BadRequest, "BAD_REQUEST"@, message@),
    {
        Self::new(ErrorKind::BadRequest, "BAD_REQUEST", message)
    }

    pub fn bad_request_code(code: &str, message: &str) -> (e: AppError)
        ensures
            is_error(e, ErrorKind::BadRequest, code@, message@),
    {
        Self::new(ErrorKind::BadRequest, code, message)
    }

    pub fn unauthorized(message: &str) -> (e: AppError)
        ensures
            is_error(e, ErrorKind::Unauthorized, "UNAUTHORIZED"@, message@),
    {
        Self::new(ErrorKind::Unauthorized, "UNAUTHORIZED", message)
    }

    pub fn unauthorized_code(code: &str, message: &str) -> (e: AppError)
        ensures
            is_error(e, ErrorKind::Unauthorized, code@, message@),
    {
        Self::new(ErrorKind::Unauthorized, code, message)
    }

    pub fn forbidden(message: &str) -> (e: AppError)
        ensures
            is_error(e, ErrorKind::Forbidden, "FORBIDDEN"@, message@),
    {
        Self::new(ErrorKind::Forbidden, "FORBIDDEN", message)
    }

    pub fn forbidden_code(code: &str, message: &str) -> (e: AppError)
        ensures
            is_error(e, ErrorKind::Forbidden, code@, message@),
    {
        Self::new(ErrorKind::Forbidden, code, message)
    }

    pub fn not_found(message: &str) -> (e: AppError)
        ensures
            is_error(e, ErrorKind::NotFound, "NOT_FOUND"@, message@),
    {
        Self::new(ErrorKind::NotFound, "NOT_FOUND", message)
    }

    pub fn not_found_code(code: &str, message: &str) -> (e: AppError)
        ensures
            is_error(e, ErrorKind::NotFound, code@, message@),
    {
        Self::new(ErrorKind::NotFound, code, message)
    }

    pub fn conflict(code: &str, message: &str) -> (e: AppError)
        ensures
            is_error(e, ErrorKind::Conflict, code@, message@),
    {
        Self::new(ErrorKind::Conflict, code, message)
    }

    pub fn unprocessable(code: &str, message: &str) -> (e: AppError)
        ensures
            is_error(e, ErrorKind::Unprocessable, code@, message@),
    {
        Self::new(ErrorKind::Unprocessable, code, message)
    }

    pub fn too_many_requests(code: &str, message: &str) -> (e: AppError)
        ensures
            is_error(e, ErrorKind::TooManyRequests, code@, message@),
    {
        Self::new(ErrorKind::TooManyRequests, code, message)
    }

    /// An internal error whose detail is `"[context] error"`; `error` is the text of the
    /// underlying failure.
    pub fn internal(error: &str, context: &str) -> (e: AppError)
        ensures
            e.kind == ErrorKind::Internal,
            e.code@ == "INTERNAL_SERVER_ERROR"@,
            e.message@ == "Internal Server Error"@,
            e.detail matches Some(d) && d@ == internal_detail(error@, context@),
            e.data is None,
    {
        let head = concat("[", context);
        let head = concat(head.as_str(), "] ");
        let detail = concat(head.as_str(), error);
        proof {
            reveal_strlit("[");
            reveal_strlit("] ");
        }
        Self::new(ErrorKind::Internal, "INTERNAL_SERVER_ERROR", "Internal Server Error")
            .with_detail(detail.as_str())
    }

    /// `"code: message"`, the text that `Display` shows for an error.
    pub fn describe(&self) -> (s: String)
        ensures
            s@ == self.code@ + ": "@ + self.message@,
    {
        let head = concat(self.code.as_str(), ": ");
        concat(head.as_str(), self.message.as_str())
    }
}

/// Detail text of an internal error: `"[context] error"`.
pub open spec fn internal_detail(error: Seq<char>, context: Seq<char>) -> Seq<char> {
    "["@ + context + "] "@ + error
}

/// HTTP status code reported for each error kind.
pub open spec fn kind_status(kind: ErrorKind) -> u16 {
    match kind {
        ErrorKind::BadRequest => 400,
        ErrorKind::Unauthorized => 401,
        ErrorKind::Forbidden => 403,
        ErrorKind::NotFound => 404,
        ErrorKind::Conflict => 409,
        ErrorKind::Unprocessable => 422,
        ErrorKind::TooManyRequests => 429,
        ErrorKind::Internal => 500,
    }
}

/// Error kind for an HTTP status: the named client errors map to their kind, any
/// 5xx status is internal, and every other status is a bad request.
pub open spec fn status_kind(status: u16) -> ErrorKind {
    if status == 401 {
        ErrorKind::Unauthorized
    } else if status == 403 {
        ErrorKind::Forbidden
    } else if status == 404 {
        ErrorKind::NotFound
    } else if status == 409 {
        ErrorKind::Conflict
    } else if status == 422 {
        ErrorKind::Unprocessable
    } else if status == 429 {
        ErrorKind::TooManyRequests
    } else if 500 <= status && status < 600 {
        ErrorKind::Internal
    } else {
        ErrorKind::BadRequest
    }
}

pub fn status_from_kind(kind: ErrorKind) -> (status: u16)
    ensures
        status == kind_status(kind),
{
    match kind {
        ErrorKind::BadRequest => 400,
        ErrorKind::Unauthorized => 401,
        ErrorKind::Forbidden => 403,
        ErrorKind::NotFound => 404,
        ErrorKind::Conflict => 409,
        ErrorKind::Unprocessable => 422,
        ErrorKind::TooManyRequests => 429,
        ErrorKind::Internal => 500,
    }
}

pub fn kind_from_status(status: u16) -> (kind: ErrorKind)
    ensures
        kind == status_kind(status),
{
    if status == 401 {
        ErrorKind::Unauthorized
    } else if status == 403 {
        ErrorKind::Forbidden
    } else if status == 404 {
        ErrorKind::NotFound
    } else if status == 409 {
        ErrorKind::Conflict
    } else if status == 422 {
        ErrorKind::Unprocessable
    } else if status == 429 {
        ErrorKind::TooManyRequests
    } else if 500 <= status && status < 600 {
        ErrorKind::Internal
    } else {
        ErrorKind::BadRequest
    }
}

/// Reading the status an error kind is reported with gives back that kind.
pub proof fn law_status_round_trip(kind: ErrorKind)
    ensures
        status_kind(kind_status(kind)) == kind,
{
}

/// Every reported status is a client (4xx) or server (5xx) error status.
pub proof fn law_status_is_error_class(kind: ErrorKind)
    ensures
        400 <= kind_status(kind) < 600,
        (kind_status(kind) >= 500) <==> (kind == ErrorKind::Internal),
{
}

} // verus!
