//! Choosing the login method or verification-code channel a request names.

use vstd::prelude::*;

use crate::error::{bad_request_refusal, refuses, AppError, ErrorKind, Refusal};
use crate::text::same_text;

verus! {

/// The first position at which `kinds` holds `kind`, if any.
pub open spec fn first_index_of(kinds: Seq<String>, kind: Seq<char>, i: int) -> bool {
    &&& 0 <= i < kinds.len()
    &&& kinds[i]@ == kind
    &&& forall|j: int| 0 <= j < i ==> kinds[j]@ != kind
}

/// The position of the first registered method or channel named `kind`; registration
/// order decides between two of the same name.
pub fn kind_index(kinds: &Vec<String>, kind: &str) -> (r: Option<usize>)
    ensures
        match r {
            Some(i) => first_index_of(kinds@, kind@, i as int),
            None => forall|j: int| 0 <= j < kinds@.len() ==> kinds@[j]@ != kind@,
        },
{
    let n = kinds.len();
    for i in 0..n
        invariant
            n == kinds@.len(),
            forall|j: int| 0 <= j < i ==> kinds@[j]@ != kind@,
    {
        if same_text(kinds[i].as_str(), kind) {
            return Some(i);
        }
    }
    None
}

pub open spec fn unsupported_channel() -> Refusal {
    Refusal::Coded { kind: ErrorKind::BadRequest, code: "AUTH_CHANNEL_UNSUPPORTED"@, message: "不支持的验证码渠道"@ }
}

/// The verification-code channel named `channel` among those registered.
pub fn code_channel_index(channels: &Vec<String>, channel: &str) -> (r: Result<usize, AppError>)
    ensures
        match r {
            Ok(i) => first_index_of(channels@, channel@, i as int),
            Err(_) => (forall|j: int| 0 <= j < channels@.len() ==> channels@[j]@ != channel@)
                && refuses(r, unsupported_channel()),
        },
{
    match kind_index(channels, channel) {
        Some(i) => Ok(i),
        None => Err(AppError::bad_request_code("AUTH_CHANNEL_UNSUPPORTED", "不支持的验证码渠道")),
    }
}

/// The login method named `kind` among those registered.
pub fn auth_method_index(kinds: &Vec<String>, kind: &str) -> (r: Result<usize, AppError>)
    ensures
        match r {
            Ok(i) => first_index_of(kinds@, kind@, i as int),
            Err(_) => (forall|j: int| 0 <= j < kinds@.len() ==> kinds@[j]@ != kind@)
                && refuses(r, bad_request_refusal("不支持的认证方式"@)),
        },
{
    match kind_index(kinds, kind) {
        Some(i) => Ok(i),
        None => Err(AppError::bad_request("不支持的认证方式")),
    }
}

} // verus!
