//! One-time verification codes: generating them, the send cooldown, the record that is
//! stored, and checking a submitted code.
//!
//! Times are Unix timestamps in microseconds.

use vstd::prelude::*;

use crate::auth::model::{ActiveVerificationCode, NewVerificationCode, VerificationCodePolicy};
use crate::error::{refuses, AppError, ErrorKind, Refusal};
use crate::text::{digit, digit_char, digits_value, is_digit, push_char, same_text};

verus! {

/// A random number below `upper` (`rand::rng().random_range(0..upper)`). The draw is
/// random, so only its range is stated.
#[verifier::external_body]
fn random_below(upper: u32) -> (r: u32)
    requires
        upper > 0,
    ensures
        r < upper,
{
    rand::Rng::random_range(&mut rand::rng(), 0..upper)
}

/// `10` to the power `n`.
pub open spec fn pow10(n: nat) -> nat
    decreases n,
{
    if n == 0 {
        1
    } else {
        10 * pow10((n - 1) as nat)
    }
}

/// Number of digits of a code: the policy's length, at least 1 and at most 9.
pub open spec fn code_width(length: u32) -> nat {
    if length < 1 {
        1
    } else if length > 9 {
        9
    } else {
        length as nat
    }
}

/// The last `w` decimal digits of `v`, with leading zeros (`{:0w$}` of `v < 10^w`).
pub open spec fn fixed_digits(v: nat, w: nat) -> Seq<char>
    decreases w,
{
    if w == 0 {
        Seq::empty()
    } else {
        fixed_digits(v / 10, (w - 1) as nat).push(digit_char(v % 10))
    }
}

proof fn lemma_pow10_positive(n: nat)
    ensures
        pow10(n) >= 1,
    decreases n,
{
    if n > 0 {
        lemma_pow10_positive((n - 1) as nat);
    }
}

proof fn lemma_pow10_monotonic(i: nat, j: nat)
    requires
        i <= j,
    ensures
        pow10(i) <= pow10(j),
    decreases j,
{
    if i < j {
        lemma_pow10_monotonic(i, (j - 1) as nat);
        lemma_pow10_positive((j - 1) as nat);
    }
}

/// A code of width `w` holds exactly `w` ASCII digits, and reading them back gives the
/// number modulo `10^w`.
pub proof fn law_fixed_digits(v: nat, w: nat)
    ensures
        fixed_digits(v, w).len() == w,
        forall|i: int| 0 <= i < w ==> is_digit(#[trigger] fixed_digits(v, w)[i]),
        digits_value(fixed_digits(v, w)) == v % pow10(w),
    decreases w,
{
    if w > 0 {
        let s = fixed_digits(v / 10, (w - 1) as nat);
        law_fixed_digits(v / 10, (w - 1) as nat);
        let t = s.push(digit_char(v % 10));
        assert(t.drop_last() =~= s);
        assert forall|i: int| 0 <= i < w implies is_digit(#[trigger] t[i]) by {
            if i < w - 1 {
                assert(t[i] == s[i]);
            }
        }
        lemma_pow10_positive((w - 1) as nat);
        vstd::arithmetic::div_mod::lemma_breakdown(v as int, 10, pow10((w - 1) as nat) as int);
        assert(((digit_char(v % 10) as u32) - ('0' as u32)) == v % 10);
    } else {
        assert(v % 1 == 0);
    }
}

fn pow10_exec(n: u32) -> (r: u32)
    requires
        n <= 9,
    ensures
        r as nat == pow10(n as nat),
{
    let mut r: u32 = 1;
    let mut i: u32 = 0;
    while i < n
        invariant
            i <= n <= 9,
            r as nat == pow10(i as nat),
        decreases n - i,
    {
        proof {
            lemma_pow10_monotonic(i as nat, 8);
            assert(pow10(8) == 100_000_000) by {
                reveal_with_fuel(pow10, 9);
            }
        }
        r = r * 10;
        i = i + 1;
    }
    r
}

fn fixed_digits_text(v: u32, w: u32) -> (r: String)
    ensures
        r@ == fixed_digits(v as nat, w as nat),
    decreases w,
{
    if w == 0 {
        String::new()
    } else {
        let mut s = fixed_digits_text(v / 10, w - 1);
        push_char(&mut s, digit((v % 10) as u64));
        s
    }
}

/// Whether `code` is a code of `length` digits: `code_width(length)` ASCII digits.
pub open spec fn well_formed_code(code: Seq<char>, length: u32) -> bool {
    &&& code.len() == code_width(length)
    &&& forall|i: int| 0 <= i < code.len() ==> is_digit(#[trigger] code[i])
}

/// A fresh random code of the policy's length (clamped to 1..=9 digits), with leading
/// zeros.
pub fn generate_code(length: u32) -> (r: String)
    ensures
        well_formed_code(r@, length),
        exists|v: nat| v < pow10(code_width(length)) && r@ == fixed_digits(v, code_width(length)),
{
    let width: u32 = if length < 1 {
        1
    } else if length > 9 {
        9
    } else {
        length
    };
    let upper = pow10_exec(width);
    proof {
        lemma_pow10_positive(width as nat);
    }
    let value = random_below(upper);
    let code = fixed_digits_text(value, width);
    proof {
        law_fixed_digits(value as nat, width as nat);
    }
    code
}

pub open spec fn rate_limited() -> Refusal {
    Refusal::Coded {
        kind: ErrorKind::TooManyRequests,
        code: "AUTH_CODE_RATE_LIMITED"@,
        message: "验证码发送过于频繁，请稍后再试"@,
    }
}

/// Whether a code may be sent at `now`, given when the last one for the same identifier
/// or address was issued: not until `cooldown` has passed.
pub open spec fn within_cooldown(latest: Option<i64>, now: i64, cooldown: i64) -> bool {
    latest matches Some(t) && now - t < cooldown
}

/// Refuses a code requested during the cooldown of the previous one.
pub fn cooldown_check(latest: Option<i64>, now: i64, cooldown: i64) -> (r: Result<(), AppError>)
    ensures
        r is Ok <==> !within_cooldown(latest, now, cooldown),
        r is Err ==> refuses(r, rate_limited()),
{
    match latest {
        Some(t) => {
            let elapsed: i128 = (now as i128) - (t as i128);
            if elapsed < cooldown as i128 {
                return Err(AppError::too_many_requests("AUTH_CODE_RATE_LIMITED", "验证码发送过于频繁，请稍后再试"));
            }
            Ok(())
        },
        None => Ok(()),
    }
}

/// The record stored for a code issued at `now`: it expires `ttl` later.
pub fn new_code_record(
    identifier: &str,
    channel: &str,
    scene: &str,
    code: &str,
    now: i64,
    policy: &VerificationCodePolicy,
    request_ip: Option<String>,
    sender: Option<String>,
) -> (r: NewVerificationCode)
    requires
        i64::MIN <= now + policy.ttl_micros <= i64::MAX,
    ensures
        r.identifier@ == identifier@,
        r.channel@ == channel@,
        r.scene@ == scene@,
        r.code@ == code@,
        r.expires_at == now + policy.ttl_micros,
        r.request_ip == request_ip,
        r.sender == sender,
{
    NewVerificationCode {
        identifier: identifier.to_owned(),
        channel: channel.to_owned(),
        scene: scene.to_owned(),
        code: code.to_owned(),
        expires_at: now + policy.ttl_micros,
        request_ip,
        sender,
    }
}

pub open spec fn code_expired() -> Refusal {
    Refusal::Coded { kind: ErrorKind::BadRequest, code: "AUTH_CODE_EXPIRED"@, message: "验证码不存在或已失效"@ }
}

pub open spec fn code_invalid() -> Refusal {
    Refusal::Coded { kind: ErrorKind::Unauthorized, code: "AUTH_CODE_INVALID"@, message: "验证码错误"@ }
}

/// Checks a submitted code against the active code of its identifier, channel and
/// scene; on success returns the id of the code to mark as used.
pub fn verify_code_decision(active: Option<ActiveVerificationCode>, code: &str) -> (r: Result<i64, AppError>)
    ensures
        match active {
            None => refuses(r, code_expired()),
            Some(a) => if a.code@ == code@ {
                r == Ok::<i64, AppError>(a.id)
            } else {
                refuses(r, code_invalid())
            },
        },
{
    match active {
        None => Err(AppError::bad_request_code("AUTH_CODE_EXPIRED", "验证码不存在或已失效")),
        Some(a) => {
            if same_text(a.code.as_str(), code) {
                Ok(a.id)
            } else {
                Err(AppError::unauthorized_code("AUTH_CODE_INVALID", "验证码错误"))
            }
        },
    }
}

/// A second code for the same identifier is refused until the cooldown has passed since
/// the first, and allowed from then on.
pub proof fn law_cooldown(issued: i64, now: i64, cooldown: i64)
    ensures
        now - issued < cooldown ==> within_cooldown(Some(issued), now, cooldown),
        now - issued >= cooldown ==> !within_cooldown(Some(issued), now, cooldown),
        !within_cooldown(None, now, cooldown),
{
}

} // verus!
