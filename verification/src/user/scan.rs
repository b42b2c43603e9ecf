//! QR-code login sessions: a browser shows a code, a logged-in phone scans and confirms
//! it, and the browser then receives a token for that phone's account.
//!
//! Session states are stored as small integers: `0` pending, `1` scanned, `2`
//! confirmed, `3` cancelled. Times are Unix timestamps in microseconds.

use vstd::prelude::*;

use crate::error::{bad_request_refusal, not_found_refusal, refuses, AppError};
use crate::storage::naming::{new_uuid_v4, uuid_text, uuid_text_of};
use crate::text::{concat, same_text};

verus! {

/// How long a new session stays valid: five minutes.
pub const SCAN_SESSION_TTL_MICROS: i64 = 300_000_000;

/// A stored scan session.
#[derive(Debug, Clone, Copy, PartialEq, Eq, Structural)]
pub struct ScanSession {
    pub status: i16,
    pub user_id: Option<i64>,
    pub expires_at: i64,
}

/// What the browser polling a session is told.
#[derive(Debug, Clone, Copy, PartialEq, Eq, Structural)]
pub enum ScanReport {
    Expired,
    Pending,
    Scanned,
    /// Confirmed by this account, for which a token is issued.
    Confirmed { account_id: i64 },
    Cancelled,
    Unknown,
}

/// What a session reports at time `now`: an unconfirmed session past its expiry is
/// expired; a confirmed one names the account that confirmed it.
pub open spec fn report_of(session: ScanSession, now: i64) -> Result<ScanReport, crate::error::Refusal> {
    if now > session.expires_at && session.status < 2 {
        Ok(ScanReport::Expired)
    } else if session.status == 0 {
        Ok(ScanReport::Pending)
    } else if session.status == 1 {
        Ok(ScanReport::Scanned)
    } else if session.status == 2 {
        match session.user_id {
            Some(id) => Ok(ScanReport::Confirmed { account_id: id }),
            None => Err(bad_request_refusal("扫码用户不存在"@)),
        }
    } else if session.status == 3 {
        Ok(ScanReport::Cancelled)
    } else {
        Ok(ScanReport::Unknown)
    }
}

/// The report on a polled session (`None` when no session has the token).
pub fn scan_status_report(session: Option<ScanSession>, now: i64) -> (r: Result<ScanReport, AppError>)
    ensures
        match session {
            None => refuses(r, not_found_refusal("扫码会话不存在"@)),
            Some(s) => match report_of(s, now) {
                Ok(report) => r matches Ok(x) && x == report,
                Err(why) => refuses(r, why),
            },
        },
{
    let s = match session {
        None => return Err(AppError::not_found("扫码会话不存在")),
        Some(s) => s,
    };
    if now > s.expires_at && s.status < 2 {
        return Ok(ScanReport::Expired);
    }
    match s.status {
        0 => Ok(ScanReport::Pending),
        1 => Ok(ScanReport::Scanned),
        2 => match s.user_id {
            Some(id) => Ok(ScanReport::Confirmed { account_id: id }),
            None => Err(AppError::bad_request("扫码用户不存在")),
        },
        3 => Ok(ScanReport::Cancelled),
        _ => Ok(ScanReport::Unknown),
    }
}

impl ScanReport {
    pub open spec fn name_text(self) -> Seq<char> {
        match self {
            ScanReport::Expired => "expired"@,
            ScanReport::Pending => "pending"@,
            ScanReport::Scanned => "scanned"@,
            ScanReport::Confirmed { .. } => "confirmed"@,
            ScanReport::Cancelled => "cancelled"@,
            ScanReport::Unknown => "unknown"@,
        }
    }

    /// The `status` field reported to the browser.
    pub fn name(&self) -> (r: &'static str)
        ensures
            r@ == self.name_text(),
    {
        match self {
            ScanReport::Expired => "expired",
            ScanReport::Pending => "pending",
            ScanReport::Scanned => "scanned",
            ScanReport::Confirmed { .. } => "confirmed",
            ScanReport::Cancelled => "cancelled",
            ScanReport::Unknown => "unknown",
        }
    }
}

/// What a phone asks of a session.
#[derive(Debug, Clone, Copy, PartialEq, Eq, Structural)]
pub enum ScanAction {
    Scan,
    Confirm,
}

/// Checks a phone's request on a session at time `now`: the session must exist and be
/// unexpired, and the action must be `scan` or `confirm`.
pub fn scan_action(session: Option<ScanSession>, now: i64, action: &str) -> (r: Result<ScanAction, AppError>)
    ensures
        match session {
            None => refuses(r, bad_request_refusal("扫码会话不存在"@)),
            Some(s) => if now > s.expires_at {
                refuses(r, bad_request_refusal("二维码已过期"@))
            } else if action@ == "scan"@ {
                r == Ok::<ScanAction, AppError>(ScanAction::Scan)
            } else if action@ == "confirm"@ {
                r == Ok::<ScanAction, AppError>(ScanAction::Confirm)
            } else {
                refuses(r, bad_request_refusal("扫码状态不匹配"@))
            },
        },
{
    let s = match session {
        None => return Err(AppError::bad_request("扫码会话不存在")),
        Some(s) => s,
    };
    if now > s.expires_at {
        return Err(AppError::bad_request("二维码已过期"));
    }
    if same_text(action, "scan") {
        Ok(ScanAction::Scan)
    } else if same_text(action, "confirm") {
        Ok(ScanAction::Confirm)
    } else {
        Err(AppError::bad_request("扫码状态不匹配"))
    }
}

/// A session change that matched no session in the expected state is refused.
pub fn scan_change_outcome(changed: bool) -> (r: Result<(), AppError>)
    ensures
        r is Ok <==> changed,
        !changed ==> refuses(r, bad_request_refusal("扫码状态不匹配"@)),
{
    if changed {
        Ok(())
    } else {
        Err(AppError::bad_request("扫码状态不匹配"))
    }
}

/// The state a stored session moves to when account `account_id` applies `action` at
/// time `now` (`None` when the session is not in the state the action needs): a pending
/// session is scanned by anyone, and only the account that scanned it confirms it,
/// both before it expires.
pub open spec fn after_action(s: ScanSession, action: ScanAction, account_id: i64, now: i64) -> Option<ScanSession> {
    match action {
        ScanAction::Scan => if s.status == 0 && s.expires_at > now {
            Some(ScanSession { status: 1, user_id: Some(account_id), ..s })
        } else {
            None
        },
        ScanAction::Confirm => if s.status == 1 && s.user_id == Some(account_id) && s.expires_at > now {
            Some(ScanSession { status: 2, ..s })
        } else {
            None
        },
    }
}

/// The state a stored session moves to when `account_id` cancels it: only a scanned
/// session, and only by the account that scanned it.
pub open spec fn after_cancel(s: ScanSession, account_id: i64) -> Option<ScanSession> {
    if s.status == 1 && s.user_id == Some(account_id) {
        Some(ScanSession { status: 3, ..s })
    } else {
        None
    }
}

/// Applies a phone's action to a session held in memory, as the session store does;
/// returns whether the session changed.
pub fn apply_scan_action(session: &mut ScanSession, action: ScanAction, account_id: i64, now: i64) -> (changed: bool)
    ensures
        match after_action(*old(session), action, account_id, now) {
            Some(next) => changed && *final(session) == next,
            None => !changed && *final(session) == *old(session),
        },
{
    match action {
        ScanAction::Scan => {
            if session.status == 0 && session.expires_at > now {
                session.status = 1;
                session.user_id = Some(account_id);
                true
            } else {
                false
            }
        },
        ScanAction::Confirm => {
            if session.status == 1 && session.user_id == Some(account_id) && session.expires_at > now {
                session.status = 2;
                true
            } else {
                false
            }
        },
    }
}

/// Cancels a session held in memory, as the session store does; returns whether the
/// session changed.
pub fn apply_scan_cancel(session: &mut ScanSession, account_id: i64) -> (changed: bool)
    ensures
        match after_cancel(*old(session), account_id) {
            Some(next) => changed && *final(session) == next,
            None => !changed && *final(session) == *old(session),
        },
{
    if session.status == 1 && session.user_id == Some(account_id) {
        session.status = 3;
        true
    } else {
        false
    }
}

/// A session that one account scanned cannot be confirmed or cancelled by another, and a
/// confirmed session reports the account that scanned it.
pub proof fn law_only_the_scanner_confirms(s: ScanSession, scanner: i64, other: i64, t1: i64, t2: i64)
    requires
        after_action(s, ScanAction::Scan, scanner, t1) is Some,
        other != scanner,
    ensures
        after_action(after_action(s, ScanAction::Scan, scanner, t1).unwrap(), ScanAction::Confirm, other, t2) is None,
        after_cancel(after_action(s, ScanAction::Scan, scanner, t1).unwrap(), other) is None,
        after_action(after_action(s, ScanAction::Scan, scanner, t1).unwrap(), ScanAction::Confirm, scanner, t2) matches Some(c)
            ==> report_of(c, t2) == Ok::<ScanReport, crate::error::Refusal>(ScanReport::Confirmed { account_id: scanner }),
{
}

/// Each stored state is reported as its own status: before expiry a pending session
/// (0) reports `pending` and a scanned one (1) `scanned`; past expiry either reports
/// `expired`; a confirmed session (2) reports the confirming account and a cancelled one
/// (3) `cancelled`, whatever the time.
pub proof fn law_scan_report_per_state(s: ScanSession, now: i64)
    ensures
        now <= s.expires_at && s.status == 0 ==> report_of(s, now) == Ok::<ScanReport, crate::error::Refusal>(ScanReport::Pending),
        now <= s.expires_at && s.status == 1 ==> report_of(s, now) == Ok::<ScanReport, crate::error::Refusal>(ScanReport::Scanned),
        now > s.expires_at && (s.status == 0 || s.status == 1) ==> report_of(s, now) == Ok::<ScanReport, crate::error::Refusal>(ScanReport::Expired),
        s.status == 2 ==> (s.user_id matches Some(id) ==> report_of(s, now) == Ok::<ScanReport, crate::error::Refusal>(ScanReport::Confirmed { account_id: id })),
        s.status == 3 ==> report_of(s, now) == Ok::<ScanReport, crate::error::Refusal>(ScanReport::Cancelled),
{
}

/// After an account scans a pending session, polling it before it expires reports
/// `scanned`.
pub proof fn law_scanned_session_reports_scanned(s: ScanSession, account_id: i64, t: i64, now: i64)
    requires
        after_action(s, ScanAction::Scan, account_id, t) is Some,
        now <= s.expires_at,
    ensures
        report_of(after_action(s, ScanAction::Scan, account_id, t).unwrap(), now)
            == Ok::<ScanReport, crate::error::Refusal>(ScanReport::Scanned),
        report_of(after_action(s, ScanAction::Scan, account_id, t).unwrap(), now) matches Ok(r)
            ==> r.name_text() == "scanned"@,
        after_action(s, ScanAction::Scan, account_id, t).unwrap().user_id == Some(account_id),
{
}

/// A cancelled or confirmed session accepts no further action.
pub proof fn law_finished_sessions_stay(s: ScanSession, action: ScanAction, account_id: i64, now: i64)
    requires
        s.status == 2 || s.status == 3,
    ensures
        after_action(s, action, account_id, now) is None,
        after_cancel(s, account_id) is None,
{
}

/// A new session token: a random version-4 UUID in its hyphenated form.
pub fn new_scan_token() -> (r: String)
    ensures
        exists|u: u128| r@ == uuid_text_of(u),
{
    let u = new_uuid_v4();
    uuid_text(u)
}

/// The content of the QR code for a session token: `fx://auth/scan/<token>`.
pub fn scan_qr_content(token: &str) -> (r: String)
    ensures
        r@ == "fx://auth/scan/"@ + token@,
{
    concat("fx://auth/scan/", token)
}

/// Expiry of a session created at `now`.
pub fn scan_expiry(now: i64) -> (r: i64)
    requires
        now <= i64::MAX - SCAN_SESSION_TTL_MICROS,
    ensures
        r == now + SCAN_SESSION_TTL_MICROS,
{
    now + SCAN_SESSION_TTL_MICROS
}

} // verus!
