//! Data passed between login methods and the user service.

use vstd::prelude::*;

verus! {

/// What a client submits to log in: the method, who it claims to be, and its proof.
#[derive(Debug, Clone)]
pub struct AuthInput {
    pub kind: String,
    pub identifier: String,
    pub credential: String,
}

/// Where a request comes from.
#[derive(Debug, Clone, Default)]
pub struct AuthContext {
    pub ip: Option<String>,
    pub platform: Option<String>,
    pub device_name: Option<String>,
    pub device_id: Option<String>,
    pub app_version: Option<String>,
}

/// An identity a login method has established.
#[derive(Debug, Clone)]
pub struct AuthIdentity {
    pub auth_type: String,
    pub identifier: String,
    pub display_name: Option<String>,
    pub avatar: Option<String>,
}

/// A stored password credential.
#[derive(Debug, Clone)]
pub struct PasswordRecord {
    pub auth_type: String,
    pub identifier: String,
    pub password_hash: String,
    pub display_name: Option<String>,
    pub avatar: Option<String>,
}

/// A verification code that is still usable.
#[derive(Debug, Clone)]
pub struct ActiveVerificationCode {
    pub id: i64,
    pub code: String,
}

/// How verification codes are issued. Durations are in microseconds.
#[derive(Debug, Clone)]
pub struct VerificationCodePolicy {
    pub scene: String,
    pub length: u32,
    pub ttl_micros: i64,
    pub cooldown_micros: i64,
    pub expose_code: bool,
}

impl VerificationCodePolicy {
    /// Six-digit login codes valid for five minutes, at most one a minute, sent rather
    /// than shown.
    pub fn standard() -> (p: Self)
        ensures
            p.scene@ == "login"@,
            p.length == 6,
            p.ttl_micros == 300_000_000,
            p.cooldown_micros == 60_000_000,
            !p.expose_code,
    {
        VerificationCodePolicy {
            scene: "login".to_owned(),
            length: 6,
            ttl_micros: 300_000_000,
            cooldown_micros: 60_000_000,
            expose_code: false,
        }
    }
}

impl Default for VerificationCodePolicy {
    fn default() -> (p: Self)
        ensures
            p.scene@ == "login"@,
            p.length == 6,
            p.ttl_micros == 300_000_000,
            p.cooldown_micros == 60_000_000,
            !p.expose_code,
    {
        Self::standard()
    }
}

/// A verification code to store. `expires_at` is a Unix time in microseconds.
#[derive(Debug, Clone)]
pub struct NewVerificationCode {
    pub identifier: String,
    pub channel: String,
    pub scene: String,
    pub code: String,
    pub expires_at: i64,
    pub request_ip: Option<String>,
    pub sender: Option<String>,
}

} // verus!
