//! Request checks of the user HTTP routes that come before the account service is
//! called.

use vstd::prelude::*;

use crate::error::{refuses, unauthorized_refusal, AppError, ErrorKind, Refusal};
use crate::text::{same_text, trim, trimmed};
use crate::user::account::{binding_available, bound_elsewhere, BindKind};
use crate::user::model::{AccountIdentifierCheck, UserContext};
use crate::web::{bearer_credential, bearer_of, opt_text};

verus! {

/// Scene of a code request that names none.
pub fn default_code_scene() -> (r: String)
    ensures
        r@ == "login"@,
{
    "login".to_owned()
}

pub open spec fn scene_invalid() -> Refusal {
    Refusal::Coded { kind: ErrorKind::BadRequest, code: "AUTH_CODE_SCENE_INVALID"@, message: "不支持的验证码场景"@ }
}

/// What a code scene needs: `login` and `reset_password` need nothing more, the two
/// binding scenes need a logged-in user and the identifier kind they bind.
pub open spec fn scene_binding(scene: Seq<char>) -> Result<Option<BindKind>, Refusal> {
    if scene == "login"@ || scene == "reset_password"@ {
        Ok(None)
    } else if scene == "bind_email"@ {
        Ok(Some(BindKind::Email))
    } else if scene == "bind_phone"@ {
        Ok(Some(BindKind::Phone))
    } else {
        Err(scene_invalid())
    }
}

/// `login` and `reset_password` codes need no logged-in user, `bind_email` binds an
/// email and `bind_phone` a phone; any other scene is refused.
pub proof fn law_code_scenes(scene: Seq<char>)
    ensures
        scene == "login"@ ==> scene_binding(scene) == Ok::<Option<BindKind>, Refusal>(None),
        scene == "reset_password"@ ==> scene_binding(scene) == Ok::<Option<BindKind>, Refusal>(None),
        scene == "bind_email"@ ==> scene_binding(scene) == Ok::<Option<BindKind>, Refusal>(Some(BindKind::Email)),
        scene == "bind_phone"@ ==> scene_binding(scene) == Ok::<Option<BindKind>, Refusal>(Some(BindKind::Phone)),
        (scene != "login"@ && scene != "reset_password"@ && scene != "bind_email"@ && scene != "bind_phone"@)
            ==> scene_binding(scene) == Err::<Option<BindKind>, Refusal>(scene_invalid()),
{
    reveal_strlit("login");
    reveal_strlit("reset_password");
    reveal_strlit("bind_email");
    reveal_strlit("bind_phone");
    assert("login"@ != "bind_email"@ && "login"@ != "bind_phone"@ && "reset_password"@ != "bind_email"@
        && "reset_password"@ != "bind_phone"@ && "bind_email"@ != "bind_phone"@) by {
        assert("login"@[0] != "bind_email"@[0] && "reset_password"@[0] != "bind_email"@[0]);
        assert("bind_email"@[5] != "bind_phone"@[5]);
    }
}

/// Checks the scene of a code request.
pub fn code_request_scene(scene: &str) -> (r: Result<Option<BindKind>, AppError>)
    ensures
        match scene_binding(scene@) {
            Ok(b) => r matches Ok(x) && x == b,
            Err(why) => refuses(r, why),
        },
{
    if same_text(scene, "login") || same_text(scene, "reset_password") {
        Ok(None)
    } else if same_text(scene, "bind_email") {
        Ok(Some(BindKind::Email))
    } else if same_text(scene, "bind_phone") {
        Ok(Some(BindKind::Phone))
    } else {
        Err(AppError::bad_request_code("AUTH_CODE_SCENE_INVALID", "不支持的验证码场景"))
    }
}

pub open spec fn channel_mismatch() -> Refusal {
    Refusal::Coded {
        kind: ErrorKind::BadRequest,
        code: "AUTH_CODE_CHANNEL_INVALID"@,
        message: "验证码通道与使用场景不匹配"@,
    }
}

/// A binding code must travel on the channel of what it binds: e-mail codes by
/// `email`, phone codes by `sms`.
pub fn bind_channel_check(kind: BindKind, channel: &str) -> (r: Result<(), AppError>)
    ensures
        r is Ok <==> channel@ == kind.credential_text(),
        r is Err ==> refuses(r, channel_mismatch()),
{
    if !same_text(channel, kind.credential_type()) {
        return Err(AppError::bad_request_code("AUTH_CODE_CHANNEL_INVALID", "验证码通道与使用场景不匹配"));
    }
    Ok(())
}

/// The login token of a request: the credential of its `Authorization: Bearer` header.
pub fn request_token(authorization: Option<&str>) -> (r: Result<String, AppError>)
    ensures
        match bearer_of(opt_text(authorization)) {
            Some(t) => r matches Ok(x) && x@ == t,
            None => refuses(r, unauthorized_refusal("缺少有效登录凭据"@)),
        },
{
    match bearer_credential(authorization) {
        Some(t) => Ok(t),
        None => Err(AppError::unauthorized("缺少有效登录凭据")),
    }
}

// ---------------------------------------------------------------------------
// The order of a code request.

/// A call a code request asks the host to perform.
#[derive(Debug)]
pub enum CodeRequestCall {
    /// `TokenProvider::resolve` of the request's login token.
    ResolveUser { token: String },
    /// `FxUserService::check_account` for the user.
    CheckAccount { user: UserContext, account_type: String, identifier: String },
    /// `VerificationCodeProviders::request_code`.
    RequestCode { channel: String, identifier: String, scene: String },
}

/// Outcome of a `CodeRequestCall`.
#[derive(Debug)]
pub enum CodeRequestReply {
    User(Result<UserContext, AppError>),
    Checked(Result<AccountIdentifierCheck, AppError>),
    Requested(Result<Option<String>, AppError>),
}

/// Next step of a code request: a call, or the outcome (the code when it is exposed).
#[derive(Debug)]
pub enum CodeRequestStep {
    Call(CodeRequestCall),
    Finish(Result<Option<String>, AppError>),
}

/// Where a code request stands.
#[derive(Debug, Clone, Copy)]
pub enum CodeRequestPhase {
    /// Waiting for the user of the login token (binding scenes).
    Resolving(BindKind),
    /// Waiting for the availability of the identifier to bind.
    Checking(BindKind),
    /// Waiting for the code to be issued.
    Requesting,
    Finished,
}

/// A request for a verification code.
#[derive(Debug)]
pub struct CodeRequest {
    pub channel: String,
    pub scene: String,
    /// The trimmed identifier.
    pub identifier: String,
    pub phase: CodeRequestPhase,
}

impl CodeRequest {
    /// Whether `reply` answers the call the request is waiting for.
    pub open spec fn awaits(&self, reply: CodeRequestReply) -> bool {
        match self.phase {
            CodeRequestPhase::Resolving(_) => reply is User,
            CodeRequestPhase::Checking(_) => reply is Checked,
            CodeRequestPhase::Requesting => reply is Requested,
            CodeRequestPhase::Finished => false,
        }
    }

    /// The call that issues the code.
    pub open spec fn issue_call(&self, call: CodeRequestCall) -> bool {
        call matches CodeRequestCall::RequestCode { channel, identifier, scene }
            && channel == self.channel && identifier == self.identifier && scene == self.scene
    }

    /// Starts a code request. An unknown scene is refused first; a login or reset scene
    /// asks for the code at once; a binding scene first needs the request's login token,
    /// whose user is then resolved.
    pub fn start(channel: &str, identifier: &str, scene: &str, authorization: Option<&str>) -> (res: (CodeRequest, CodeRequestStep))
        ensures
            res.0.channel@ == channel@,
            res.0.scene@ == scene@,
            res.0.identifier@ == trimmed(identifier@),
            match scene_binding(scene@) {
                Err(why) => res.0.phase is Finished && (res.1 matches CodeRequestStep::Finish(r) && refuses(r, why)),
                Ok(None) => res.0.phase is Requesting && (res.1 matches CodeRequestStep::Call(c) && res.0.issue_call(c)),
                Ok(Some(kind)) => match bearer_of(opt_text(authorization)) {
                    None => res.0.phase is Finished && (res.1 matches CodeRequestStep::Finish(r)
                        && refuses(r, unauthorized_refusal("缺少有效登录凭据"@))),
                    Some(t) => res.0.phase == CodeRequestPhase::Resolving(kind)
                        && (res.1 matches CodeRequestStep::Call(CodeRequestCall::ResolveUser { token }) && token@ == t),
                },
            },
    {
        let mut req = CodeRequest {
            channel: channel.to_owned(),
            scene: scene.to_owned(),
            identifier: trim(identifier),
            phase: CodeRequestPhase::Finished,
        };
        let binding = match code_request_scene(scene) {
            Err(e) => return (req, CodeRequestStep::Finish(Err(e))),
            Ok(b) => b,
        };
        match binding {
            None => {
                req.phase = CodeRequestPhase::Requesting;
                let call = req.issue_code_call();
                (req, CodeRequestStep::Call(call))
            },
            Some(kind) => match request_token(authorization) {
                Err(e) => (req, CodeRequestStep::Finish(Err(e))),
                Ok(token) => {
                    req.phase = CodeRequestPhase::Resolving(kind);
                    (req, CodeRequestStep::Call(CodeRequestCall::ResolveUser { token }))
                },
            },
        }
    }

    fn issue_code_call(&self) -> (c: CodeRequestCall)
        ensures
            self.issue_call(c),
    {
        CodeRequestCall::RequestCode {
            channel: self.channel.clone(),
            identifier: self.identifier.clone(),
            scene: self.scene.clone(),
        }
    }

    /// What follows `old` when the host answers with `reply`.
    pub open spec fn next(old: CodeRequest, reply: CodeRequestReply, new: CodeRequest, step: CodeRequestStep) -> bool {
        &&& new.channel == old.channel
        &&& new.scene == old.scene
        &&& new.identifier == old.identifier
        &&& match (old.phase, reply) {
            (CodeRequestPhase::Resolving(kind), CodeRequestReply::User(u)) => match u {
                Err(e) => new.phase is Finished && step == CodeRequestStep::Finish(Err(e)),
                Ok(user) => if old.channel@ == kind.credential_text() {
                    &&& new.phase == CodeRequestPhase::Checking(kind)
                    &&& step matches CodeRequestStep::Call(CodeRequestCall::CheckAccount { user: x, account_type, identifier })
                    &&& x == user && account_type@ == kind.account_type_text() && identifier == old.identifier
                } else {
                    new.phase is Finished && (step matches CodeRequestStep::Finish(r) && refuses(r, channel_mismatch()))
                },
            },
            (CodeRequestPhase::Checking(kind), CodeRequestReply::Checked(c)) => match c {
                Err(e) => new.phase is Finished && step == CodeRequestStep::Finish(Err(e)),
                Ok(check) => if check.available {
                    new.phase is Requesting && (step matches CodeRequestStep::Call(call) && new.issue_call(call))
                } else {
                    new.phase is Finished && (step matches CodeRequestStep::Finish(r) && refuses(r, bound_elsewhere(kind)))
                },
            },
            (CodeRequestPhase::Requesting, CodeRequestReply::Requested(r)) => new.phase is Finished
                && step == CodeRequestStep::Finish(r),
            _ => false,
        }
    }

    /// Advances the request with the host's answer to the pending call.
    pub fn step(self, reply: CodeRequestReply) -> (res: (CodeRequest, CodeRequestStep))
        requires
            self.awaits(reply),
        ensures
            CodeRequest::next(self, reply, res.0, res.1),
    {
        let mut req = self;
        match (req.phase, reply) {
            (CodeRequestPhase::Resolving(kind), CodeRequestReply::User(u)) => match u {
                Err(e) => {
                    req.phase = CodeRequestPhase::Finished;
                    (req, CodeRequestStep::Finish(Err(e)))
                },
                Ok(user) => match bind_channel_check(kind, req.channel.as_str()) {
                    Err(e) => {
                        req.phase = CodeRequestPhase::Finished;
                        (req, CodeRequestStep::Finish(Err(e)))
                    },
                    Ok(()) => {
                        req.phase = CodeRequestPhase::Checking(kind);
                        let call = CodeRequestCall::CheckAccount {
                            user,
                            account_type: kind.account_type().to_owned(),
                            identifier: req.identifier.clone(),
                        };
                        (req, CodeRequestStep::Call(call))
                    },
                },
            },
            (CodeRequestPhase::Checking(kind), CodeRequestReply::Checked(c)) => match c {
                Err(e) => {
                    req.phase = CodeRequestPhase::Finished;
                    (req, CodeRequestStep::Finish(Err(e)))
                },
                Ok(check) => match binding_available(kind, check) {
                    Err(e) => {
                        req.phase = CodeRequestPhase::Finished;
                        (req, CodeRequestStep::Finish(Err(e)))
                    },
                    Ok(()) => {
                        req.phase = CodeRequestPhase::Requesting;
                        let call = req.issue_code_call();
                        (req, CodeRequestStep::Call(call))
                    },
                },
            },
            (CodeRequestPhase::Requesting, CodeRequestReply::Requested(r)) => {
                req.phase = CodeRequestPhase::Finished;
                (req, CodeRequestStep::Finish(r))
            },
            (_, _) => {
                assert(false);
                (req, CodeRequestStep::Finish(Ok(None)))
            },
        }
    }
}

} // verus!
