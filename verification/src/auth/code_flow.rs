//! The issue and verify flows of one-time codes, as state machines: each step names the
//! next call into the host's code store or sender, and the host feeds the outcome back.

use vstd::prelude::*;

use crate::auth::code::{
    code_expired, code_invalid, cooldown_check, generate_code, new_code_record, rate_limited,
    well_formed_code, within_cooldown,
};
use crate::auth::model::{ActiveVerificationCode, NewVerificationCode, VerificationCodePolicy};
use crate::error::{refuses, AppError};

verus! {

/// A call the host performs for a code flow.
#[derive(Debug)]
pub enum CodeCall {
    /// `VerificationCodeStore::latest_issued_at`.
    LatestIssuedAt { identifier: String, request_ip: Option<String> },
    /// `VerificationCodeSender::name` for the channel.
    SenderName { channel: String },
    /// `VerificationCodeStore::save`.
    Save { record: NewVerificationCode },
    /// `VerificationCodeSender::send`.
    Send { channel: String, identifier: String, code: String },
    /// `VerificationCodeStore::find_active` at time `now`.
    FindActive { identifier: String, channel: String, scene: String, now: i64 },
    /// `VerificationCodeStore::mark_used`.
    MarkUsed { id: i64 },
}

/// The outcome of a `CodeCall`.
#[derive(Debug)]
pub enum CodeReply {
    Latest(Result<Option<i64>, AppError>),
    SenderName(Option<String>),
    Saved(Result<(), AppError>),
    Sent(Result<(), AppError>),
    Active(Result<Option<ActiveVerificationCode>, AppError>),
    Marked(Result<(), AppError>),
}

/// The next call of a flow, or its outcome.
#[derive(Debug)]
pub enum CodeStep<T> {
    Call(CodeCall),
    Finish(Result<T, AppError>),
}

/// Where issuing a code stands.
#[derive(Debug)]
pub enum IssuePhase {
    /// Reading when the last code for the identifier or address was issued.
    Latest,
    /// Asking the sender for its name, with the generated code.
    Naming(String),
    /// Storing the code.
    Saving(String),
    /// Sending the code.
    Sending,
    Finished,
}

/// Issuing a code on `channel` to `identifier` for `scene`, at time `now`.
#[derive(Debug)]
pub struct CodeIssue {
    pub channel: String,
    pub identifier: String,
    pub scene: String,
    pub request_ip: Option<String>,
    pub now: i64,
    pub policy: VerificationCodePolicy,
    pub phase: IssuePhase,
}

impl CodeIssue {
    /// Starts issuing: the first call reads the time of the previous code.
    pub fn start(channel: &str, identifier: &str, scene: &str, request_ip: Option<String>, now: i64, policy: VerificationCodePolicy) -> (res: (CodeIssue, CodeStep<Option<String>>))
        ensures
            res.0.channel@ == channel@,
            res.0.identifier@ == identifier@,
            res.0.scene@ == scene@,
            res.0.request_ip == request_ip,
            res.0.now == now,
            res.0.policy == policy,
            res.0.phase is Latest,
            res.1 matches CodeStep::Call(CodeCall::LatestIssuedAt { identifier: i, request_ip: ip })
                && i@ == identifier@ && ip == request_ip,
    {
        let ip = request_ip.clone();
        let issue = CodeIssue {
            channel: channel.to_owned(),
            identifier: identifier.to_owned(),
            scene: scene.to_owned(),
            request_ip,
            now,
            policy,
            phase: IssuePhase::Latest,
        };
        let call = CodeCall::LatestIssuedAt { identifier: identifier.to_owned(), request_ip: ip };
        (issue, CodeStep::Call(call))
    }

    /// Whether `reply` answers the pending call.
    pub open spec fn awaits(&self, reply: CodeReply) -> bool {
        match self.phase {
            IssuePhase::Latest => reply is Latest,
            IssuePhase::Naming(_) => reply is SenderName,
            IssuePhase::Saving(_) => reply is Saved,
            IssuePhase::Sending => reply is Sent,
            IssuePhase::Finished => false,
        }
    }

    /// What follows `old` when the host answers with `reply`.
    pub open spec fn next(old: CodeIssue, reply: CodeReply, new: CodeIssue, step: CodeStep<Option<String>>) -> bool {
        &&& new.channel == old.channel
        &&& new.identifier == old.identifier
        &&& new.scene == old.scene
        &&& new.request_ip == old.request_ip
        &&& new.now == old.now
        &&& new.policy == old.policy
        &&& match (old.phase, reply) {
            (IssuePhase::Latest, CodeReply::Latest(latest)) => match latest {
                Err(e) => new.phase is Finished && step == CodeStep::<Option<String>>::Finish(Err(e)),
                Ok(t) => if within_cooldown(t, old.now, old.policy.cooldown_micros) {
                    new.phase is Finished && refuses_step(step, rate_limited())
                } else {
                    new.phase matches IssuePhase::Naming(code) && well_formed_code(code@, old.policy.length)
                        && step == CodeStep::<Option<String>>::Call(CodeCall::SenderName { channel: old.channel })
                },
            },
            (IssuePhase::Naming(code), CodeReply::SenderName(sender)) => {
                &&& new.phase == IssuePhase::Saving(code)
                &&& step matches CodeStep::Call(CodeCall::Save { record })
                &&& record.identifier@ == old.identifier@
                &&& record.channel@ == old.channel@
                &&& record.scene@ == old.scene@
                &&& record.code@ == code@
                &&& record.expires_at == old.now + old.policy.ttl_micros
                &&& record.request_ip == old.request_ip
                &&& record.sender == sender
            },
            (IssuePhase::Saving(code), CodeReply::Saved(saved)) => match saved {
                Err(e) => new.phase is Finished && step == CodeStep::<Option<String>>::Finish(Err(e)),
                Ok(()) => if old.policy.expose_code {
                    new.phase is Finished && step == CodeStep::<Option<String>>::Finish(Ok(Some(code)))
                } else {
                    new.phase is Sending && step == CodeStep::<Option<String>>::Call(CodeCall::Send {
                        channel: old.channel,
                        identifier: old.identifier,
                        code,
                    })
                },
            },
            (IssuePhase::Sending, CodeReply::Sent(sent)) => new.phase is Finished && match sent {
                Err(e) => step == CodeStep::<Option<String>>::Finish(Err(e)),
                Ok(()) => step == CodeStep::<Option<String>>::Finish(Ok(None)),
            },
            _ => false,
        }
    }

    /// Advances issuing with the host's answer to the pending call.
    pub fn step(self, reply: CodeReply) -> (res: (CodeIssue, CodeStep<Option<String>>))
        requires
            self.awaits(reply),
            i64::MIN <= self.now + self.policy.ttl_micros <= i64::MAX,
        ensures
            CodeIssue::next(self, reply, res.0, res.1),
    {
        let mut s = self;
        let mut phase = IssuePhase::Finished;
        std::mem::swap(&mut phase, &mut s.phase);
        match phase {
            IssuePhase::Latest => {
                let latest = match reply {
                    CodeReply::Latest(l) => l,
                    _ => {
                        assert(false);
                        return (s, CodeStep::Finish(Ok(None)));
                    },
                };
                match latest {
                    Err(e) => (s, CodeStep::Finish(Err(e))),
                    Ok(t) => match cooldown_check(t, s.now, s.policy.cooldown_micros) {
                        Err(e) => (s, CodeStep::Finish(Err(e))),
                        Ok(()) => {
                            let code = generate_code(s.policy.length);
                            s.phase = IssuePhase::Naming(code);
                            let channel = s.channel.clone();
                            (s, CodeStep::Call(CodeCall::SenderName { channel }))
                        },
                    },
                }
            },
            IssuePhase::Naming(code) => {
                let sender = match reply {
                    CodeReply::SenderName(n) => n,
                    _ => {
                        assert(false);
                        return (s, CodeStep::Finish(Ok(None)));
                    },
                };
                let ip = s.request_ip.clone();
                let record = new_code_record(
                    s.identifier.as_str(),
                    s.channel.as_str(),
                    s.scene.as_str(),
                    code.as_str(),
                    s.now,
                    &s.policy,
                    ip,
                    sender,
                );
                s.phase = IssuePhase::Saving(code);
                (s, CodeStep::Call(CodeCall::Save { record }))
            },
            IssuePhase::Saving(code) => {
                let saved = match reply {
                    CodeReply::Saved(r) => r,
                    _ => {
                        assert(false);
                        return (s, CodeStep::Finish(Ok(None)));
                    },
                };
                match saved {
                    Err(e) => (s, CodeStep::Finish(Err(e))),
                    Ok(()) => {
                        if s.policy.expose_code {
                            (s, CodeStep::Finish(Ok(Some(code))))
                        } else {
                            s.phase = IssuePhase::Sending;
                            let channel = s.channel.clone();
                            let identifier = s.identifier.clone();
                            (s, CodeStep::Call(CodeCall::Send { channel, identifier, code }))
                        }
                    },
                }
            },
            IssuePhase::Sending => {
                let sent = match reply {
                    CodeReply::Sent(r) => r,
                    _ => {
                        assert(false);
                        return (s, CodeStep::Finish(Ok(None)));
                    },
                };
                match sent {
                    Err(e) => (s, CodeStep::Finish(Err(e))),
                    Ok(()) => (s, CodeStep::Finish(Ok(None))),
                }
            },
            IssuePhase::Finished => {
                assert(false);
                (s, CodeStep::Finish(Ok(None)))
            },
        }
    }
}

/// `step` finishes with an error that `why` describes.
pub open spec fn refuses_step<T>(step: CodeStep<T>, why: crate::error::Refusal) -> bool {
    step matches CodeStep::Finish(r) && refuses(r, why)
}

/// Where verifying a code stands.
#[derive(Debug)]
pub enum VerifyPhase {
    /// Looking up the active code.
    Finding,
    /// Consuming the matched code.
    Marking,
    Finished,
}

/// Verifying `code` for `identifier` on `channel` in `scene`, at time `now`.
#[derive(Debug)]
pub struct CodeVerify {
    pub code: String,
    pub phase: VerifyPhase,
}

impl CodeVerify {
    /// Starts verifying: the first call looks the active code of the identifier, channel
    /// and scene up.
    pub fn start(channel: &str, identifier: &str, code: &str, scene: &str, now: i64) -> (res: (CodeVerify, CodeStep<()>))
        ensures
            res.0.code@ == code@,
            res.0.phase is Finding,
            res.1 matches CodeStep::Call(CodeCall::FindActive { identifier: i, channel: c, scene: s, now: t })
                && i@ == identifier@ && c@ == channel@ && s@ == scene@ && t == now,
    {
        let v = CodeVerify { code: code.to_owned(), phase: VerifyPhase::Finding };
        let call = CodeCall::FindActive {
            identifier: identifier.to_owned(),
            channel: channel.to_owned(),
            scene: scene.to_owned(),
            now,
        };
        (v, CodeStep::Call(call))
    }

    pub open spec fn awaits(&self, reply: CodeReply) -> bool {
        match self.phase {
            VerifyPhase::Finding => reply is Active,
            VerifyPhase::Marking => reply is Marked,
            VerifyPhase::Finished => false,
        }
    }

    /// What follows `old` when the host answers with `reply`: a missing code is expired,
    /// a different code is invalid and consumes nothing, the right one is marked used.
    pub open spec fn next(old: CodeVerify, reply: CodeReply, new: CodeVerify, step: CodeStep<()>) -> bool {
        &&& new.code == old.code
        &&& match (old.phase, reply) {
            (VerifyPhase::Finding, CodeReply::Active(found)) => match found {
                Err(e) => new.phase is Finished && step == CodeStep::<()>::Finish(Err(e)),
                Ok(None) => new.phase is Finished && refuses_step(step, code_expired()),
                Ok(Some(a)) => if a.code@ == old.code@ {
                    new.phase is Marking && step == CodeStep::<()>::Call(CodeCall::MarkUsed { id: a.id })
                } else {
                    new.phase is Finished && refuses_step(step, code_invalid())
                },
            },
            (VerifyPhase::Marking, CodeReply::Marked(marked)) => new.phase is Finished
                && step == CodeStep::<()>::Finish(marked),
            _ => false,
        }
    }

    /// Advances verifying with the host's answer to the pending call.
    pub fn step(self, reply: CodeReply) -> (res: (CodeVerify, CodeStep<()>))
        requires
            self.awaits(reply),
        ensures
            CodeVerify::next(self, reply, res.0, res.1),
    {
        let mut v = self;
        let mut phase = VerifyPhase::Finished;
        std::mem::swap(&mut phase, &mut v.phase);
        match phase {
            VerifyPhase::Finding => {
                let found = match reply {
                    CodeReply::Active(f) => f,
                    _ => {
                        assert(false);
                        return (v, CodeStep::Finish(Ok(())));
                    },
                };
                match found {
                    Err(e) => (v, CodeStep::Finish(Err(e))),
                    Ok(active) => match crate::auth::code::verify_code_decision(active, v.code.as_str()) {
                        Err(e) => (v, CodeStep::Finish(Err(e))),
                        Ok(id) => {
                            v.phase = VerifyPhase::Marking;
                            (v, CodeStep::Call(CodeCall::MarkUsed { id }))
                        },
                    },
                }
            },
            VerifyPhase::Marking => {
                let marked = match reply {
                    CodeReply::Marked(m) => m,
                    _ => {
                        assert(false);
                        return (v, CodeStep::Finish(Ok(())));
                    },
                };
                (v, CodeStep::Finish(marked))
            },
            VerifyPhase::Finished => {
                assert(false);
                (v, CodeStep::Finish(Ok(())))
            },
        }
    }
}

/// Issuing never stores or sends anything during the cooldown, and an exposed code is
/// the very code that was stored; a stored code submitted unchanged is consumed, while a
/// different submission consumes nothing.
pub proof fn law_issue_and_verify(
    naming: CodeIssue,
    sender: Option<String>,
    saving: CodeIssue,
    save_step: CodeStep<Option<String>>,
    saved: CodeIssue,
    done: CodeStep<Option<String>>,
    finding: CodeVerify,
    active: ActiveVerificationCode,
    after: CodeVerify,
    verdict: CodeStep<()>,
)
    requires
        naming.phase is Naming,
        CodeIssue::next(naming, CodeReply::SenderName(sender), saving, save_step),
        CodeIssue::next(saving, CodeReply::Saved(Ok(())), saved, done),
        saving.policy.expose_code,
        finding.phase is Finding,
        CodeVerify::next(finding, CodeReply::Active(Ok(Some(active))), after, verdict),
    ensures
        (save_step matches CodeStep::Call(CodeCall::Save { record })
            && done matches CodeStep::Finish(Ok(Some(shown))) && shown@ == record.code@),
        active.code@ == finding.code@ <==> verdict == CodeStep::<()>::Call(CodeCall::MarkUsed { id: active.id }),
{
}

/// A code requested during the cooldown of the previous one ends the flow with the
/// rate-limit error: nothing is generated, stored or sent.
pub proof fn law_cooldown_stores_nothing(issue: CodeIssue, issued: i64, new: CodeIssue, step: CodeStep<Option<String>>)
    requires
        issue.phase is Latest,
        issue.now - issued < issue.policy.cooldown_micros,
        CodeIssue::next(issue, CodeReply::Latest(Ok(Some(issued))), new, step),
    ensures
        new.phase is Finished,
        refuses_step(step, rate_limited()),
{
}

} // verus!
