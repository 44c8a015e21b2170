//! The login orchestrator.
//!
//! Given an already-resolved account id and login method (the interactive
//! prompt that resolves them is outside this core), the orchestrator
//! loads or creates the device identity, starts a connection, attempts a
//! fast token-based resume, falls back to the selected authentication
//! flow, performs the post-login registration, persists a fresh token,
//! and hands back a live session handle.

use vstd::prelude::*;

use crate::engine::{CaptchaPrompt, Engine, Protocol, QrDisplay};
use crate::errors::{AuthRejected, IoError, LoginError};
use crate::password::{password_login, LoginResponse};
use crate::qrcode::qrcode_login;
use crate::session::AliveHandle;
use crate::store::{save_token, try_load_token, Store};

verus! {

/// How to authenticate when no token-based resume is possible.
#[derive(Debug, Clone, PartialEq, Eq)]
pub enum LoginMethod {
    /// Password authentication.
    Password {
        /// The client protocol to present.
        protocol: Protocol,
        /// The password.
        password: String,
    },
    /// QR-code authentication (always presented as the watch client,
    /// which is the one protocol that allows it).
    QrCode,
}

/// The client protocol a method connects with.
pub open spec fn spec_method_protocol(m: LoginMethod) -> Protocol {
    match m {
        LoginMethod::Password { protocol, .. } => protocol,
        LoginMethod::QrCode => Protocol::AndroidWatch,
    }
}

/// The client protocol a method connects with.
pub fn method_protocol(m: &LoginMethod) -> (p: Protocol)
    ensures
        p == spec_method_protocol(*m),
{
    match m {
        LoginMethod::Password { protocol, .. } => *protocol,
        LoginMethod::QrCode => Protocol::AndroidWatch,
    }
}

/// What the fast token-based resume attempt came to.
#[derive(Debug, PartialEq, Eq)]
pub enum Resume {
    /// The session is authenticated; full authentication is skipped.
    Resumed,
    /// No resume happened; full authentication is needed.
    NotResumed,
}

/// What one token-login outcome means for the resume attempt.
#[derive(Debug, PartialEq, Eq)]
pub enum ResumeDecision {
    /// The server accepted the token: the session is authenticated.
    Accepted,
    /// The transport-level call failed: the token is treated as invalid
    /// or expired — it is deleted, and the account reverts to full
    /// authentication.
    TokenExpired,
    /// The server answered with something other than success: the whole
    /// login aborts, carrying that response.
    Rejected(LoginResponse),
}

/// What each token-login outcome means for the resume attempt.
pub open spec fn spec_resume_decision(outcome: Result<LoginResponse, IoError>) -> ResumeDecision {
    match outcome {
        Ok(resp) => match resp {
            LoginResponse::Success { .. } => ResumeDecision::Accepted,
            _ => ResumeDecision::Rejected(resp),
        },
        Err(_) => ResumeDecision::TokenExpired,
    }
}

/// Judges one token-login outcome: exactly a success response resumes;
/// any other response rejects the login, carrying that response; a
/// transport-level failure expires the token.
pub fn resume_decision(outcome: Result<LoginResponse, IoError>) -> (d: ResumeDecision)
    ensures
        d == spec_resume_decision(outcome),
{
    match outcome {
        Ok(resp) => match resp {
            LoginResponse::Success { uin: _ } => ResumeDecision::Accepted,
            other => ResumeDecision::Rejected(other),
        },
        Err(_) => ResumeDecision::TokenExpired,
    }
}

/// The error a rejecting token-login response aborts the login with: an
/// authentication rejection whose text carries the response.
pub fn resume_rejection(resp: &LoginResponse) -> (e: LoginError)
    ensures
        e matches LoginError::Auth(a) && (a matches AuthRejected::Unknown { description }
            && description@ == crate::password::spec_describe(*resp)),
{
    LoginError::Auth(AuthRejected::Unknown { description: resp.describe() })
}

/// Attempts the fast token-based resume.  No persisted token means no
/// resume (not an error); a malformed token file aborts the login; the
/// engine's answer is judged by [`resume_decision`]: a success resumes, a
/// transport-level rejection deletes the token (treated as expired) and
/// falls back to full authentication, and any other response aborts the
/// login with [`resume_rejection`] of that response.
pub fn try_resume<E: Engine, S: Store>(engine: &mut E, store: &mut S, uin: i64) -> (r: Result<
    Resume,
    LoginError,
>)
    ensures
        r matches Err(e) ==> e is Io || e is TokenMalformed || e is Auth,
{
    let token = match try_load_token(store, uin) {
        Ok(Some(t)) => t,
        Ok(None) => {
            return Ok(Resume::NotResumed);
        },
        Err(e) => {
            return Err(e);
        },
    };
    match resume_decision(engine.token_login(&token)) {
        ResumeDecision::Accepted => Ok(Resume::Resumed),
        ResumeDecision::Rejected(resp) => Err(resume_rejection(&resp)),
        ResumeDecision::TokenExpired => {
            match store.delete_token(uin) {
                Ok(()) => Ok(Resume::NotResumed),
                Err(e) => Err(LoginError::Io(e)),
            }
        },
    }
}

/// Opens a session: loads or creates the device identity, prepares the
/// engine with it, connects, starts the background task, yields once so
/// the receive loop is up, then attempts the fast token-based resume.
fn begin_session<E: Engine, S: Store>(
    engine: &mut E,
    store: &mut S,
    uin: i64,
    protocol: Protocol,
) -> (r: Result<(E::Task, Resume), LoginError>)
    ensures
        r matches Err(e) ==> !(e is NonRecoverableDisconnect) && !(e is ResumeUnavailable),
{
    let device = match crate::store::load_or_create_identity(store, uin) {
        Ok(d) => d,
        Err(e) => {
            return Err(e);
        },
    };
    engine.prepare(&device, protocol);

    let stream = match engine.connect() {
        Ok(s) => s,
        Err(e) => {
            return Err(LoginError::Io(e));
        },
    };
    let task = engine.start(stream);
    engine.yield_once();

    // The receive loop is up; only now may a login request be sent.
    match try_resume(engine, store, uin) {
        Ok(resume) => Ok((task, resume)),
        Err(e) => Err(e),
    }
}

/// Closes a successful authentication: registers the client (heartbeat
/// and presence), then persists a fresh token captured from the fully
/// registered session, and hands back the live handle.
fn complete_session<E: Engine, S: Store>(
    engine: &mut E,
    store: &mut S,
    uin: i64,
    task: E::Task,
) -> (r: Result<AliveHandle<E::Task>, LoginError>)
    ensures
        r matches Ok(h) ==> h.uin() == uin && h.has_task(),
        r matches Err(e) ==> e is Io,
{
    engine.register_after_login();
    let token = engine.gen_token();
    match save_token(store, uin, &token) {
        Ok(()) => Ok(AliveHandle::new(uin, task)),
        Err(e) => Err(e),
    }
}

/// Logs in with a password, falling back to the full password flow only
/// when no token-based resume is possible.  `max_steps` bounds the
/// captcha/device-lock dialogue.
pub fn login_with_password<E: Engine, S: Store, P: CaptchaPrompt>(
    engine: &mut E,
    store: &mut S,
    prompt: &mut P,
    uin: i64,
    password: &str,
    protocol: Protocol,
    max_steps: usize,
) -> (r: Result<AliveHandle<E::Task>, LoginError>)
    ensures
        r matches Ok(h) ==> h.uin() == uin && h.has_task(),
        r matches Err(e) ==> !(e is NonRecoverableDisconnect) && !(e is ResumeUnavailable),
{
    let (task, resume) = match begin_session(engine, store, uin, protocol) {
        Ok(x) => x,
        Err(e) => {
            return Err(e);
        },
    };
    match resume {
        Resume::Resumed => {},
        Resume::NotResumed => {
            match password_login(engine, prompt, uin, password, max_steps) {
                Ok(()) => {},
                Err(e) => {
                    return Err(e);
                },
            }
        },
    }
    complete_session(engine, store, uin, task)
}

/// Logs in with a QR code, falling back to the full QR flow only when no
/// token-based resume is possible.  `max_steps` bounds the polling.  An
/// account id authenticated differently from `uin` (the user scanned with
/// another account) is deliberately not a failure: the flow notes it to
/// the display collaborator and carries on.
pub fn login_with_qrcode<E: Engine, S: Store, D: QrDisplay>(
    engine: &mut E,
    store: &mut S,
    display: &mut D,
    uin: i64,
    max_steps: usize,
) -> (r: Result<AliveHandle<E::Task>, LoginError>)
    ensures
        r matches Ok(h) ==> h.uin() == uin && h.has_task(),
        r matches Err(e) ==> !(e is NonRecoverableDisconnect) && !(e is ResumeUnavailable),
{
    let (task, resume) = match begin_session(engine, store, uin, Protocol::AndroidWatch) {
        Ok(x) => x,
        Err(e) => {
            return Err(e);
        },
    };
    match resume {
        Resume::Resumed => {},
        Resume::NotResumed => {
            match qrcode_login(engine, display, uin, max_steps) {
                Ok(_actual_uin) => {},
                Err(e) => {
                    return Err(e);
                },
            }
        },
    }
    complete_session(engine, store, uin, task)
}

/// Logs the account in by the given method and hands back a live session
/// handle.  The account id and method are already resolved; obtaining
/// them interactively is the embedding program's concern.
pub fn login<E: Engine, S: Store, P: CaptchaPrompt, D: QrDisplay>(
    engine: &mut E,
    store: &mut S,
    prompt: &mut P,
    display: &mut D,
    uin: i64,
    method: LoginMethod,
    max_steps: usize,
) -> (r: Result<AliveHandle<E::Task>, LoginError>)
    ensures
        r matches Ok(h) ==> h.uin() == uin && h.has_task(),
        r matches Err(e) ==> !(e is NonRecoverableDisconnect) && !(e is ResumeUnavailable),
{
    match method {
        LoginMethod::Password { protocol, password } => login_with_password(
            engine,
            store,
            prompt,
            uin,
            password.as_str(),
            protocol,
            max_steps,
        ),
        LoginMethod::QrCode => login_with_qrcode(engine, store, display, uin, max_steps),
    }
}

} // verus!
