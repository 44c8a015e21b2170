//! The reconnection protocol.
//!
//! When the background connection task ends, the session may be resumed —
//! but only when the disconnect was network-caused.  One attempt follows a
//! strict order: check the status, mark the connection stopped, wait ten
//! seconds, start a fresh transport, yield once so the receive loop comes
//! up, load the persisted token, log in with it, run the post-login
//! registration, and persist the resumed session's fresh token.  The
//! whole attempt is wrapped in the retry budget.

use vstd::prelude::*;

use crate::engine::Engine;
use crate::errors::{AuthRejected, IoError, LoginError};
use crate::password::{spec_describe, LoginResponse};
use crate::retry::{RetryDecision, RetryState};
use crate::store::{FileRead, SessionToken, Store};
use crate::ConnStatus;

verus! {

/// The retry budget of the automatic reconnection loop.
pub const RECONNECT_ATTEMPTS: usize = 10;

/// Admits an automatic reconnection only for a network-caused disconnect.
/// Any other status — a server-forced logoff, a kick, an explicit stop —
/// is refused outright, by policy: such a session must not silently
/// resume.
pub fn reconnect_precheck(status: ConnStatus) -> (r: Result<(), LoginError>)
    ensures
        r is Ok <==> status is NetworkOffline,
        !(status is NetworkOffline) ==> r == Err::<(), LoginError>(
            LoginError::NonRecoverableDisconnect,
        ),
{
    if status.allows_reconnect() {
        Ok(())
    } else {
        Err(LoginError::NonRecoverableDisconnect)
    }
}

/// What a read token file means for a reconnection attempt: only a
/// present token can resume, and an absent or malformed file fails the
/// attempt as resume-unavailable — reconnection without full
/// re-authentication is impossible right now, and that is not retried
/// into a full authentication here.
pub fn token_step(file: FileRead<SessionToken>) -> (r: Result<SessionToken, LoginError>)
    ensures
        match file {
            FileRead::Present(t) => r == Ok::<SessionToken, LoginError>(t),
            FileRead::Missing => r == Err::<SessionToken, LoginError>(
                LoginError::ResumeUnavailable,
            ),
            FileRead::Malformed => r == Err::<SessionToken, LoginError>(
                LoginError::ResumeUnavailable,
            ),
        },
{
    match file {
        FileRead::Present(t) => Ok(t),
        FileRead::Missing => Err(LoginError::ResumeUnavailable),
        FileRead::Malformed => Err(LoginError::ResumeUnavailable),
    }
}

/// Judges the fast token-based login's outcome for a reconnection
/// attempt: exactly a success response lets the attempt proceed; a
/// transport-level failure fails it as that failure; any other response
/// fails it as an authentication rejection carrying the response.
pub fn fast_login_step(outcome: Result<LoginResponse, IoError>) -> (r: Result<(), LoginError>)
    ensures
        (outcome matches Ok(resp) && resp matches LoginResponse::Success { .. }) <==> (r is Ok),
        outcome matches Err(e) ==> r == Err::<(), LoginError>(LoginError::Io(e)),
        outcome matches Ok(resp) ==> ((resp matches LoginResponse::Success { .. }) || (
        r matches Err(le) && le matches LoginError::Auth(a) && (a
            matches AuthRejected::Unknown { description } && description@ == spec_describe(
            resp,
        )))),
{
    match outcome {
        Ok(resp) => match resp {
            LoginResponse::Success { uin: _ } => Ok(()),
            other => Err(
                LoginError::Auth(AuthRejected::Unknown { description: other.describe() }),
            ),
        },
        Err(e) => Err(LoginError::Io(e)),
    }
}

/// Makes one reconnection attempt for `status` as read by the caller.
///
/// When the status is not network-offline the attempt fails at once with
/// [`LoginError::NonRecoverableDisconnect`], before anything is stopped,
/// started or waited for.  Otherwise the attempt follows the strict
/// order: stop, wait ten seconds, connect, start, yield once, load the
/// token ([`token_step`]), log in with it ([`fast_login_step`]; a
/// rejection stops the fresh connection again), register, and persist
/// the fresh token of the resumed session.
pub fn reconnect_attempt<E: Engine, S: Store>(
    engine: &mut E,
    store: &mut S,
    uin: i64,
    status: ConnStatus,
) -> (r: Result<E::Task, LoginError>)
    ensures
        !(status is NetworkOffline) ==> (r matches Err(e) && e
            == LoginError::NonRecoverableDisconnect),
        r matches Err(e) ==> e is NonRecoverableDisconnect || e is Io || e is ResumeUnavailable
            || e is Auth,
{
    match reconnect_precheck(status) {
        Ok(()) => {},
        Err(e) => {
            return Err(e);
        },
    }
    engine.stop();
    engine.wait_seconds(10);
    let stream = match engine.connect() {
        Ok(s) => s,
        Err(e) => {
            return Err(LoginError::Io(e));
        },
    };
    let task = engine.start(stream);
    engine.yield_once();

    // The receive loop is up; only now may a login request be sent.
    let token = {
        let file = match store.read_token(uin) {
            Ok(f) => f,
            Err(e) => {
                return Err(LoginError::Io(e));
            },
        };
        match token_step(file) {
            Ok(t) => t,
            Err(e) => {
                return Err(e);
            },
        }
    };
    match fast_login_step(engine.token_login(&token)) {
        Ok(()) => {},
        Err(e) => {
            engine.stop();
            return Err(e);
        },
    }
    engine.register_after_login();

    // The resumed session is registered: capture and persist its fresh
    // token, replacing the one just used.
    let fresh = engine.gen_token();
    match store.write_token(uin, &fresh) {
        Ok(()) => {},
        Err(e) => {
            return Err(LoginError::Io(e));
        },
    }
    Ok(task)
}

/// Observes failed reconnection attempts, for logging or metrics.
pub trait ReconnectObserver {
    /// One attempt failed; `remaining` retries are left.
    fn attempt_failed(&mut self, err: &LoginError, remaining: usize);
}

/// Drives reconnection attempts under the retry budget in `state`: each
/// failed attempt is reported to the observer before the next one
/// begins, and the failure that exhausts the budget is returned itself —
/// an error comes back only with the budget fully consumed, one budget
/// unit per reported failure.
///
/// Every attempt reads the status anew; a status other than
/// network-offline fails that attempt (and, the status being what it is,
/// usually the whole run) with a non-recoverable error.
pub fn run_reconnect<E: Engine, S: Store, O: ReconnectObserver>(
    engine: &mut E,
    store: &mut S,
    observer: &mut O,
    uin: i64,
    state: &mut RetryState,
) -> (r: Result<E::Task, LoginError>)
    ensures
        final(state).remaining <= old(state).remaining,
        r is Err ==> final(state).remaining == 0,
        r matches Err(e) ==> e is NonRecoverableDisconnect || e is Io || e is ResumeUnavailable
            || e is Auth,
{
    loop
        invariant
            state.remaining <= old(state).remaining,
        decreases state.remaining,
    {
        let status = engine.status();
        let outcome = reconnect_attempt(engine, store, uin, status);
        match state.on_outcome(outcome) {
            RetryDecision::Done(task) => {
                return Ok(task);
            },
            RetryDecision::GiveUp(e) => {
                return Err(e);
            },
            RetryDecision::Report { err, remaining } => {
                observer.attempt_failed(&err, remaining);
                engine.yield_once();
            },
        }
    }
}

} // verus!
