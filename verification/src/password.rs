//! The password authentication flow.
//!
//! A submitted password yields a response from the connection engine; each
//! response is dispatched to exactly one follow-up action.  A captcha
//! challenge asks the caller for a ticket and resubmits; a device-lock
//! relay re-issues the continuation call; everything else is terminal.

use vstd::prelude::*;

use crate::engine::{CaptchaPrompt, Engine};
use crate::errors::{AuthRejected, LoginError};

verus! {

/// A login response of the connection engine, reduced to what the flow
/// dispatches on.
#[derive(Debug, Clone, PartialEq, Eq)]
pub enum LoginResponse {
    /// Authentication succeeded.
    Success {
        /// The authenticated account id.
        uin: i64,
    },
    /// The server demands a captcha ticket.
    NeedCaptcha {
        /// Where the captcha is solved.
        verify_url: String,
    },
    /// The account is locked to a device; terminal.
    DeviceLocked {
        /// Where the user can unlock.
        verify_url: String,
        /// The server's explanation.
        message: String,
    },
    /// An intermediate continue-device-lock-login response.
    DeviceLockLogin,
    /// The account is frozen; terminal.
    AccountFrozen,
    /// Too many text-message verification requests; terminal.
    TooManySmsRequest,
    /// Any unrecognized response; terminal.
    Unknown {
        /// A description of the raw response.
        description: String,
    },
}

/// The follow-up action the password flow takes on a response.
#[derive(Debug, PartialEq, Eq)]
pub enum PasswordAction {
    /// Terminal success.
    Finish {
        /// The authenticated account id.
        uin: i64,
    },
    /// Ask the caller for a captcha ticket and resubmit it.
    AskTicket {
        /// Where the captcha is solved.
        verify_url: String,
    },
    /// Re-issue the device-lock continuation call.
    ContinueDeviceLock,
    /// Terminal failure.
    Fail(AuthRejected),
}

/// The diagnostic text of a response: each variant reads distinctly, and
/// a variant's payload is carried in its text, so an error built from a
/// response keeps the response's content.
pub open spec fn spec_describe(r: LoginResponse) -> Seq<char> {
    match r {
        LoginResponse::Success { .. } => "authentication succeeded"@,
        LoginResponse::NeedCaptcha { verify_url } => "a captcha is required at "@ + verify_url@,
        LoginResponse::DeviceLocked { verify_url: _, message } => "the device is locked: "@
            + message@,
        LoginResponse::DeviceLockLogin => "a device-lock continuation was requested"@,
        LoginResponse::AccountFrozen => "the account is frozen"@,
        LoginResponse::TooManySmsRequest => "too many text-message verification requests"@,
        LoginResponse::Unknown { description } => description@,
    }
}

impl LoginResponse {
    /// The diagnostic text of this response (see [`spec_describe`]).
    pub fn describe(&self) -> (s: String)
        ensures
            s@ == spec_describe(*self),
    {
        match self {
            LoginResponse::Success { .. } => String::from_str("authentication succeeded"),
            LoginResponse::NeedCaptcha { verify_url } => {
                let mut s = String::from_str("a captcha is required at ");
                s.append(verify_url.as_str());
                s
            },
            LoginResponse::DeviceLocked { verify_url: _, message } => {
                let mut s = String::from_str("the device is locked: ");
                s.append(message.as_str());
                s
            },
            LoginResponse::DeviceLockLogin => String::from_str(
                "a device-lock continuation was requested",
            ),
            LoginResponse::AccountFrozen => String::from_str("the account is frozen"),
            LoginResponse::TooManySmsRequest => String::from_str(
                "too many text-message verification requests",
            ),
            LoginResponse::Unknown { description } => description.clone(),
        }
    }
}

/// What the flow does with each response.
pub open spec fn spec_password_dispatch(r: LoginResponse) -> PasswordAction {
    match r {
        LoginResponse::Success { uin } => PasswordAction::Finish { uin },
        LoginResponse::NeedCaptcha { verify_url } => PasswordAction::AskTicket { verify_url },
        LoginResponse::DeviceLocked { verify_url, message } => PasswordAction::Fail(
            AuthRejected::DeviceLocked { verify_url, message },
        ),
        LoginResponse::DeviceLockLogin => PasswordAction::ContinueDeviceLock,
        LoginResponse::AccountFrozen => PasswordAction::Fail(AuthRejected::AccountFrozen),
        LoginResponse::TooManySmsRequest => PasswordAction::Fail(
            AuthRejected::TooManySmsRequests,
        ),
        LoginResponse::Unknown { description } => PasswordAction::Fail(
            AuthRejected::Unknown { description },
        ),
    }
}

/// Dispatches one login response to its follow-up action.
///
/// A captcha challenge can recur as often as the server issues one; no cap
/// is enforced here.  A device lock is terminal by design: this flow does
/// not attempt a text-message unlock.
pub fn password_dispatch(resp: LoginResponse) -> (a: PasswordAction)
    ensures
        a == spec_password_dispatch(resp),
{
    match resp {
        LoginResponse::Success { uin } => PasswordAction::Finish { uin },
        LoginResponse::NeedCaptcha { verify_url } => PasswordAction::AskTicket { verify_url },
        LoginResponse::DeviceLocked { verify_url, message } => PasswordAction::Fail(
            AuthRejected::DeviceLocked { verify_url, message },
        ),
        LoginResponse::DeviceLockLogin => PasswordAction::ContinueDeviceLock,
        LoginResponse::AccountFrozen => PasswordAction::Fail(AuthRejected::AccountFrozen),
        LoginResponse::TooManySmsRequest => PasswordAction::Fail(
            AuthRejected::TooManySmsRequests,
        ),
        LoginResponse::Unknown { description } => PasswordAction::Fail(
            AuthRejected::Unknown { description },
        ),
    }
}

/// Exactly the device-lock, frozen-account, SMS-limit and unrecognized
/// responses are terminal failures.  A captcha challenge and the
/// device-lock relay continue the dialogue instead, and success finishes
/// it, so the flow never retries a failed authentication as a whole.
pub proof fn lemma_password_terminal_failures(r: LoginResponse)
    ensures
        (spec_password_dispatch(r) is Fail) <==> (r is DeviceLocked || r is AccountFrozen
            || r is TooManySmsRequest || r is Unknown),
{
}

/// Drives the password flow to a terminal outcome: submits the password,
/// then dispatches responses, asking the caller for captcha tickets and
/// re-issuing device-lock continuations as demanded, up to `max_steps`
/// exchanges.
///
/// The flow itself never retries authentication as a whole, and its
/// failures are only terminal authentication failures, transport failures,
/// or the caller's step budget running out.
pub fn password_login<E: Engine, P: CaptchaPrompt>(
    engine: &mut E,
    prompt: &mut P,
    uin: i64,
    password: &str,
    max_steps: usize,
) -> (r: Result<(), LoginError>)
    ensures
        r matches Err(e) ==> e is Auth || e is Io || e is BudgetExhausted,
{
    let mut resp = match engine.password_login(uin, password) {
        Ok(r) => r,
        Err(e) => {
            return Err(LoginError::Io(e));
        },
    };
    let mut steps = max_steps;
    loop
        invariant
            steps <= max_steps,
        decreases steps,
    {
        match password_dispatch(resp) {
            PasswordAction::Finish { uin: _ } => {
                return Ok(());
            },
            PasswordAction::Fail(a) => {
                return Err(LoginError::Auth(a));
            },
            PasswordAction::AskTicket { verify_url } => {
                if steps == 0 {
                    return Err(LoginError::BudgetExhausted);
                }
                steps = steps - 1;
                let ticket = match prompt.submit(verify_url.as_str()) {
                    Ok(t) => t,
                    Err(e) => {
                        return Err(LoginError::Io(e));
                    },
                };
                resp = match engine.submit_ticket(ticket.as_str()) {
                    Ok(r) => r,
                    Err(e) => {
                        return Err(LoginError::Io(e));
                    },
                };
            },
            PasswordAction::ContinueDeviceLock => {
                if steps == 0 {
                    return Err(LoginError::BudgetExhausted);
                }
                steps = steps - 1;
                resp = match engine.device_lock_login() {
                    Ok(r) => r,
                    Err(e) => {
                        return Err(LoginError::Io(e));
                    },
                };
            },
        }
    }
}

} // verus!
