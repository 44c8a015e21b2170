//! The QR-code authentication flow.
//!
//! A fetched QR image is shown to the user through the display
//! collaborator; the flow then polls at a fixed five-second cadence.  A
//! timeout triggers exactly one re-fetch (and one re-display); a
//! confirmation is exchanged for a full login; a cancellation is terminal.

use vstd::prelude::*;

use crate::engine::{Engine, QrDisplay};
use crate::errors::{AuthRejected, LoginError};
use crate::password::{
    password_dispatch, spec_describe, spec_password_dispatch, LoginResponse, PasswordAction,
};

verus! {

/// A QR-code state reported by the connection engine.
#[derive(Debug, Clone, PartialEq, Eq)]
pub enum QrCodeEvent {
    /// A fresh QR image, with the signature that later polls must present.
    ImageFetch {
        /// The raw image bytes.
        image: Vec<u8>,
        /// The opaque signature identifying this code.
        sig: Vec<u8>,
    },
    /// Nobody has scanned the code yet.
    WaitingForScan,
    /// The code was scanned; awaiting confirmation.
    WaitingForConfirm,
    /// The code expired.
    Timeout,
    /// The code was confirmed; temporary credentials follow.
    Confirmed {
        /// Temporary password.
        tmp_pwd: Vec<u8>,
        /// Temporary signature.
        tmp_no_pic_sig: Vec<u8>,
        /// Temporary ticket.
        tgt_qr: Vec<u8>,
    },
    /// The code was canceled; terminal.
    Canceled,
}

/// The follow-up action the QR flow takes on an event.
#[derive(Debug, PartialEq, Eq)]
pub enum QrAction {
    /// Show the image, retain the signature, then keep polling.
    ShowImage {
        /// The raw image bytes.
        image: Vec<u8>,
        /// The signature to retain.
        sig: Vec<u8>,
    },
    /// Nothing to do; keep polling.
    KeepPolling,
    /// The code expired: fetch a fresh image once, then keep polling.
    Refetch,
    /// Exchange the confirmation's temporary credentials for a login.
    BeginLogin {
        /// Temporary password.
        tmp_pwd: Vec<u8>,
        /// Temporary signature.
        tmp_no_pic_sig: Vec<u8>,
        /// Temporary ticket.
        tgt_qr: Vec<u8>,
    },
    /// Terminal failure: the code was canceled.
    Fail,
}

/// What the flow does with each event.
pub open spec fn spec_qr_dispatch(ev: QrCodeEvent) -> QrAction {
    match ev {
        QrCodeEvent::ImageFetch { image, sig } => QrAction::ShowImage { image, sig },
        QrCodeEvent::WaitingForScan => QrAction::KeepPolling,
        QrCodeEvent::WaitingForConfirm => QrAction::KeepPolling,
        QrCodeEvent::Timeout => QrAction::Refetch,
        QrCodeEvent::Confirmed { tmp_pwd, tmp_no_pic_sig, tgt_qr } => QrAction::BeginLogin {
            tmp_pwd,
            tmp_no_pic_sig,
            tgt_qr,
        },
        QrCodeEvent::Canceled => QrAction::Fail,
    }
}

/// Dispatches one QR-code event to its follow-up action.  A `Timeout`
/// event maps to `Refetch` and nothing else, so the driver re-fetches (and
/// re-displays) exactly once per timeout before polling resumes.
pub fn qr_dispatch(ev: QrCodeEvent) -> (a: QrAction)
    ensures
        a == spec_qr_dispatch(ev),
{
    match ev {
        QrCodeEvent::ImageFetch { image, sig } => QrAction::ShowImage { image, sig },
        QrCodeEvent::WaitingForScan => QrAction::KeepPolling,
        QrCodeEvent::WaitingForConfirm => QrAction::KeepPolling,
        QrCodeEvent::Timeout => QrAction::Refetch,
        QrCodeEvent::Confirmed { tmp_pwd, tmp_no_pic_sig, tgt_qr } => QrAction::BeginLogin {
            tmp_pwd,
            tmp_no_pic_sig,
            tgt_qr,
        },
        QrCodeEvent::Canceled => QrAction::Fail,
    }
}

/// A re-fetch happens only on a timeout: no other event maps to the
/// re-fetch action, so every fresh fetch (and re-display) after the first
/// is triggered by exactly one timeout.
pub proof fn lemma_refetch_only_on_timeout(ev: QrCodeEvent)
    ensures
        (spec_qr_dispatch(ev) == QrAction::Refetch) <==> (ev is Timeout),
{
}

/// What the confirm-exchange's final response means.
#[derive(Debug, PartialEq, Eq)]
pub enum QrExchange {
    /// The exchange succeeded: the session is authenticated.
    Authenticated,
    /// The exchange failed; polling stops, and this failure is the
    /// flow's terminal result.
    Refused(AuthRejected),
}

/// Judges the final response of the confirm exchange (after the one
/// device-lock continuation, if the server demanded it): exactly a
/// success response authenticates; a terminal failure response refuses
/// with that very failure; a renewed challenge — a captcha demand or yet
/// another device-lock relay — refuses with an error carrying the
/// response, since the exchange continues nothing further.
pub fn qr_exchange_decision(resp: LoginResponse) -> (d: QrExchange)
    ensures
        (resp matches LoginResponse::Success { .. }) <==> (d is Authenticated),
        (match spec_password_dispatch(resp) {
            PasswordAction::Fail(a) => d == QrExchange::Refused(a),
            _ => true,
        }),
        !(resp matches LoginResponse::Success { .. }) && !(spec_password_dispatch(
            resp,
        ) is Fail) ==> (d matches QrExchange::Refused(a) && (a matches AuthRejected::Unknown {
            description,
        } && description@ == spec_describe(resp))),
{
    let text = resp.describe();
    match password_dispatch(resp) {
        PasswordAction::Finish { uin: _ } => QrExchange::Authenticated,
        PasswordAction::Fail(a) => QrExchange::Refused(a),
        _ => QrExchange::Refused(AuthRejected::Unknown { description: text }),
    }
}

/// Completes a confirmed QR code: exchanges the temporary credentials for
/// a login, re-issuing a single device-lock continuation if the server
/// demands one, judges the final response by [`qr_exchange_decision`],
/// and on success returns the account id the engine is authenticated as.
fn finish_confirmed<E: Engine>(
    engine: &mut E,
    tmp_pwd: &Vec<u8>,
    tmp_no_pic_sig: &Vec<u8>,
    tgt_qr: &Vec<u8>,
) -> (r: Result<i64, LoginError>)
    ensures
        r matches Err(e) ==> e is Auth || e is Io,
{
    let mut resp = match engine.qrcode_login(tmp_pwd, tmp_no_pic_sig, tgt_qr) {
        Ok(r) => r,
        Err(e) => {
            return Err(LoginError::Io(e));
        },
    };
    if let LoginResponse::DeviceLockLogin = resp {
        resp = match engine.device_lock_login() {
            Ok(r) => r,
            Err(e) => {
                return Err(LoginError::Io(e));
            },
        };
    }
    match qr_exchange_decision(resp) {
        QrExchange::Authenticated => Ok(engine.uin()),
        QrExchange::Refused(a) => Err(LoginError::Auth(a)),
    }
}

/// Drives the QR-code flow to a terminal outcome: fetches a code, shows
/// it, and polls at a fixed five-second cadence for up to `max_polls`
/// steps.  On success returns the account id the engine is authenticated
/// as; when that differs from `uin` the display collaborator is notified
/// once — a warning only, never a failure.
pub fn qrcode_login<E: Engine, D: QrDisplay>(
    engine: &mut E,
    display: &mut D,
    uin: i64,
    max_polls: usize,
) -> (r: Result<i64, LoginError>)
    ensures
        r matches Err(e) ==> e is Auth || e is Io || e is BudgetExhausted,
{
    let mut resp = match engine.fetch_qrcode() {
        Ok(r) => r,
        Err(e) => {
            return Err(LoginError::Io(e));
        },
    };
    let mut sig: Vec<u8> = Vec::new();
    let mut polls = max_polls;
    loop
        invariant
            polls <= max_polls,
        decreases polls,
    {
        match qr_dispatch(resp) {
            QrAction::ShowImage { image, sig: fresh } => {
                match display.show(&image, &fresh) {
                    Ok(()) => {},
                    Err(e) => {
                        return Err(LoginError::Io(e));
                    },
                }
                sig = fresh;
            },
            QrAction::KeepPolling => {},
            QrAction::Refetch => {
                let fetched = match engine.fetch_qrcode() {
                    Ok(r) => r,
                    Err(e) => {
                        return Err(LoginError::Io(e));
                    },
                };
                if let QrCodeEvent::ImageFetch { image, sig: fresh } = fetched {
                    match display.show(&image, &fresh) {
                        Ok(()) => {},
                        Err(e) => {
                            return Err(LoginError::Io(e));
                        },
                    }
                    sig = fresh;
                }
            },
            QrAction::BeginLogin { tmp_pwd, tmp_no_pic_sig, tgt_qr } => {
                let actual = match finish_confirmed(engine, &tmp_pwd, &tmp_no_pic_sig, &tgt_qr) {
                    Ok(a) => a,
                    Err(e) => {
                        return Err(e);
                    },
                };
                if actual != uin {
                    display.note_mismatch(uin, actual);
                }
                return Ok(actual);
            },
            QrAction::Fail => {
                return Err(LoginError::Auth(AuthRejected::Canceled));
            },
        }
        if polls == 0 {
            return Err(LoginError::BudgetExhausted);
        }
        polls = polls - 1;
        engine.wait_seconds(5);
        resp = match engine.query_qrcode_result(&sig) {
            Ok(r) => r,
            Err(e) => {
                return Err(LoginError::Io(e));
            },
        };
    }
}

} // verus!
