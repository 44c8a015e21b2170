//! The connection-engine interface.
//!
//! The wire protocol, packet framing and cryptography are delegated to an
//! external collaborator.  This trait is the session core's view of it:
//! the drivers in this crate decide, and an implementation of this trait
//! performs.  The interactive collaborators (captcha prompt, QR-code
//! display) are injected the same way.

use vstd::prelude::*;

use crate::device::DeviceIdentity;
use crate::errors::IoError;
use crate::password::LoginResponse;
use crate::qrcode::QrCodeEvent;
use crate::store::SessionToken;
use crate::ConnStatus;

verus! {

/// The client protocol a connection presents.
#[derive(Clone, Copy, PartialEq, Eq, Structural, Debug)]
pub enum Protocol {
    /// Tablet client.
    IPad,
    /// Phone client.
    AndroidPhone,
    /// Watch client.
    AndroidWatch,
    /// Desktop client.
    MacOS,
    /// Enterprise client.
    QiDian,
}

/// A connection engine: establishes transports, exchanges authentication
/// messages, and reports its status.  Nothing is assumed of the results of
/// these operations; the drivers state what holds whatever comes back.
pub trait Engine {
    /// The transport a connection runs over.
    type Stream;

    /// The handle of a running background connection task.
    type Task;

    /// Prepares the engine for an account: installs the device identity
    /// and the client protocol.
    fn prepare(&mut self, device: &DeviceIdentity, protocol: Protocol);

    /// Negotiates a transport to the closest server.
    fn connect(&mut self) -> Result<Self::Stream, IoError>;

    /// Starts the background receive/dispatch task on a transport.
    fn start(&mut self, stream: Self::Stream) -> Self::Task;

    /// Yields once to the scheduler, giving a freshly started task a
    /// chance to bring its transport up before anything is sent.
    fn yield_once(&mut self);

    /// Waits the given number of seconds.
    fn wait_seconds(&mut self, seconds: u64);

    /// The connection status.
    fn status(&self) -> ConnStatus;

    /// Marks the connection stopped (idempotent).
    fn stop(&mut self);

    /// The account id the connection is authenticated as.
    fn uin(&self) -> i64;

    /// Submits account id and password.
    fn password_login(&mut self, uin: i64, password: &str) -> Result<LoginResponse, IoError>;

    /// Submits a captcha ticket.
    fn submit_ticket(&mut self, ticket: &str) -> Result<LoginResponse, IoError>;

    /// Re-issues the device-lock continuation call.
    fn device_lock_login(&mut self) -> Result<LoginResponse, IoError>;

    /// Attempts a fast (token-based) login.
    fn token_login(&mut self, token: &SessionToken) -> Result<LoginResponse, IoError>;

    /// Fetches a fresh QR code.
    fn fetch_qrcode(&mut self) -> Result<QrCodeEvent, IoError>;

    /// Polls the QR-code state for the retained signature.
    fn query_qrcode_result(&mut self, sig: &Vec<u8>) -> Result<QrCodeEvent, IoError>;

    /// Exchanges a confirmed QR code's temporary credentials for a login.
    fn qrcode_login(
        &mut self,
        tmp_pwd: &Vec<u8>,
        tmp_no_pic_sig: &Vec<u8>,
        tgt_qr: &Vec<u8>,
    ) -> Result<LoginResponse, IoError>;

    /// The post-login registration step: heartbeat registration and
    /// presence announcement.
    fn register_after_login(&mut self);

    /// Produces a fresh session token for the authenticated session.
    fn gen_token(&mut self) -> SessionToken;
}

/// The captcha collaborator: shows a verification address and blocks for
/// the ticket.
pub trait CaptchaPrompt {
    /// Presents `verify_url` and returns the ticket the user supplies.
    fn submit(&mut self, verify_url: &str) -> Result<String, IoError>;
}

/// The QR-code display collaborator.
pub trait QrDisplay {
    /// Shows the raw QR image bytes; the signature identifies the code.
    fn show(&mut self, image: &Vec<u8>, sig: &Vec<u8>) -> Result<(), IoError>;

    /// Notes that the code was confirmed by `actual`, not the expected
    /// account.  A warning only: the user may have scanned with another
    /// account on purpose, so this never fails the flow.
    fn note_mismatch(&mut self, expected: i64, actual: i64);
}

} // verus!
