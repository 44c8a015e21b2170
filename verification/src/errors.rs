//! The error taxonomy of the session core.

use vstd::prelude::*;

use crate::device::FormatError;

verus! {

/// A filesystem or network-transport failure.
#[derive(Debug, Clone, PartialEq, Eq)]
pub struct IoError {
    /// What failed, for reporting.
    pub detail: String,
}

/// A terminal authentication failure: the server declined the credentials,
/// the ticket, or the confirmation.
#[derive(Debug, Clone, PartialEq, Eq)]
pub enum AuthRejected {
    /// The account is locked to a device; unlocking happens out of band at
    /// the given address.  This flow fails here rather than guessing an
    /// unlock path.
    DeviceLocked {
        /// Where the user can unlock.
        verify_url: String,
        /// The server's explanation.
        message: String,
    },
    /// The account is frozen.
    AccountFrozen,
    /// Too many text-message verification requests; try again later.
    TooManySmsRequests,
    /// The confirmation code was canceled.
    Canceled,
    /// Any unrecognized terminal response, kept for diagnostics.
    Unknown {
        /// A description of the raw response.
        description: String,
    },
}

/// An error of the login, resume or reconnection path.
#[derive(Debug, Clone, PartialEq, Eq)]
pub enum LoginError {
    /// The persisted device document is malformed (the named field).
    Format(FormatError),
    /// The persisted session token is malformed.
    TokenMalformed,
    /// A filesystem or transport failure.
    Io(IoError),
    /// The server declined authentication.
    Auth(AuthRejected),
    /// No valid persisted token, so resuming without full
    /// re-authentication is impossible.
    ResumeUnavailable,
    /// The connection did not drop for network reasons, so automatic
    /// reconnection is refused.
    NonRecoverableDisconnect,
    /// The step budget handed to a dialogue driver ran out (a machine
    /// limit: the caller bounds how many exchanges it is willing to make).
    BudgetExhausted,
}

} // verus!
