//! Session-management core for a chat-protocol client: device-identity
//! persistence, credential- and QR-code-based login state machines,
//! session-token storage for fast resume, and the bounded-retry
//! reconnection policy.

use vstd::prelude::*;

pub mod device;
pub mod engine;
pub mod errors;
pub mod gen;
pub mod hexstr;
pub mod json;
pub mod lifespan;
pub mod login;
pub mod password;
pub mod qrcode;
pub mod reconnect;
pub mod retry;
pub mod session;
pub mod store;

verus! {

/// Connection status reported by the connection engine.
///
/// Only a network-caused disconnect (`NetworkOffline`) authorizes the
/// automatic reconnection path; any other cause is terminal.
#[derive(Clone, Copy, PartialEq, Eq, Structural, Debug)]
pub enum ConnStatus {
    /// The connection is up and authenticated.
    Online,
    /// The connection dropped for network reasons.
    NetworkOffline,
    /// Any other state (server-forced logoff, explicit stop, kicked, ...).
    Other,
}

impl ConnStatus {
    /// Whether automatic reconnection is allowed from this status.
    pub fn allows_reconnect(self) -> (b: bool)
        ensures
            b == (self is NetworkOffline),
    {
        match self {
            ConnStatus::NetworkOffline => true,
            _ => false,
        }
    }
}

} // verus!
