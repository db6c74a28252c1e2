//! The failures that the data plane reports.

use vstd::prelude::*;

verus! {

/// Why an operation of the data plane did not succeed.
#[derive(Debug, Clone, Copy, PartialEq, Eq, Structural)]
pub enum VpnError {
    /// The authentication tag of a packet does not match its ciphertext.
    AuthenticationFailed,
    /// A wire buffer is too short, or what it holds cannot be taken apart.
    MalformedPacket,
    /// A socket could not be read or written.
    TransportError,
    /// The reply to a liveness probe is not the expected echo.
    ProbeFailed,
    /// The relay could not be reached.
    ConnectFailed,
}

/// What `message` says of each failure.
pub open spec fn message_of(error: VpnError) -> Seq<char> {
    match error {
        VpnError::AuthenticationFailed => "HMAC verification failed"@,
        VpnError::MalformedPacket => "malformed packet"@,
        VpnError::TransportError => "transport error"@,
        VpnError::ProbeFailed => "probe failed"@,
        VpnError::ConnectFailed => "relay unreachable"@,
    }
}

impl VpnError {
    /// The failure in words.
    pub fn message(&self) -> (text: &'static str)
        ensures
            text@ == message_of(*self),
    {
        match self {
            VpnError::AuthenticationFailed => "HMAC verification failed",
            VpnError::MalformedPacket => "malformed packet",
            VpnError::TransportError => "transport error",
            VpnError::ProbeFailed => "probe failed",
            VpnError::ConnectFailed => "relay unreachable",
        }
    }
}

} // verus!
