//! The failures the protocol engine reports.

use vstd::prelude::*;

verus! {

/// A hard, connection-level failure. Would-block is not an error and is
/// reported through [`Progress`] instead.
#[derive(Debug, Clone, Copy, PartialEq, Eq, Structural)]
pub enum ProtocolError {
    /// More bytes arrived than the read buffer has room for.
    CapacityExceeded,
    /// The bytes terminated by the blank line are not an HTTP response head.
    MalformedResponse,
    /// The server answered the upgrade request with this status instead of 101.
    UpgradeRefused(u16),
    /// The peer sent a frame that the framing rules forbid.
    ProtocolViolation,
    /// The peer sent a close frame.
    ClosedByPeer,
}

/// The outcome of a non-blocking step that did not fail.
#[derive(Debug, Clone, Copy, PartialEq, Eq, Structural)]
pub enum Progress {
    /// The step is complete.
    Ready,
    /// Nothing more can be done until the next readiness event.
    WouldBlock,
}

impl ProtocolError {
    /// A short, fixed description of the failure.
    pub fn description(&self) -> (text: &'static str)
        ensures
            text@ == error_text(*self),
    {
        match self {
            ProtocolError::CapacityExceeded => "read buffer capacity exceeded",
            ProtocolError::MalformedResponse => "malformed handshake response",
            ProtocolError::UpgradeRefused(_) => "unable to switch protocols",
            ProtocolError::ProtocolViolation => "websocket protocol violation",
            ProtocolError::ClosedByPeer => "connection closed by peer",
        }
    }
}

/// The text that [`ProtocolError::description`] gives for each failure.
pub open spec fn error_text(e: ProtocolError) -> Seq<char> {
    match e {
        ProtocolError::CapacityExceeded => "read buffer capacity exceeded"@,
        ProtocolError::MalformedResponse => "malformed handshake response"@,
        ProtocolError::UpgradeRefused(_) => "unable to switch protocols"@,
        ProtocolError::ProtocolViolation => "websocket protocol violation"@,
        ProtocolError::ClosedByPeer => "connection closed by peer"@,
    }
}

} // verus!
