//! The errors that a transport operation can end in.

use vstd::prelude::*;

verus! {

/// The ways in which the underlying transport itself can fail.
#[derive(Clone, Copy, Debug, PartialEq, Eq, Structural)]
pub enum IoFailure {
    /// The stream ended before the requested bytes had arrived.
    UnexpectedEnd,
    /// The peer reset the connection.
    ConnectionReset,
    /// The connection was aborted.
    ConnectionAborted,
    /// The peer closed its reading side.
    BrokenPipe,
    /// Any other failure of the transport.
    Other,
}

/// Why a protocol operation did not succeed.
#[derive(Clone, Copy, Debug, PartialEq, Eq, Structural)]
pub enum ProtocolError {
    /// No complete frame arrived before the read deadline.
    TimedOut,
    /// The session is closed, or is not known to the registry.
    NotConnected,
    /// A payload did not have the shape of the expected message.
    Malformed,
    /// A payload is longer than a frame can carry.
    PayloadTooLarge,
    /// The transport failed.
    Io(IoFailure),
}

} // verus!
