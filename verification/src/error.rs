//! The failure taxonomy. Every variant is terminal for its connection: the
//! driver surfaces it to the caller and nothing is retried.

use vstd::prelude::*;

verus! {

/// Why a connection ended without a captured identity.
#[derive(Clone, Copy, Debug, PartialEq, Eq, Structural)]
pub enum HandshakeError {
    /// The peer closed its write side (a read returned zero bytes).
    EndOfStream,
    /// A read or write deadline expired.
    Timeout,
    /// The accumulator reached its cap before a complete frame formed.
    BufferOverflow,
    /// A malformed frame, or a handshake signature without the marker.
    ProtocolViolation,
}

} // verus!
