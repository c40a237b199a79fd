//! Failures that the coordinator and the node stream report.

use vstd::prelude::*;

verus! {

/// Why a game node refused a connecting client.
#[derive(Debug, Clone, Copy, PartialEq, Eq, Structural)]
pub enum ClientConnectRejectReason {
    Unknown,
    InvalidToken,
    Multi,
}

#[derive(Debug, Clone, PartialEq, Eq)]
pub enum Error {
    /// The local game installation could not be found.
    War3NotLocated,
    /// The map of the joined game could not be opened or summed.
    MapUnavailable(String),
    /// The game node answered the handshake with a reject.
    NodeConnectionRejected(ClientConnectRejectReason, String),
    /// The peer sent a packet that the protocol does not allow at this point.
    UnexpectedPacket,
    /// A packet could not be decoded or converted.
    MalformedPacket,
    /// The stream was closed by the peer.
    StreamClosed,
    /// Reading from or writing to a socket failed.
    Net(String),
    /// The local control socket worker failed.
    Ws(String),
}

} // verus!
