//! The ways in which handling one packet or one timer event can fail. Every
//! failure concerns the triggering event alone.

use vstd::prelude::*;

verus! {

/// Why an event was dropped.
#[derive(Debug, Clone, Copy, PartialEq, Eq, Structural)]
pub enum PeerError {
    /// An inbound packet names a session index that the index table does not hold.
    UnknownSessionIndex,
    /// A handshake message could not be parsed, authenticated or produced.
    HandshakeFailed,
    /// A transport packet authenticates under neither the current nor the past session.
    DecryptFailed,
    /// The operation needs a session slot that is empty.
    NoActiveSession,
    /// A handshake for this peer is already in flight.
    HandshakeInProgress,
    /// No peer goes by the given identifier.
    UnknownPeer,
    /// The peer has no known network address to send to.
    MissingEndpoint,
    /// The plaintext does not fit into one transport message.
    PayloadTooLarge,
}

/// Why a server could not be set up.
#[derive(Debug, Clone, Copy, PartialEq, Eq, Structural)]
pub enum ConfigError {
    /// The interface has no private key.
    MissingPrivateKey,
    /// A peer has no pre-shared key.
    MissingPresharedKey,
}

} // verus!
