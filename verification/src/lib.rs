//! Peer session state machine and packet dispatch for an encrypted
//! point-to-point tunnel: handshake, session rotation, keepalive and
//! transport packet encoding, with every function proved against its contract.

pub mod consts;
pub mod error;
pub mod interface;
pub mod protocol;
pub mod types;
pub mod udp;
