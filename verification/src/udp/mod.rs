//! Datagrams to and from the network: how frames are encoded for the
//! socket and decoded from it, and what the framing layer decides.

pub mod frame;
