//! The protocol proper: wire format, handshake and transport cryptography,
//! per-peer session slots, the session index table and the timers.

pub mod index;
pub mod noise;
pub mod peer;
pub mod timer;
pub mod wire;
