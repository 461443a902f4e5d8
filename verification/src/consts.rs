//! Fixed protocol constants: timing, wire sizes and handshake parameters.

use vstd::prelude::*;

verus! {

/// Seconds after a completed handshake at which a new handshake is started.
pub const REKEY_AFTER_TIME: u64 = 120;

/// Seconds after a completed handshake at which its session keys are no
/// longer accepted.
pub const REJECT_AFTER_TIME: u64 = 180;

/// Seconds for which a handshake initiation waits for its response; until
/// then no second handshake is begun for the same peer.
pub const REKEY_TIMEOUT: u64 = 5;

/// Seconds between two keepalive packets.
pub const KEEPALIVE_TIMEOUT: u64 = 10;

/// Capacity of each bounded message queue between the cooperative tasks.
pub const QUEUE_CAPACITY: usize = 1024;

/// Size in bytes of the authentication tag that closes every ciphertext.
pub const TAG_LEN: usize = 16;

/// Largest message the handshake protocol reads or writes.
pub const MAX_NOISE_MESSAGE: usize = 65535;

/// Longest plaintext that fits into one transport message.
pub const MAX_PLAINTEXT: usize = 65519;

/// The handshake protocol: pattern IK with a pre-shared key mixed in at the
/// end of the second message, Curve25519, ChaCha20-Poly1305 and BLAKE2s.
pub const HANDSHAKE_PATTERN: &'static str = "Noise_IKpsk2_25519_ChaChaPoly_BLAKE2s";

/// The prologue that both sides hash into the handshake.
pub const HANDSHAKE_PROLOGUE: &'static str = "WireGuard v1 zx2c4 Jason@zx2c4.com";

/// The slot of the pre-shared key in the handshake pattern.
pub const PSK_SLOT: u8 = 2;

} // verus!
