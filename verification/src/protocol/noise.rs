//! The cryptography, all of it done by `snow`: the handshake state machine
//! and the ChaCha20-Poly1305 cipher of the transport phase. Nothing in this
//! file is proved; each item says what it takes on trust.

use crate::consts::MAX_PLAINTEXT;
use crate::protocol::peer::{InitiatorConfig, ResponderConfig};
use snow::params::CipherChoice;
use snow::resolvers::{CryptoResolver, DefaultResolver};
use vstd::prelude::*;

verus! {

/// `snow::HandshakeState`: one side of a handshake in progress.
#[verifier::external_type_specification]
#[verifier::external_body]
pub struct ExHandshakeState(snow::HandshakeState);

/// `snow::Error`.
#[verifier::external_type_specification]
#[verifier::external_body]
pub struct ExNoiseError(snow::Error);

/// What `snow`'s ChaCha20-Poly1305 `Cipher::encrypt` writes for a key, a
/// nonce and a plaintext, with no associated data: ciphertext and tag.
pub uninterp spec fn chacha20poly1305_seal(key: Seq<u8>, nonce: u64, plaintext: Seq<u8>) -> Seq<u8>;

/// What `snow`'s ChaCha20-Poly1305 `Cipher::decrypt` recovers for a key, a
/// nonce and a ciphertext with its tag, with no associated data; `None`
/// where the tag does not verify.
pub uninterp spec fn chacha20poly1305_open(key: Seq<u8>, nonce: u64, ciphertext: Seq<u8>) -> Option<
    Seq<u8>,
>;

/// `snow::Builder`, from `new` to `build_initiator`: the initiator's side of
/// a handshake of the configured pattern, with this side's private key, the
/// other side's public key, the prologue and the pre-shared key in its
/// slot. Nothing is claimed of the result.
#[verifier::external_body]
pub(crate) fn build_initiator(config: &InitiatorConfig) -> (built: Result<
    snow::HandshakeState,
    snow::Error,
>) {
    snow::Builder::new(config.pattern.parse()?)
        .local_private_key(&config.local_private)?
        .remote_public_key(&config.remote_public)?
        .prologue(config.prologue.as_bytes())?
        .psk(config.psk_slot, &config.psk)?
        .build_initiator()
}

/// `snow::Builder`, from `new` to `build_responder`: the responder's side of
/// a handshake of the configured pattern, with this side's private key and
/// the prologue. Nothing is claimed of the result.
#[verifier::external_body]
pub(crate) fn build_responder(config: &ResponderConfig) -> (built: Result<
    snow::HandshakeState,
    snow::Error,
>) {
    snow::Builder::new(config.pattern.parse()?)
        .local_private_key(&config.local_private)?
        .prologue(config.prologue.as_bytes())?
        .build_responder()
}

/// `HandshakeState::write_message`: writes the next handshake message, with
/// the given payload, to the front of `message` and returns its length,
/// which is at most the buffer's. The buffer keeps its size. A buffer of the
/// protocol's largest message is asked for: in a shorter one a key's tag
/// could run past the end.
#[verifier::external_body]
pub(crate) fn write_handshake_message(
    state: &mut snow::HandshakeState,
    payload: &[u8],
    message: &mut Vec<u8>,
) -> (written: Result<usize, snow::Error>)
    requires
        old(message)@.len() == 65535,
    ensures
        final(message)@.len() == old(message)@.len(),
        written matches Ok(n) ==> n <= final(message)@.len(),
{
    state.write_message(payload, message)
}

/// `HandshakeState::read_message`: reads the next handshake message and
/// writes its payload to the front of `payload`, returning the payload's
/// length, which is at most the buffer's. The buffer keeps its size.
#[verifier::external_body]
pub(crate) fn read_handshake_message(
    state: &mut snow::HandshakeState,
    message: &[u8],
    payload: &mut Vec<u8>,
) -> (read: Result<usize, snow::Error>)
    ensures
        final(payload)@.len() == old(payload)@.len(),
        read matches Ok(n) ==> n <= final(payload)@.len(),
{
    state.read_message(message, payload)
}

/// `HandshakeState::is_handshake_finished`. Nothing is claimed of the result.
#[verifier::external_body]
pub(crate) fn handshake_finished(state: &snow::HandshakeState) -> (finished: bool) {
    state.is_handshake_finished()
}

/// `HandshakeState::get_remote_static`: the other side's static public key,
/// where the handshake has learned it. Nothing is claimed of the result.
#[verifier::external_body]
pub(crate) fn remote_static(state: &snow::HandshakeState) -> (key: Option<Vec<u8>>) {
    state.get_remote_static().map(|k| k.to_vec())
}

/// `HandshakeState::set_psk`: sets the pre-shared key of a slot. Nothing is
/// claimed of the result.
#[verifier::external_body]
pub(crate) fn set_psk(state: &mut snow::HandshakeState, slot: u8, psk: &[u8; 32]) -> (set: Result<
    (),
    snow::Error,
>) {
    state.set_psk(usize::from(slot), psk)
}

/// `HandshakeState::dangerously_get_raw_split`: the two transport keys that
/// the handshake has agreed on, the initiator's sending key first. Nothing
/// is claimed of the keys.
#[verifier::external_body]
pub(crate) fn raw_split(state: &mut snow::HandshakeState) -> (keys: ([u8; 32], [u8; 32])) {
    state.dangerously_get_raw_split()
}

/// `Cipher::encrypt` of the ChaCha20-Poly1305 cipher that `DefaultResolver`
/// hands out, after `Cipher::set` with the key: writes ciphertext and tag,
/// sixteen bytes more than the plaintext, to the front of `out` and returns
/// their length. The buffer keeps its size; one too short makes `snow` panic,
/// and so does a plaintext beyond what the cipher takes under one nonce, so
/// that no more than one message's worth is asked for.
/// The resolver has this cipher whenever `snow` is built with its default
/// features, as it is for this crate.
#[verifier::external_body]
pub(crate) fn encrypt(key: &[u8; 32], nonce: u64, plaintext: &[u8], out: &mut Vec<u8>) -> (n: usize)
    requires
        plaintext@.len() <= MAX_PLAINTEXT,
        old(out)@.len() >= plaintext@.len() + 16,
    ensures
        n == plaintext@.len() + 16,
        final(out)@.len() == old(out)@.len(),
        final(out)@.subrange(0, n as int) == chacha20poly1305_seal(key@, nonce, plaintext@),
{
    let mut cipher = DefaultResolver.resolve_cipher(&CipherChoice::ChaChaPoly).unwrap();
    cipher.set(key);
    cipher.encrypt(nonce, &[], plaintext, out)
}

/// `Cipher::decrypt` of the ChaCha20-Poly1305 cipher that `DefaultResolver`
/// hands out, after `Cipher::set` with the key: where the tag verifies,
/// writes the plaintext, sixteen bytes less than the ciphertext, to the
/// front of `out` and returns its length; fails where it does not. The
/// buffer keeps its size; a ciphertext without room for a tag, or a buffer
/// too short, makes `snow` panic. The resolver has this cipher whenever
/// `snow` is built with its default features, as it is for this crate.
#[verifier::external_body]
pub(crate) fn decrypt(key: &[u8; 32], nonce: u64, ciphertext: &[u8], out: &mut Vec<u8>) -> (opened:
    Result<usize, snow::Error>)
    requires
        ciphertext@.len() >= 16,
        old(out)@.len() >= ciphertext@.len() - 16,
    ensures
        final(out)@.len() == old(out)@.len(),
        match opened {
            Ok(n) => n == ciphertext@.len() - 16 && chacha20poly1305_open(
                key@,
                nonce,
                ciphertext@,
            ) == Some(final(out)@.subrange(0, n as int)),
            Err(_) => chacha20poly1305_open(key@, nonce, ciphertext@).is_none(),
        },
{
    let mut cipher = DefaultResolver.resolve_cipher(&CipherChoice::ChaChaPoly).unwrap();
    cipher.set(key);
    cipher.decrypt(nonce, &[], ciphertext, out)
}

} // verus!
