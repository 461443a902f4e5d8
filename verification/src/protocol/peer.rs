//! A peer and its three session slots: `next`, a handshake in flight;
//! `current`, the confirmed session; `past`, the session that `current`
//! superseded, kept so that packets still under way can be decrypted.

use crate::consts::{MAX_PLAINTEXT, REKEY_TIMEOUT, TAG_LEN};
use crate::error::PeerError;
use crate::protocol::noise;
use crate::protocol::noise::{chacha20poly1305_open, chacha20poly1305_seal};
use crate::protocol::timer::PeerTimers;
use crate::protocol::wire::{
    build_transport, nonce_field, transport_bytes, RESPONSE_PAYLOAD_LEN, TRANSPORT_PAYLOAD_OFFSET,
};
use crate::protocol::wire::lemma_transport_roundtrip;
use crate::types::addr::Endpoint;
use crate::types::keys::KeyPair;
use vstd::prelude::*;

verus! {

/// Which side of a handshake this is.
#[derive(Debug, Clone, Copy, PartialEq, Eq, Structural)]
pub enum Role {
    Initiator,
    Responder,
}

/// What is configured of a peer: its public key, the pre-shared key, and
/// the address to reach it at.
#[derive(Debug, Clone, Copy)]
pub struct PeerInfo {
    pub pub_key: [u8; 32],
    pub psk: Option<[u8; 32]>,
    pub endpoint: Option<Endpoint>,
}

/// What the initiator's side of a handshake is set up from.
pub struct InitiatorConfig {
    /// The name of the handshake protocol.
    pub pattern: &'static str,
    /// The prologue that both sides hash in.
    pub prologue: &'static str,
    /// This side's private key.
    pub local_private: [u8; 32],
    /// The other side's public key.
    pub remote_public: [u8; 32],
    /// The slot of the pre-shared key.
    pub psk_slot: u8,
    /// The pre-shared key.
    pub psk: [u8; 32],
}

/// What the responder's side of a handshake is set up from. Who the other
/// side is, and with it the pre-shared key, the initiation tells.
pub struct ResponderConfig {
    /// The name of the handshake protocol.
    pub pattern: &'static str,
    /// The prologue that both sides hash in.
    pub prologue: &'static str,
    /// This side's private key.
    pub local_private: [u8; 32],
}

/// A handshake in flight.
pub struct Handshake {
    /// The handshake's cryptographic state.
    pub noise: snow::HandshakeState,
    /// The session index chosen for the session that the handshake will give.
    pub our_index: u32,
    /// When the handshake was begun.
    pub birth: u64,
    /// The side that this peer server plays in it.
    pub role: Role,
}

impl Handshake {
    /// Whether the handshake still waits for its counter-message at `now`:
    /// less than `REKEY_TIMEOUT` seconds have passed since it was begun.
    pub open spec fn in_flight(&self, now: u64) -> bool {
        now < self.birth + REKEY_TIMEOUT
    }

    /// Tells whether the handshake still waits for its counter-message.
    pub fn is_in_flight(&self, now: u64) -> (waiting: bool)
        ensures
            waiting == self.in_flight(now),
    {
        if now < self.birth {
            true
        } else {
            now - self.birth < REKEY_TIMEOUT
        }
    }
}

/// Whether a handshake message that was read has settled the handshake:
/// it authenticated, its payload was empty, and the handshake awaits no
/// further message.
pub fn handshake_settled(read: &Result<usize, snow::Error>, finished: bool) -> (settled: bool)
    ensures
        settled == (read matches Ok(n) && n == 0 && finished),
{
    match read {
        Ok(n) => *n == 0 && finished,
        Err(_) => false,
    }
}

/// The length of a handshake response that was written, where it can go
/// out: the message was produced, has the length that the response's
/// layout gives it, and the handshake awaits no further message.
pub fn response_length(written: &Result<usize, snow::Error>, finished: bool) -> (length: Option<
    usize,
>)
    ensures
        length == (if written matches Ok(n) && n == RESPONSE_PAYLOAD_LEN && finished {
            Some(RESPONSE_PAYLOAD_LEN)
        } else {
            None
        }),
{
    match written {
        Ok(n) => if *n == RESPONSE_PAYLOAD_LEN && finished {
            Some(RESPONSE_PAYLOAD_LEN)
        } else {
            None
        },
        Err(_) => None,
    }
}

/// The size on the wire of the transport message that carries a plaintext
/// of the given length: sixteen bytes of header, the plaintext's length of
/// ciphertext, and the tag.
pub open spec fn wire_size(plaintext_len: nat) -> nat {
    TRANSPORT_PAYLOAD_OFFSET as nat + plaintext_len + TAG_LEN as nat
}

/// An established session: its keys and the nonce of the next message sent.
pub struct Session {
    pub keys: KeyPair,
    pub send_nonce: u64,
}

impl Session {
    /// The index by which the other side knows this session.
    pub open spec fn their_index(&self) -> u32 {
        self.keys.send.id
    }

    /// The index by which this side knows this session.
    pub open spec fn our_index(&self) -> u32 {
        self.keys.recv.id
    }

    /// Why a plaintext cannot be sent on this session, if it cannot: it is
    /// too long for one message, or every nonce has been used.
    pub open spec fn seal_refused(&self, plaintext: Seq<u8>) -> Option<PeerError> {
        if plaintext.len() > MAX_PLAINTEXT {
            Some(PeerError::PayloadTooLarge)
        } else if self.send_nonce == u64::MAX {
            Some(PeerError::NoActiveSession)
        } else {
            None
        }
    }

    /// The transport message that carries a plaintext next: addressed to the
    /// other side's index, under the next nonce, encrypted with the sending key.
    pub open spec fn sealed(&self, plaintext: Seq<u8>) -> Seq<u8> {
        transport_bytes(
            self.keys.send.id,
            self.send_nonce,
            chacha20poly1305_seal(self.keys.send.key@, self.send_nonce, plaintext),
        )
    }

    /// The session after one more message was sent: the nonce has advanced,
    /// the keys are the same.
    pub open spec fn advanced(&self) -> Session {
        Session { keys: self.keys, send_nonce: (self.send_nonce + 1) as u64 }
    }

    /// What a ciphertext under a nonce decrypts to with the receiving key;
    /// none where it is too short to hold a tag or does not authenticate.
    pub open spec fn opened(&self, nonce: u64, ciphertext: Seq<u8>) -> Option<Seq<u8>> {
        if ciphertext.len() < TAG_LEN {
            None
        } else {
            chacha20poly1305_open(self.keys.recv.key@, nonce, ciphertext)
        }
    }

    /// A fresh session over a key pair; its first message goes under nonce 0.
    pub fn new(keys: KeyPair) -> (session: Session)
        ensures
            session.keys == keys,
            session.send_nonce == 0,
    {
        Session { keys, send_nonce: 0 }
    }

    /// Encrypts a plaintext into the next transport message and advances
    /// the nonce. A refused plaintext leaves the session as it was.
    pub fn seal(&mut self, plaintext: &[u8]) -> (packet: Result<Vec<u8>, PeerError>)
        ensures
            match old(self).seal_refused(plaintext@) {
                Some(e) => packet == Err::<Vec<u8>, PeerError>(e) && *final(self) == *old(self),
                None => packet matches Ok(p) && p@ == old(self).sealed(plaintext@) && p@.len()
                    == wire_size(plaintext@.len()) && *final(self) == old(self).advanced(),
            },
    {
        if plaintext.len() > MAX_PLAINTEXT {
            return Err(PeerError::PayloadTooLarge);
        }
        if self.send_nonce == u64::MAX {
            return Err(PeerError::NoActiveSession);
        }
        let nonce = self.send_nonce;
        let sealed_len: usize = plaintext.len() + TAG_LEN;
        let mut buffer: Vec<u8> = vec![0u8; sealed_len];
        let n = noise::encrypt(&self.keys.send.key, nonce, plaintext, &mut buffer);
        buffer.truncate(n);
        assert(buffer@ =~= chacha20poly1305_seal(self.keys.send.key@, nonce, plaintext@));
        let packet = build_transport(self.keys.send.id, nonce, buffer.as_slice());
        proof {
            lemma_transport_roundtrip(self.keys.send.id, nonce, buffer@);
        }
        self.send_nonce = nonce + 1;
        Ok(packet)
    }

    /// Decrypts a ciphertext that came under a nonce. The session is not
    /// changed, whatever the outcome.
    pub fn open(&self, nonce: u64, ciphertext: &[u8]) -> (plaintext: Option<Vec<u8>>)
        ensures
            match self.opened(nonce, ciphertext@) {
                Some(p) => plaintext matches Some(out) && out@ == p,
                None => plaintext.is_none(),
            },
    {
        if ciphertext.len() < TAG_LEN {
            return None;
        }
        let opened_len: usize = ciphertext.len() - TAG_LEN;
        let mut buffer: Vec<u8> = vec![0u8; opened_len];
        match noise::decrypt(&self.keys.recv.key, nonce, ciphertext, &mut buffer) {
            Ok(n) => {
                buffer.truncate(n);
                assert(buffer@ =~= chacha20poly1305_open(
                    self.keys.recv.key@,
                    nonce,
                    ciphertext@,
                ).unwrap());
                Some(buffer)
            },
            Err(_) => None,
        }
    }
}

/// The three session slots of a peer.
pub struct Sessions {
    pub next: Option<Handshake>,
    pub current: Option<Session>,
    pub past: Option<Session>,
}

/// A remote peer: what is configured of it, its sessions, its traffic
/// counters and its timers.
pub struct Peer {
    pub info: PeerInfo,
    pub sessions: Sessions,
    pub tx_bytes: u64,
    pub rx_bytes: u64,
    pub timers: PeerTimers,
}

/// A byte counter after `bytes` more bytes: it stops at its largest value.
pub open spec fn counted(counter: u64, bytes: nat) -> u64 {
    if counter + bytes <= u64::MAX {
        (counter + bytes) as u64
    } else {
        u64::MAX
    }
}

/// Adds a length to a byte counter.
pub fn count_bytes(counter: u64, bytes: usize) -> (sum: u64)
    ensures
        sum == counted(counter, bytes as nat),
{
    let wide: u64 = bytes as u64;
    if wide <= u64::MAX - counter {
        counter + wide
    } else {
        u64::MAX
    }
}

impl Peer {
    /// Whether a handshake is in flight at `now`: the `next` slot is filled
    /// and has not waited out its time.
    pub open spec fn handshake_in_flight(&self, now: u64) -> bool {
        self.sessions.next matches Some(h) && h.in_flight(now)
    }

    /// The peer after the handshake in `next` was completed at `now` with
    /// the two transport keys and the other side's session index: `current`
    /// has moved to `past`, the new session is `current`, `next` is empty
    /// and the timers are armed, the rekey timer on the initiator's side only.
    pub open spec fn completed(
        &self,
        their_index: u32,
        first: [u8; 32],
        second: [u8; 32],
        now: u64,
    ) -> Peer
        recommends
            self.sessions.next.is_some(),
    {
        let h = self.sessions.next.unwrap();
        Peer {
            info: self.info,
            sessions: Sessions {
                next: None,
                current: Some(
                    Session {
                        keys: KeyPair::of_split(
                            h.role == Role::Initiator,
                            first,
                            second,
                            h.our_index,
                            their_index,
                            now,
                        ),
                        send_nonce: 0,
                    },
                ),
                past: self.sessions.current,
            },
            tx_bytes: self.tx_bytes,
            rx_bytes: self.rx_bytes,
            timers: PeerTimers::armed(now, h.role == Role::Initiator),
        }
    }

    /// The peer with a handshake put into its `next` slot.
    pub open spec fn with_next(&self, handshake: Handshake) -> Peer {
        Peer {
            info: self.info,
            sessions: Sessions {
                next: Some(handshake),
                current: self.sessions.current,
                past: self.sessions.past,
            },
            tx_bytes: self.tx_bytes,
            rx_bytes: self.rx_bytes,
            timers: self.timers,
        }
    }

    /// A peer as configured, without sessions, traffic or timers.
    pub open spec fn fresh(info: PeerInfo) -> Peer {
        Peer {
            info,
            sessions: Sessions { next: None, current: None, past: None },
            tx_bytes: 0,
            rx_bytes: 0,
            timers: PeerTimers::idle(),
        }
    }

    /// The peer with its timers polled at `now`.
    pub open spec fn with_timers_polled(&self, now: u64) -> Peer {
        Peer {
            info: self.info,
            sessions: self.sessions,
            tx_bytes: self.tx_bytes,
            rx_bytes: self.rx_bytes,
            timers: self.timers.polled(now),
        }
    }

    /// Whether this peer is `other` but for the cryptographic state of the
    /// handshake in flight: the same configuration, sessions, counters and
    /// timers, and in `next` a handshake of the same index, time and role,
    /// or none in both.
    pub open spec fn same_attempt(&self, other: Peer) -> bool {
        &&& self.info == other.info
        &&& self.sessions.current == other.sessions.current
        &&& self.sessions.past == other.sessions.past
        &&& self.tx_bytes == other.tx_bytes
        &&& self.rx_bytes == other.rx_bytes
        &&& self.timers == other.timers
        &&& match (self.sessions.next, other.sessions.next) {
            (Some(a), Some(b)) => a.our_index == b.our_index && a.birth == b.birth && a.role
                == b.role,
            (None, None) => true,
            _ => false,
        }
    }

    /// Why a plaintext cannot be sent to this peer, if it cannot.
    pub open spec fn encrypt_refused(&self, plaintext: Seq<u8>) -> Option<PeerError> {
        match self.sessions.current {
            None => Some(PeerError::NoActiveSession),
            Some(session) => if self.info.endpoint.is_none() {
                Some(PeerError::MissingEndpoint)
            } else {
                session.seal_refused(plaintext)
            },
        }
    }

    /// The peer after a plaintext was sent to it: the current session's
    /// nonce has advanced and the sent-bytes counter has grown by the size
    /// of the message on the wire.
    pub open spec fn after_encrypt(&self, plaintext: Seq<u8>) -> Peer
        recommends
            self.sessions.current.is_some(),
    {
        let session = self.sessions.current.unwrap();
        Peer {
            info: self.info,
            sessions: Sessions {
                next: self.sessions.next,
                current: Some(session.advanced()),
                past: self.sessions.past,
            },
            tx_bytes: counted(self.tx_bytes, wire_size(plaintext.len())),
            rx_bytes: self.rx_bytes,
            timers: self.timers,
        }
    }

    /// What a ciphertext under a nonce decrypts to: the current session is
    /// tried first and, where it does not authenticate the message, the past
    /// session.
    pub open spec fn opened(&self, nonce: u64, ciphertext: Seq<u8>) -> Result<Seq<u8>, PeerError> {
        match self.sessions.current {
            None => Err(PeerError::NoActiveSession),
            Some(current) => match current.opened(nonce, ciphertext) {
                Some(p) => Ok(p),
                None => match self.sessions.past {
                    None => Err(PeerError::DecryptFailed),
                    Some(past) => match past.opened(nonce, ciphertext) {
                        Some(p) => Ok(p),
                        None => Err(PeerError::DecryptFailed),
                    },
                },
            },
        }
    }

    /// The peer after `bytes` bytes were received from it.
    pub open spec fn after_receive(&self, bytes: nat) -> Peer {
        Peer {
            info: self.info,
            sessions: self.sessions,
            tx_bytes: self.tx_bytes,
            rx_bytes: counted(self.rx_bytes, bytes),
            timers: self.timers,
        }
    }

    /// A peer without sessions.
    pub fn new(info: PeerInfo) -> (peer: Peer)
        ensures
            peer == Peer::fresh(info),
    {
        Peer {
            info,
            sessions: Sessions { next: None, current: None, past: None },
            tx_bytes: 0,
            rx_bytes: 0,
            timers: PeerTimers::new(),
        }
    }

    /// The handshake in flight.
    pub fn next(&self) -> (slot: Result<&Handshake, PeerError>)
        ensures
            match self.sessions.next {
                Some(h) => slot matches Ok(r) && *r == h,
                None => slot == Err::<&Handshake, PeerError>(PeerError::NoActiveSession),
            },
    {
        match &self.sessions.next {
            Some(h) => Ok(h),
            None => Err(PeerError::NoActiveSession),
        }
    }

    /// The active session.
    pub fn current(&self) -> (slot: Result<&Session, PeerError>)
        ensures
            match self.sessions.current {
                Some(s) => slot matches Ok(r) && *r == s,
                None => slot == Err::<&Session, PeerError>(PeerError::NoActiveSession),
            },
    {
        match &self.sessions.current {
            Some(s) => Ok(s),
            None => Err(PeerError::NoActiveSession),
        }
    }

    /// The session that the active one superseded.
    pub fn past(&self) -> (slot: Result<&Session, PeerError>)
        ensures
            match self.sessions.past {
                Some(s) => slot matches Ok(r) && *r == s,
                None => slot == Err::<&Session, PeerError>(PeerError::NoActiveSession),
            },
    {
        match &self.sessions.past {
            Some(s) => Ok(s),
            None => Err(PeerError::NoActiveSession),
        }
    }

    /// The session index of the handshake in flight.
    pub fn our_next_index(&self) -> (index: Option<u32>)
        ensures
            index == (match self.sessions.next {
                Some(h) => Some(h.our_index),
                None => None,
            }),
    {
        match &self.sessions.next {
            Some(h) => Some(h.our_index),
            None => None,
        }
    }

    /// The index by which the other side knows the active session.
    pub fn their_current_index(&self) -> (index: Option<u32>)
        ensures
            index == (match self.sessions.current {
                Some(s) => Some(s.their_index()),
                None => None,
            }),
    {
        match &self.sessions.current {
            Some(s) => Some(s.keys.send.id),
            None => None,
        }
    }

    /// Polls the peer's timers at `now` and says which went off: first
    /// whether the rekey timer fired, then whether the keepalive timer ticked.
    pub fn poll_timers(&mut self, now: u64) -> (due: (bool, bool))
        ensures
            due.0 == old(self).timers.rekey_due(now),
            due.1 == old(self).timers.keepalive_due(now),
            *final(self) == old(self).with_timers_polled(now),
    {
        self.timers.poll(now)
    }

    /// Tells whether a handshake is in flight at `now`.
    pub fn has_handshake_in_flight(&self, now: u64) -> (waiting: bool)
        ensures
            waiting == self.handshake_in_flight(now),
    {
        match &self.sessions.next {
            Some(h) => h.is_in_flight(now),
            None => false,
        }
    }

    /// Puts a handshake into the `next` slot, in place of what was there.
    pub fn set_next_session(&mut self, handshake: Handshake)
        ensures
            *final(self) == old(self).with_next(handshake),
    {
        self.sessions.next = Some(handshake);
    }

    /// Whether this peer is what feeding a handshake response to `before`,
    /// with result `done`, has made of it.
    ///
    /// Without a handshake in `next` the response fails and nothing
    /// changes. With one, the cryptography decides. Where the response
    /// fails, the peer has changed in the cryptographic state of the
    /// handshake at most; where it succeeds, the handshake is completed at
    /// `now` with the other side's session index.
    pub open spec fn authenticated(
        &self,
        before: Peer,
        their_index: u32,
        now: u64,
        done: Result<(), PeerError>,
    ) -> bool {
        match before.sessions.next {
            None => done == Err::<(), PeerError>(PeerError::HandshakeFailed) && *self == before,
            Some(_) => match done {
                Err(e) => e == PeerError::HandshakeFailed && self.same_attempt(before),
                Ok(_) => exists|first: [u8; 32], second: [u8; 32]|
                    *self == #[trigger] before.completed(their_index, first, second, now),
            },
        }
    }

    /// Feeds the payload of a handshake response to the handshake in
    /// `next`, asks the handshake whether it is finished, takes the two
    /// transport keys that it holds, and settles the response on these.
    pub fn authenticate_response(&mut self, payload: &[u8], their_index: u32, now: u64) -> (done:
        Result<(), PeerError>)
        ensures
            final(self).authenticated(*old(self), their_index, now, done),
    {
        let outcome = match &mut self.sessions.next {
            None => None,
            Some(handshake) => {
                let mut plaintext: Vec<u8> = Vec::new();
                let read = noise::read_handshake_message(
                    &mut handshake.noise,
                    payload,
                    &mut plaintext,
                );
                let finished = noise::handshake_finished(&handshake.noise);
                let keys = noise::raw_split(&mut handshake.noise);
                Some((read, finished, keys))
            },
        };
        match outcome {
            None => Err(PeerError::HandshakeFailed),
            Some((read, finished, keys)) => {
                let ghost attempt = *self;
                let done = self.settle_response(&read, finished, keys, their_index, now);
                assert(attempt.completed(their_index, keys.0, keys.1, now) == old(self).completed(
                    their_index,
                    keys.0,
                    keys.1,
                    now,
                ));
                done
            },
        }
    }

    /// Settles a handshake response on what the handshake made of it: the
    /// result of reading it, whether the handshake is finished, and the two
    /// transport keys. Where there is a handshake in `next` and the read
    /// has settled it (the response authenticated, carried no payload, and
    /// was the last message), the handshake is completed with the keys.
    /// Otherwise the handshake has failed, nothing is rotated and no timer
    /// armed: the peer stays as it is.
    pub fn settle_response(
        &mut self,
        read: &Result<usize, snow::Error>,
        finished: bool,
        keys: ([u8; 32], [u8; 32]),
        their_index: u32,
        now: u64,
    ) -> (done: Result<(), PeerError>)
        ensures
            old(self).sessions.next.is_some() && (read matches Ok(n) && n == 0 && finished)
                ==> done == Ok::<(), PeerError>(()) && *final(self) == old(self).completed(
                their_index,
                keys.0,
                keys.1,
                now,
            ),
            !(old(self).sessions.next.is_some() && (read matches Ok(n) && n == 0 && finished))
                ==> done == Err::<(), PeerError>(PeerError::HandshakeFailed) && *final(self)
                == *old(self),
    {
        if !handshake_settled(read, finished) {
            return Err(PeerError::HandshakeFailed);
        }
        match self.complete_handshake(their_index, keys.0, keys.1, now) {
            Ok(()) => Ok(()),
            Err(_) => Err(PeerError::HandshakeFailed),
        }
    }

    /// Completes the handshake in `next` with the two transport keys that
    /// it has agreed on and the other side's session index: rotates
    /// `current` to `past` and the new session to `current`, empties `next`
    /// and arms the timers. Without a handshake in `next` nothing changes.
    /// To be called only once the counter-message has authenticated.
    pub fn complete_handshake(
        &mut self,
        their_index: u32,
        first: [u8; 32],
        second: [u8; 32],
        now: u64,
    ) -> (done: Result<(), PeerError>)
        ensures
            match old(self).sessions.next {
                Some(_) => done == Ok::<(), PeerError>(()) && *final(self) == old(self).completed(
                    their_index,
                    first,
                    second,
                    now,
                ),
                None => done == Err::<(), PeerError>(PeerError::NoActiveSession) && *final(self)
                    == *old(self),
            },
    {
        let handshake = match self.sessions.next.take() {
            Some(h) => h,
            None => {
                return Err(PeerError::NoActiveSession);
            },
        };
        let initiator = match handshake.role {
            Role::Initiator => true,
            Role::Responder => false,
        };
        let keys = KeyPair::from_split(
            initiator,
            first,
            second,
            handshake.our_index,
            their_index,
            now,
        );
        let superseded = self.sessions.current.take();
        self.sessions.past = superseded;
        self.sessions.current = Some(Session::new(keys));
        self.timers.arm(now, initiator);
        Ok(())
    }

    /// Encrypts a plaintext for this peer under the current session and
    /// says where to send it. Counts the message's bytes as sent. A refusal
    /// leaves the peer as it was.
    pub fn encrypt(&mut self, plaintext: &[u8]) -> (sent: Result<(Endpoint, Vec<u8>), PeerError>)
        ensures
            match old(self).encrypt_refused(plaintext@) {
                Some(e) => sent == Err::<(Endpoint, Vec<u8>), PeerError>(e) && *final(self) == *old(
                    self,
                ),
                None => sent matches Ok(datagram) && Some(datagram.0) == old(self).info.endpoint
                    && datagram.1@ == old(self).sessions.current.unwrap().sealed(plaintext@)
                    && datagram.1@.len() == wire_size(plaintext@.len()) && *final(self) == old(
                    self,
                ).after_encrypt(plaintext@),
            },
    {
        let endpoint = self.info.endpoint;
        match &mut self.sessions.current {
            None => Err(PeerError::NoActiveSession),
            Some(session) => {
                let endpoint = match endpoint {
                    Some(e) => e,
                    None => {
                        return Err(PeerError::MissingEndpoint);
                    },
                };
                match session.seal(plaintext) {
                    Ok(packet) => {
                        self.tx_bytes = count_bytes(self.tx_bytes, packet.len());
                        Ok((endpoint, packet))
                    },
                    Err(e) => Err(e),
                }
            },
        }
    }

    /// Decrypts a ciphertext that came under a nonce in a message of
    /// `wire_len` bytes: with the current session and, where that does not
    /// authenticate it, with the past session. On success the message's
    /// bytes are counted as received; on failure nothing changes.
    pub fn decrypt(&mut self, nonce: u64, ciphertext: &[u8], wire_len: usize) -> (plaintext: Result<
        Vec<u8>,
        PeerError,
    >)
        ensures
            match old(self).opened(nonce, ciphertext@) {
                Ok(p) => plaintext matches Ok(out) && out@ == p && *final(self) == old(
                    self,
                ).after_receive(wire_len as nat),
                Err(e) => plaintext == Err::<Vec<u8>, PeerError>(e) && *final(self) == *old(self),
            },
    {
        let first_try = match &self.sessions.current {
            None => {
                return Err(PeerError::NoActiveSession);
            },
            Some(current) => current.open(nonce, ciphertext),
        };
        let opened = match first_try {
            Some(p) => Some(p),
            None => match &self.sessions.past {
                None => None,
                Some(past) => past.open(nonce, ciphertext),
            },
        };
        match opened {
            Some(p) => {
                self.rx_bytes = count_bytes(self.rx_bytes, wire_len);
                Ok(p)
            },
            None => Err(PeerError::DecryptFailed),
        }
    }
}

/// The nonces of a session's messages rise by one from message to message,
/// under keys that stay the same: each message carries the nonce that the
/// session held, and leaves the session holding the next one.
pub proof fn lemma_nonce_advances(session: Session, plaintext: Seq<u8>)
    requires
        session.seal_refused(plaintext).is_none(),
    ensures
        nonce_field(session.sealed(plaintext)) == session.send_nonce,
        session.advanced().send_nonce == session.send_nonce + 1,
        session.advanced().keys == session.keys,
{
    lemma_transport_roundtrip(
        session.keys.send.id,
        session.send_nonce,
        chacha20poly1305_seal(session.keys.send.key@, session.send_nonce, plaintext),
    );
}

/// The session after `count` more messages were sent.
pub open spec fn advanced_by(session: Session, count: nat) -> Session
    decreases count,
{
    if count == 0 {
        session
    } else {
        advanced_by(session, (count - 1) as nat).advanced()
    }
}

/// After `count` messages that the session did not refuse, its nonce is
/// `count` higher and its keys are the same.
pub proof fn lemma_nonce_after(session: Session, count: nat)
    requires
        session.send_nonce + count <= u64::MAX,
    ensures
        advanced_by(session, count).send_nonce == session.send_nonce + count,
        advanced_by(session, count).keys == session.keys,
    decreases count,
{
    if count > 0 {
        lemma_nonce_after(session, (count - 1) as nat);
    }
}

/// No nonce is used twice under one session key pair, and nonces are used
/// in rising order: of two messages of a session, the later one carries the
/// strictly higher nonce.
pub proof fn lemma_nonces_strictly_increase(
    session: Session,
    earlier: nat,
    later: nat,
    first_plaintext: Seq<u8>,
    second_plaintext: Seq<u8>,
)
    requires
        earlier < later,
        session.send_nonce + later < u64::MAX,
        first_plaintext.len() <= MAX_PLAINTEXT,
        second_plaintext.len() <= MAX_PLAINTEXT,
    ensures
        nonce_field(advanced_by(session, earlier).sealed(first_plaintext)) < nonce_field(
            advanced_by(session, later).sealed(second_plaintext),
        ),
        advanced_by(session, earlier).keys == advanced_by(session, later).keys,
{
    lemma_nonce_after(session, earlier);
    lemma_nonce_after(session, later);
    lemma_nonce_advances(advanced_by(session, earlier), first_plaintext);
    lemma_nonce_advances(advanced_by(session, later), second_plaintext);
}

/// The current session changes by the completion of a handshake alone:
/// beginning a handshake, receiving and polling the timers leave it as it
/// is, and sending advances its nonce and leaves its keys as they are.
pub proof fn lemma_current_changes_by_completion_alone(
    peer: Peer,
    handshake: Handshake,
    plaintext: Seq<u8>,
    bytes: nat,
    now: u64,
)
    requires
        peer.sessions.current.is_some(),
    ensures
        peer.with_next(handshake).sessions.current == peer.sessions.current,
        peer.after_receive(bytes).sessions.current == peer.sessions.current,
        peer.with_timers_polled(now).sessions.current == peer.sessions.current,
        peer.after_encrypt(plaintext).sessions.current.unwrap().keys
            == peer.sessions.current.unwrap().keys,
        peer.with_next(handshake).sessions.past == peer.sessions.past,
        peer.after_receive(bytes).sessions.past == peer.sessions.past,
        peer.with_timers_polled(now).sessions.past == peer.sessions.past,
        peer.after_encrypt(plaintext).sessions.past == peer.sessions.past,
{
}

/// After a handshake completes, the session that was current is the past
/// session, and every message that it decrypted before is still decrypted:
/// to the same plaintext, unless the new session's key authenticates the
/// message as well.
pub proof fn lemma_past_session_still_decrypts(
    peer: Peer,
    their_index: u32,
    first: [u8; 32],
    second: [u8; 32],
    now: u64,
    nonce: u64,
    ciphertext: Seq<u8>,
)
    requires
        peer.sessions.next.is_some(),
        peer.sessions.current.is_some(),
        peer.sessions.current.unwrap().opened(nonce, ciphertext).is_some(),
    ensures
        ({
            let rotated = peer.completed(their_index, first, second, now);
            let plaintext = peer.sessions.current.unwrap().opened(nonce, ciphertext).unwrap();
            &&& rotated.sessions.past == peer.sessions.current
            &&& rotated.opened(nonce, ciphertext).is_ok()
            &&& rotated.sessions.current.unwrap().opened(nonce, ciphertext).is_none()
                ==> rotated.opened(nonce, ciphertext) == Ok::<Seq<u8>, PeerError>(plaintext)
        }),
{
}

} // verus!
