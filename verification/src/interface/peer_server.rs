//! The peer server's decisions. The event loop around it receives
//! datagrams, timer events and plaintext, hands each to the server, and
//! sends what the server gives back.

use crate::consts::{HANDSHAKE_PATTERN, HANDSHAKE_PROLOGUE, MAX_NOISE_MESSAGE, PSK_SLOT};
use crate::error::{ConfigError, PeerError};
use crate::protocol::index::{IndexTable, PeerId};
use crate::protocol::noise;
use crate::protocol::index::{following, lemma_next_free_is_fresh};
use crate::protocol::peer::{
    response_length, wire_size, Handshake, InitiatorConfig, Peer, PeerInfo, ResponderConfig, Role,
    Session, Sessions,
};
use crate::protocol::timer::PeerTimers;
use crate::protocol::wire::{
    build_initiation, build_response, bytes_equal, ciphertext_field, classify, copy_range,
    has_receiver_index, index_field, initiation_bytes, initiation_payload_field, is_initiation,
    is_response, is_transport, nonce_field, packet_kind, parse_initiation, parse_response,
    parse_transport, response_bytes, response_payload_field, response_receiver_field,
    transport_receiver_index, PacketKind, RESPONSE_PAYLOAD_LEN, RESPONSE_PAYLOAD_OFFSET,
};
use crate::protocol::wire::{lemma_initiation_roundtrip, lemma_response_roundtrip};
use crate::types::addr::Endpoint;
use crate::types::keys::KeyPair;
use vstd::prelude::*;

verus! {

/// A timer that went off, with the peer it concerns.
#[derive(Debug, Clone, Copy, PartialEq, Eq, Structural)]
pub enum TimerMessage {
    KeepAlive(PeerId),
    Rekey(PeerId),
}

/// What the server holds, as plain values.
pub struct ServerView {
    /// The interface's private key.
    pub private_key: [u8; 32],
    /// The peers, each at the position that is its identifier.
    pub peers: Seq<Peer>,
    /// The index table: which peer owns each session index.
    pub index_map: Map<u32, PeerId>,
    /// The session index that the next handshake gets.
    pub next_index: Option<u32>,
}

/// The peers, their sessions and the table of session indices.
pub struct PeerServer {
    private_key: [u8; 32],
    peers: Vec<Peer>,
    index_map: IndexTable,
}

impl View for PeerServer {
    type V = ServerView;

    closed spec fn view(&self) -> ServerView {
        ServerView {
            private_key: self.private_key,
            peers: self.peers@,
            index_map: self.index_map@,
            next_index: self.index_map.next_free(),
        }
    }
}

/// What stands in the way of setting up a server, if anything: first a
/// missing private key, then a peer without pre-shared key.
pub open spec fn config_error(private_key: Option<[u8; 32]>, peers: Seq<PeerInfo>) -> Option<
    ConfigError,
> {
    if private_key.is_none() {
        Some(ConfigError::MissingPrivateKey)
    } else if exists|i: int| 0 <= i < peers.len() && (#[trigger] peers[i]).psk.is_none() {
        Some(ConfigError::MissingPresharedKey)
    } else {
        None
    }
}

impl ServerView {
    /// Why no handshake can be begun for a peer at `now`, if none can: the
    /// peer is unknown, a handshake is in flight, or no session index is left.
    pub open spec fn begin_refused(self, peer: PeerId, now: u64) -> Option<PeerError> {
        if peer >= self.peers.len() {
            Some(PeerError::UnknownPeer)
        } else if self.peers[peer as int].handshake_in_flight(now) {
            Some(PeerError::HandshakeInProgress)
        } else if self.next_index.is_none() {
            Some(PeerError::HandshakeFailed)
        } else {
            None
        }
    }

    /// Why no handshake can be initiated with a peer at `now`, if none can:
    /// the peer is unknown, a handshake is in flight, the peer's address is
    /// not known, or no session index is left.
    pub open spec fn initiation_refused(self, peer: PeerId, now: u64) -> Option<PeerError> {
        if peer >= self.peers.len() {
            Some(PeerError::UnknownPeer)
        } else if self.peers[peer as int].handshake_in_flight(now) {
            Some(PeerError::HandshakeInProgress)
        } else if self.peers[peer as int].info.endpoint.is_none() {
            Some(PeerError::MissingEndpoint)
        } else if self.next_index.is_none() {
            Some(PeerError::HandshakeFailed)
        } else {
            None
        }
    }

    /// What the initiator's side of a handshake with a peer is set up from:
    /// the protocol's pattern and prologue, the interface's private key,
    /// the peer's public key, and the peer's pre-shared key in its slot.
    pub open spec fn initiator_config(self, peer: PeerId) -> InitiatorConfig
        recommends
            peer < self.peers.len(),
            self.peers[peer as int].info.psk.is_some(),
    {
        InitiatorConfig {
            pattern: HANDSHAKE_PATTERN,
            prologue: HANDSHAKE_PROLOGUE,
            local_private: self.private_key,
            remote_public: self.peers[peer as int].info.pub_key,
            psk_slot: PSK_SLOT,
            psk: self.peers[peer as int].info.psk.unwrap(),
        }
    }

    /// What the responder's side of a handshake is set up from: the
    /// protocol's pattern and prologue and the interface's private key.
    pub open spec fn responder_config(self) -> ResponderConfig {
        ResponderConfig {
            pattern: HANDSHAKE_PATTERN,
            prologue: HANDSHAKE_PROLOGUE,
            local_private: self.private_key,
        }
    }

    /// Why no initiation goes out to a peer at `now`, if none does, given
    /// what came of writing the first handshake message into a buffer of
    /// `room` bytes: the attempt is refused, or the message was not written.
    pub open spec fn initiation_blocked(
        self,
        peer: PeerId,
        written: Result<usize, snow::Error>,
        room: nat,
        now: u64,
    ) -> Option<PeerError> {
        match self.initiation_refused(peer, now) {
            Some(e) => Some(e),
            None => match written {
                Ok(n) => if n <= room {
                    None
                } else {
                    Some(PeerError::HandshakeFailed)
                },
                Err(_) => Some(PeerError::HandshakeFailed),
            },
        }
    }

    /// The peer that a handshake initiation is admitted for, with its
    /// pre-shared key, given what came of reading the initiation and the
    /// static key that it carried: or why it is not admitted. An initiation
    /// that did not authenticate, or carried no static key, fails the
    /// handshake; a static key that is no peer's is of an unknown peer;
    /// then the peer must be one for which a handshake can be begun.
    pub open spec fn admitted(
        self,
        read: Result<usize, snow::Error>,
        their_key: Option<Seq<u8>>,
        now: u64,
    ) -> Result<(PeerId, [u8; 32]), PeerError> {
        if read.is_err() {
            Err(PeerError::HandshakeFailed)
        } else {
            match their_key {
                None => Err(PeerError::HandshakeFailed),
                Some(key) => match self.peer_with_key(key) {
                    None => Err(PeerError::UnknownPeer),
                    Some(peer) => match self.begin_refused(peer, now) {
                        Some(e) => Err(e),
                        None => match self.peers[peer as int].info.psk {
                            None => Err(PeerError::HandshakeFailed),
                            Some(psk) => Ok((peer, psk)),
                        },
                    },
                },
            }
        }
    }

    /// Why no response goes out to a peer at `now`, if none does, given
    /// what came of setting the pre-shared key and of writing the response
    /// into a buffer of `room` bytes, and whether the handshake is
    /// finished: the key was not set, the response was not written with the
    /// length that its layout gives it, the handshake awaits more, or no
    /// handshake can be begun for the peer.
    pub open spec fn response_blocked(
        self,
        peer: PeerId,
        psk_set: Result<(), snow::Error>,
        written: Result<usize, snow::Error>,
        finished: bool,
        room: nat,
        now: u64,
    ) -> Option<PeerError> {
        if psk_set.is_err() {
            Some(PeerError::HandshakeFailed)
        } else if !(written matches Ok(n) && n == RESPONSE_PAYLOAD_LEN && finished) {
            Some(PeerError::HandshakeFailed)
        } else if room < RESPONSE_PAYLOAD_LEN {
            Some(PeerError::HandshakeFailed)
        } else {
            self.begin_refused(peer, now)
        }
    }

    /// The server with one peer replaced.
    pub open spec fn with_peer(self, peer: PeerId, value: Peer) -> ServerView {
        ServerView {
            private_key: self.private_key,
            peers: self.peers.update(peer as int, value),
            index_map: self.index_map,
            next_index: self.next_index,
        }
    }

    /// The server after a handshake was begun for a peer: the next session
    /// index is registered to the peer, and the peer's `next` slot holds the
    /// handshake under that index.
    pub open spec fn begun(self, peer: PeerId, role: Role, noise: snow::HandshakeState, now: u64)
        -> ServerView
        recommends
            self.begin_refused(peer, now).is_none(),
    {
        let index = self.next_index.unwrap();
        ServerView {
            private_key: self.private_key,
            peers: self.peers.update(
                peer as int,
                self.peers[peer as int].with_next(
                    Handshake { noise, our_index: index, birth: now, role },
                ),
            ),
            index_map: self.index_map.insert(index, peer),
            next_index: following(index),
        }
    }

    /// The peer that a handshake response is for, if there is one: the
    /// response is well-formed, the index table knows the receiver index,
    /// and the peer that owns it has a handshake in `next` under that index,
    /// begun as initiator.
    pub open spec fn response_peer(self, packet: Seq<u8>) -> Option<PeerId> {
        if !is_response(packet) {
            None
        } else if !self.index_map.contains_key(response_receiver_field(packet)) {
            None
        } else {
            let peer = self.index_map[response_receiver_field(packet)];
            if peer < self.peers.len() && (self.peers[peer as int].sessions.next matches Some(h)
                && h.our_index == response_receiver_field(packet) && h.role == Role::Initiator) {
                Some(peer)
            } else {
                None
            }
        }
    }

    /// What a transport message decrypts to, and for which peer: or why it
    /// is dropped. A message too short to name a session fails to decrypt;
    /// one that names a session index that the table does not hold is
    /// unknown; then the owner of the index decrypts it.
    pub open spec fn transport_outcome(self, packet: Seq<u8>) -> Result<
        (PeerId, Seq<u8>),
        PeerError,
    > {
        if !has_receiver_index(packet) {
            Err(PeerError::DecryptFailed)
        } else if !self.index_map.contains_key(index_field(packet)) {
            Err(PeerError::UnknownSessionIndex)
        } else if !is_transport(packet) {
            Err(PeerError::DecryptFailed)
        } else {
            let peer = self.index_map[index_field(packet)];
            match self.peers[peer as int].opened(nonce_field(packet), ciphertext_field(packet)) {
                Ok(plaintext) => Ok((peer, plaintext)),
                Err(e) => Err(e),
            }
        }
    }

    /// The peers after their timers were polled at `now`.
    pub open spec fn with_timers_polled(self, now: u64) -> ServerView {
        ServerView {
            private_key: self.private_key,
            peers: Seq::new(self.peers.len(), |i: int| self.peers[i].with_timers_polled(now)),
            index_map: self.index_map,
            next_index: self.next_index,
        }
    }

    /// The server after a handshake initiation of a peer was answered at
    /// `now`: the next session index is registered to the peer, and the
    /// peer's handshake, begun as responder under that index, is completed
    /// with the two transport keys and the initiator's session index.
    pub open spec fn answered(
        self,
        peer: PeerId,
        their_index: u32,
        first: [u8; 32],
        second: [u8; 32],
        now: u64,
    ) -> ServerView
        recommends
            self.begin_refused(peer, now).is_none(),
    {
        let index = self.next_index.unwrap();
        let before = self.peers[peer as int];
        ServerView {
            private_key: self.private_key,
            peers: self.peers.update(
                peer as int,
                Peer {
                    info: before.info,
                    sessions: Sessions {
                        next: None,
                        current: Some(
                            Session {
                                keys: KeyPair::of_split(
                                    false,
                                    first,
                                    second,
                                    index,
                                    their_index,
                                    now,
                                ),
                                send_nonce: 0,
                            },
                        ),
                        past: before.sessions.current,
                    },
                    tx_bytes: before.tx_bytes,
                    rx_bytes: before.rx_bytes,
                    timers: PeerTimers::armed(now, false),
                },
            ),
            index_map: self.index_map.insert(index, peer),
            next_index: following(index),
        }
    }

    /// The first peer with the given public key.
    pub open spec fn peer_with_key(self, key: Seq<u8>) -> Option<PeerId> {
        first_with_key(self.peers, key)
    }

    /// Why a plaintext cannot be sent to a peer, if it cannot.
    pub open spec fn encrypt_refused(self, peer: PeerId, plaintext: Seq<u8>) -> Option<PeerError> {
        if peer >= self.peers.len() {
            Some(PeerError::UnknownPeer)
        } else {
            self.peers[peer as int].encrypt_refused(plaintext)
        }
    }
}

/// The position of the first peer with the given public key.
pub open spec fn first_with_key(peers: Seq<Peer>, key: Seq<u8>) -> Option<PeerId>
    decreases peers.len(),
{
    if peers.len() == 0 {
        None
    } else {
        match first_with_key(peers.drop_last(), key) {
            Some(p) => Some(p),
            None => if peers.last().info.pub_key@ == key {
                Some((peers.len() - 1) as PeerId)
            } else {
                None
            },
        }
    }
}

/// The timer events of one peer that are due at `now`: first the rekey
/// timer's, then the keepalive timer's.
pub open spec fn due_of(timers: PeerTimers, peer: PeerId, now: u64) -> Seq<TimerMessage> {
    (if timers.rekey_due(now) {
        seq![TimerMessage::Rekey(peer)]
    } else {
        Seq::<TimerMessage>::empty()
    }) + (if timers.keepalive_due(now) {
        seq![TimerMessage::KeepAlive(peer)]
    } else {
        Seq::<TimerMessage>::empty()
    })
}

/// The timer events of all peers that are due at `now`, peer by peer.
pub open spec fn due_messages(peers: Seq<Peer>, now: u64) -> Seq<TimerMessage>
    decreases peers.len(),
{
    if peers.len() == 0 {
        Seq::<TimerMessage>::empty()
    } else {
        due_messages(peers.drop_last(), now) + due_of(
            peers.last().timers,
            (peers.len() - 1) as PeerId,
            now,
        )
    }
}

/// One of the three queues that the event loop drains, in the order of
/// their priority.
#[derive(Debug, Clone, Copy, PartialEq, Eq, Structural)]
pub enum Source {
    /// Timer events.
    Timers,
    /// Inbound datagrams.
    Datagrams,
    /// Plaintext from the tunnel that waits to be encrypted.
    Plaintext,
}

/// What a queue said when it was polled.
#[derive(Debug, Clone, Copy, PartialEq, Eq, Structural)]
pub enum Readiness {
    /// It handed out an item, which has been handled.
    Ready,
    /// It has nothing at present.
    NotReady,
    /// It has ended or failed.
    Closed,
}

/// What the event loop does next.
#[derive(Debug, Clone, Copy, PartialEq, Eq, Structural)]
pub enum Step {
    /// Poll this queue.
    Poll(Source),
    /// All queues are drained: yield until one of them has something.
    Suspend,
    /// A queue is gone: the loop ends in failure.
    Fail,
}

/// Where one cycle of the event loop stands: the queue it polls next.
#[derive(Debug, Clone, Copy, PartialEq, Eq, Structural)]
pub struct PollCycle {
    pub source: Source,
}

impl PollCycle {
    /// The cycle and the next step after the queue polled said `readiness`.
    /// A queue that handed out an item is polled again, until it is
    /// drained; a drained queue gives way to the next one in priority; when
    /// the last one is drained the loop suspends, and the next cycle begins
    /// with the timers again. A closed queue ends the loop.
    pub open spec fn stepped(self, readiness: Readiness) -> (PollCycle, Step) {
        match readiness {
            Readiness::Ready => (self, Step::Poll(self.source)),
            Readiness::Closed => (PollCycle { source: Source::Timers }, Step::Fail),
            Readiness::NotReady => match self.source {
                Source::Timers => (
                    PollCycle { source: Source::Datagrams },
                    Step::Poll(Source::Datagrams),
                ),
                Source::Datagrams => (
                    PollCycle { source: Source::Plaintext },
                    Step::Poll(Source::Plaintext),
                ),
                Source::Plaintext => (PollCycle { source: Source::Timers }, Step::Suspend),
            },
        }
    }

    /// A cycle at its start: the timers are polled first.
    pub fn new() -> (cycle: PollCycle)
        ensures
            cycle.source == Source::Timers,
    {
        PollCycle { source: Source::Timers }
    }

    /// Takes what the queue polled said, and says what to do next.
    pub fn poll(&mut self, readiness: Readiness) -> (step: Step)
        ensures
            (*final(self), step) == old(self).stepped(readiness),
    {
        let (next, step) = match readiness {
            Readiness::Ready => (*self, Step::Poll(self.source)),
            Readiness::Closed => (PollCycle { source: Source::Timers }, Step::Fail),
            Readiness::NotReady => match self.source {
                Source::Timers => (
                    PollCycle { source: Source::Datagrams },
                    Step::Poll(Source::Datagrams),
                ),
                Source::Datagrams => (
                    PollCycle { source: Source::Plaintext },
                    Step::Poll(Source::Plaintext),
                ),
                Source::Plaintext => (PollCycle { source: Source::Timers }, Step::Suspend),
            },
        };
        *self = next;
        step
    }
}

/// The rank of a queue: the lower, the earlier it is drained.
pub open spec fn rank(source: Source) -> int {
    match source {
        Source::Timers => 0,
        Source::Datagrams => 1,
        Source::Plaintext => 2,
    }
}

/// The queues are drained in the order of their priority: the loop turns
/// to a queue of lower priority only when the one before it is drained,
/// never back within a cycle, and suspends only when the last is drained.
pub proof fn lemma_poll_order(cycle: PollCycle, readiness: Readiness)
    ensures
        cycle.stepped(readiness).1 matches Step::Poll(next) ==> {
            &&& next == cycle.stepped(readiness).0.source
            &&& rank(next) >= rank(cycle.source)
            &&& rank(next) > rank(cycle.source) ==> readiness == Readiness::NotReady && rank(next)
                == rank(cycle.source) + 1
        },
        cycle.stepped(readiness).1 == Step::Suspend <==> cycle.source == Source::Plaintext
            && readiness == Readiness::NotReady,
        cycle.stepped(readiness).1 == Step::Fail <==> readiness == Readiness::Closed,
        cycle.stepped(readiness).1 is Suspend || cycle.stepped(readiness).1 is Fail
            ==> cycle.stepped(readiness).0.source == Source::Timers,
{
}

/// What came of an inbound datagram.
pub enum Incoming {
    /// Nothing: a cookie reply, or a datagram of no known type.
    Ignored,
    /// A handshake response completed the handshake with this peer.
    Established(PeerId),
    /// A transport message of this peer carried this plaintext, which goes
    /// to the tunnel. A keepalive carries an empty one.
    Data(PeerId, Vec<u8>),
    /// A handshake initiation of this peer was accepted; the response goes
    /// to the address.
    Reply(PeerId, Endpoint, Vec<u8>),
}

/// The peers with none of them holding sessions, as configured.
pub open spec fn fresh_peers(infos: Seq<PeerInfo>) -> Seq<Peer> {
    Seq::new(infos.len(), |i: int| Peer::fresh(infos[i]))
}

impl PeerServer {
    /// Every entry of the index table names a peer, every peer has its
    /// pre-shared key, and the table is in order. Every server that `new`
    /// made is of this form, and every method keeps it so.
    pub closed spec fn wf(&self) -> bool {
        &&& self.index_map.wf()
        &&& forall|i: u32| #[trigger]
            self.index_map@.contains_key(i) ==> self.index_map@[i] < self.peers@.len()
        &&& forall|p: int|
            0 <= p < self.peers@.len() ==> (#[trigger] self.peers@[p]).info.psk.is_some()
    }

    /// Sets up a server for an interface and its peers. A missing private
    /// key or pre-shared key is found here, before any event is handled.
    pub fn new(private_key: Option<[u8; 32]>, peers: Vec<PeerInfo>) -> (server: Result<
        PeerServer,
        ConfigError,
    >)
        ensures
            match config_error(private_key, peers@) {
                Some(e) => server matches Err(err) && err == e,
                None => server matches Ok(s) && s.wf() && s@ == (ServerView {
                    private_key: private_key.unwrap(),
                    peers: fresh_peers(peers@),
                    index_map: Map::<u32, PeerId>::empty(),
                    next_index: Some(0u32),
                }),
            },
    {
        let key = match private_key {
            Some(k) => k,
            None => {
                return Err(ConfigError::MissingPrivateKey);
            },
        };
        let mut list: Vec<Peer> = Vec::new();
        let mut i: usize = 0;
        while i < peers.len()
            invariant
                private_key.is_some(),
                i <= peers@.len(),
                list@.len() == i,
                forall|j: int| 0 <= j < i ==> (#[trigger] peers@[j]).psk.is_some(),
                forall|j: int| 0 <= j < i ==> #[trigger] list@[j] == Peer::fresh(peers@[j]),
            decreases peers@.len() - i,
        {
            let info = peers[i];
            if info.psk.is_none() {
                assert(peers@[i as int].psk.is_none());
                return Err(ConfigError::MissingPresharedKey);
            }
            list.push(Peer::new(info));
            i = i + 1;
        }
        let server = PeerServer { private_key: key, peers: list, index_map: IndexTable::new() };
        assert(server@.peers =~= fresh_peers(peers@));
        Ok(server)
    }

    /// What a server in order is known by: every session index in the table
    /// belongs to a peer that there is, every peer has its pre-shared key,
    /// and the session index that the next handshake gets is in use by none.
    pub proof fn lemma_in_order(&self)
        requires
            self.wf(),
        ensures
            forall|index: u32| #[trigger]
                self@.index_map.contains_key(index) ==> self@.index_map[index]
                    < self@.peers.len(),
            forall|peer: int|
                0 <= peer < self@.peers.len() ==> (#[trigger] self@.peers[peer]).info.psk.is_some(),
            self@.next_index matches Some(index) ==> !self@.index_map.contains_key(index),
    {
        if self.index_map.next_free().is_some() {
            lemma_next_free_is_fresh(self.index_map);
        }
    }

    /// How many peers there are.
    pub fn peer_count(&self) -> (count: usize)
        ensures
            count == self@.peers.len(),
    {
        self.peers.len()
    }

    /// A peer by its identifier.
    pub fn peer(&self, peer: PeerId) -> (found: Option<&Peer>)
        ensures
            match found {
                Some(p) => peer < self@.peers.len() && *p == self@.peers[peer as int],
                None => peer >= self@.peers.len(),
            },
    {
        if peer < self.peers.len() {
            Some(&self.peers[peer])
        } else {
            None
        }
    }

    /// The peer that owns a session index.
    pub fn lookup(&self, index: u32) -> (owner: Option<PeerId>)
        ensures
            owner == (if self@.index_map.contains_key(index) {
                Some(self@.index_map[index])
            } else {
                None
            }),
    {
        self.index_map.lookup(index)
    }

    /// Tells why no handshake can be begun for a peer at `now`, if none can.
    pub fn begin_refusal(&self, peer: PeerId, now: u64) -> (refusal: Option<PeerError>)
        ensures
            refusal == self@.begin_refused(peer, now),
    {
        if peer >= self.peers.len() {
            Some(PeerError::UnknownPeer)
        } else if self.peers[peer].has_handshake_in_flight(now) {
            Some(PeerError::HandshakeInProgress)
        } else if self.index_map.is_exhausted() {
            Some(PeerError::HandshakeFailed)
        } else {
            None
        }
    }

    /// Begins a handshake for a peer around a fresh handshake state:
    /// allocates a session index, registers it in the index table, and puts
    /// the handshake into the peer's `next` slot. Returns the index. While
    /// an earlier handshake is in flight the new one is refused and the
    /// earlier one kept; a refusal changes nothing.
    pub fn begin_handshake(
        &mut self,
        peer: PeerId,
        role: Role,
        noise: snow::HandshakeState,
        now: u64,
    ) -> (index: Result<u32, PeerError>)
        requires
            old(self).wf(),
        ensures
            final(self).wf(),
            match old(self)@.begin_refused(peer, now) {
                Some(e) => index == Err::<u32, PeerError>(e) && final(self)@ == old(self)@,
                None => index == Ok::<u32, PeerError>(old(self)@.next_index.unwrap())
                    && !old(self)@.index_map.contains_key(old(self)@.next_index.unwrap())
                    && final(self)@ == old(self)@.begun(peer, role, noise, now),
            },
    {
        match self.begin_refusal(peer, now) {
            Some(e) => {
                return Err(e);
            },
            None => {},
        }
        let index = match self.index_map.allocate(peer) {
            Some(i) => i,
            None => {
                return Err(PeerError::HandshakeFailed);
            },
        };
        self.peers[peer].set_next_session(Handshake { noise, our_index: index, birth: now, role });
        Ok(index)
    }

    /// Starts a handshake with a peer, as the rekey timer asks for: builds
    /// the initiator's handshake state from the interface's private key, the
    /// peer's public key and the pre-shared key, writes the first handshake
    /// message, begins the handshake and frames the initiation for the
    /// peer's address.
    ///
    /// Where the attempt is refused, the reason is returned and nothing
    /// changes. Otherwise the cryptography decides: where it fails, the
    /// handshake has failed and nothing has changed; where it succeeds, the
    /// handshake is begun under the next session index and the datagram is
    /// an initiation that names this index as its sender.
    pub fn initiate_handshake(&mut self, peer: PeerId, now: u64) -> (sent: Result<
        (Endpoint, Vec<u8>),
        PeerError,
    >)
        requires
            old(self).wf(),
        ensures
            final(self).wf(),
            PeerServer::initiated(*old(self), *final(self), peer, now, sent),
    {
        let config = match self.initiator_config(peer) {
            Some(c) => c,
            None => {
                return Err(PeerError::UnknownPeer);
            },
        };
        match self.initiation_refusal(peer, now) {
            Some(e) => {
                return Err(e);
            },
            None => {},
        }
        let mut state = match noise::build_initiator(&config) {
            Ok(s) => s,
            Err(_) => {
                return Err(PeerError::HandshakeFailed);
            },
        };
        let mut message: Vec<u8> = vec![0u8; MAX_NOISE_MESSAGE];
        let written = noise::write_handshake_message(&mut state, &[], &mut message);
        let sent = self.send_initiation(peer, state, &written, message.as_slice(), now);
        proof {
            if sent.is_ok() {
                lemma_initiation_roundtrip(
                    old(self)@.next_index.unwrap(),
                    message@.subrange(0, written.unwrap() as int),
                );
            }
        }
        sent
    }

    /// What the initiator's side of a handshake with a peer is set up
    /// from; none for a peer that there is not.
    pub fn initiator_config(&self, peer: PeerId) -> (config: Option<InitiatorConfig>)
        requires
            self.wf(),
        ensures
            config == (if peer < self@.peers.len() {
                Some(self@.initiator_config(peer))
            } else {
                None
            }),
    {
        if peer >= self.peers.len() {
            return None;
        }
        match self.peers[peer].info.psk {
            Some(psk) => Some(
                InitiatorConfig {
                    pattern: HANDSHAKE_PATTERN,
                    prologue: HANDSHAKE_PROLOGUE,
                    local_private: self.private_key,
                    remote_public: self.peers[peer].info.pub_key,
                    psk_slot: PSK_SLOT,
                    psk,
                },
            ),
            None => None,
        }
    }

    /// What the responder's side of a handshake is set up from.
    pub fn responder_config(&self) -> (config: ResponderConfig)
        ensures
            config == self@.responder_config(),
    {
        ResponderConfig {
            pattern: HANDSHAKE_PATTERN,
            prologue: HANDSHAKE_PROLOGUE,
            local_private: self.private_key,
        }
    }

    /// Tells why no handshake can be initiated with a peer at `now`, if
    /// none can.
    pub fn initiation_refusal(&self, peer: PeerId, now: u64) -> (refusal: Option<PeerError>)
        ensures
            refusal == self@.initiation_refused(peer, now),
    {
        if peer >= self.peers.len() {
            Some(PeerError::UnknownPeer)
        } else if self.peers[peer].has_handshake_in_flight(now) {
            Some(PeerError::HandshakeInProgress)
        } else if self.peers[peer].info.endpoint.is_none() {
            Some(PeerError::MissingEndpoint)
        } else if self.index_map.is_exhausted() {
            Some(PeerError::HandshakeFailed)
        } else {
            None
        }
    }

    /// Sends a handshake initiation to a peer, given the initiator's
    /// handshake state and what came of writing its first message into
    /// `message`: begins the handshake around the state and frames the
    /// bytes written, under the new session index, for the peer's address.
    /// Where the attempt is refused or the message was not written, the
    /// reason is returned and nothing changes.
    pub fn send_initiation(
        &mut self,
        peer: PeerId,
        noise: snow::HandshakeState,
        written: &Result<usize, snow::Error>,
        message: &[u8],
        now: u64,
    ) -> (sent: Result<(Endpoint, Vec<u8>), PeerError>)
        requires
            old(self).wf(),
        ensures
            final(self).wf(),
            match old(self)@.initiation_blocked(peer, *written, message@.len(), now) {
                Some(e) => sent == Err::<(Endpoint, Vec<u8>), PeerError>(e) && final(self)@
                    == old(self)@,
                None => {
                    &&& sent matches Ok(datagram)
                    &&& Some(datagram.0) == old(self)@.peers[peer as int].info.endpoint
                    &&& datagram.1@ == initiation_bytes(
                        old(self)@.next_index.unwrap(),
                        message@.subrange(0, written.unwrap() as int),
                    )
                    &&& final(self)@ == old(self)@.begun(peer, Role::Initiator, noise, now)
                },
            },
    {
        match self.initiation_refusal(peer, now) {
            Some(e) => {
                return Err(e);
            },
            None => {},
        }
        let length = match written {
            Ok(n) => *n,
            Err(_) => {
                return Err(PeerError::HandshakeFailed);
            },
        };
        if length > message.len() {
            return Err(PeerError::HandshakeFailed);
        }
        let endpoint = match self.peers[peer].info.endpoint {
            Some(e) => e,
            None => {
                return Err(PeerError::MissingEndpoint);
            },
        };
        let index = match self.begin_handshake(peer, Role::Initiator, noise, now) {
            Ok(i) => i,
            Err(e) => {
                return Err(e);
            },
        };
        let payload = copy_range(message, 0, length);
        Ok((endpoint, build_initiation(index, payload.as_slice())))
    }

    /// Whether `after` is what handling a handshake response, with result
    /// `done`, makes of `before`.
    ///
    /// A response that belongs to no handshake in flight fails and changes
    /// nothing. Otherwise the cryptography decides. Where it does not
    /// authenticate the response, the handshake has failed, and the server
    /// has changed in the cryptographic state of that handshake at most.
    /// Where it does, the handshake of the peer is completed at `now`, with
    /// the sender index of the response as the other side's session index.
    pub open spec fn response_handled(
        before: PeerServer,
        after: PeerServer,
        packet: Seq<u8>,
        now: u64,
        done: Result<PeerId, PeerError>,
    ) -> bool {
        match before@.response_peer(packet) {
            None => done == Err::<PeerId, PeerError>(PeerError::HandshakeFailed) && after@
                == before@,
            Some(peer) => match done {
                Err(e) => {
                    &&& e == PeerError::HandshakeFailed
                    &&& after@ == before@.with_peer(peer, after@.peers[peer as int])
                    &&& after@.peers[peer as int].same_attempt(before@.peers[peer as int])
                },
                Ok(p) => {
                    &&& p == peer
                    &&& exists|first: [u8; 32], second: [u8; 32]|
                        after@ == before@.with_peer(
                            peer,
                            #[trigger] before@.peers[peer as int].completed(
                                index_field(packet),
                                first,
                                second,
                                now,
                            ),
                        )
                },
            },
        }
    }

    /// Handles a handshake response: finds the peer by the receiver index,
    /// feeds the payload to the handshake in the peer's `next` slot, and on
    /// success completes the handshake. Returns the peer.
    pub fn handle_response(&mut self, packet: &[u8], now: u64) -> (done: Result<PeerId, PeerError>)
        requires
            old(self).wf(),
        ensures
            final(self).wf(),
            PeerServer::response_handled(*old(self), *final(self), packet@, now, done),
    {
        let response = match parse_response(packet) {
            Some(r) => r,
            None => {
                return Err(PeerError::HandshakeFailed);
            },
        };
        let peer = match self.index_map.lookup(response.receiver_index) {
            Some(p) => p,
            None => {
                return Err(PeerError::HandshakeFailed);
            },
        };
        let expected = match &self.peers[peer].sessions.next {
            Some(h) => h.our_index == response.receiver_index && match h.role {
                Role::Initiator => true,
                Role::Responder => false,
            },
            None => false,
        };
        if !expected {
            return Err(PeerError::HandshakeFailed);
        }
        let done = self.peers[peer].authenticate_response(
            response.payload.as_slice(),
            response.sender_index,
            now,
        );
        assert(self@.peers =~= old(self)@.peers.update(peer as int, self@.peers[peer as int]));
        match done {
            Ok(_) => Ok(peer),
            Err(e) => Err(e),
        }
    }

    /// Handles a transport message: finds the peer by the receiver index
    /// and decrypts with the peer's current session and, where that does
    /// not authenticate the message, with its past session. On success the
    /// peer has received the whole datagram's bytes; a message that is
    /// dropped changes nothing.
    pub fn handle_transport(&mut self, packet: &[u8]) -> (received: Result<
        (PeerId, Vec<u8>),
        PeerError,
    >)
        requires
            old(self).wf(),
        ensures
            final(self).wf(),
            match old(self)@.transport_outcome(packet@) {
                Ok(expected) => received matches Ok(got) && got.0 == expected.0 && got.1@
                    == expected.1 && final(self)@ == old(self)@.with_peer(
                    expected.0,
                    old(self)@.peers[expected.0 as int].after_receive(packet@.len()),
                ),
                Err(e) => received == Err::<(PeerId, Vec<u8>), PeerError>(e) && final(self)@
                    == old(self)@,
            },
    {
        let index = match transport_receiver_index(packet) {
            Some(i) => i,
            None => {
                return Err(PeerError::DecryptFailed);
            },
        };
        let peer = match self.index_map.lookup(index) {
            Some(p) => p,
            None => {
                return Err(PeerError::UnknownSessionIndex);
            },
        };
        let message = match parse_transport(packet) {
            Some(m) => m,
            None => {
                return Err(PeerError::DecryptFailed);
            },
        };
        match self.peers[peer].decrypt(message.nonce, message.ciphertext.as_slice(), packet.len()) {
            Ok(plaintext) => {
                assert(self@.peers =~= old(self)@.peers.update(
                    peer as int,
                    old(self)@.peers[peer as int].after_receive(packet@.len()),
                ));
                Ok((peer, plaintext))
            },
            Err(e) => {
                assert(self.peers@ =~= old(self).peers@);
                Err(e)
            },
        }
    }

    /// Whether `after` is what sending a plaintext to a peer, with result
    /// `sent`, makes of `before`: a refusal changes nothing; otherwise the
    /// datagram is the peer's next transport message, addressed to the
    /// peer's endpoint, and the peer has sent it.
    pub open spec fn encrypted(
        before: PeerServer,
        after: PeerServer,
        peer: PeerId,
        plaintext: Seq<u8>,
        sent: Result<(Endpoint, Vec<u8>), PeerError>,
    ) -> bool {
        match before@.encrypt_refused(peer, plaintext) {
            Some(e) => sent == Err::<(Endpoint, Vec<u8>), PeerError>(e) && after@ == before@,
            None => {
                &&& sent matches Ok(datagram)
                &&& Some(datagram.0) == before@.peers[peer as int].info.endpoint
                &&& datagram.1@ == before@.peers[peer as int].sessions.current.unwrap().sealed(
                    plaintext,
                )
                &&& datagram.1@.len() == wire_size(plaintext.len())
                &&& after@ == before@.with_peer(
                    peer,
                    before@.peers[peer as int].after_encrypt(plaintext),
                )
            },
        }
    }

    /// Encrypts plaintext from the tunnel for a peer, under the peer's
    /// current session, and says where the datagram goes. Which peer a
    /// plaintext is for, the caller decides.
    pub fn handle_outgoing_packet(&mut self, peer: PeerId, packet: &[u8]) -> (sent: Result<
        (Endpoint, Vec<u8>),
        PeerError,
    >)
        requires
            old(self).wf(),
        ensures
            final(self).wf(),
            PeerServer::encrypted(*old(self), *final(self), peer, packet@, sent),
    {
        if peer >= self.peers.len() {
            return Err(PeerError::UnknownPeer);
        }
        match self.peers[peer].encrypt(packet) {
            Ok(datagram) => {
                assert(self@.peers =~= old(self)@.peers.update(
                    peer as int,
                    old(self)@.peers[peer as int].after_encrypt(packet@),
                ));
                Ok(datagram)
            },
            Err(e) => {
                assert(self.peers@ =~= old(self).peers@);
                Err(e)
            },
        }
    }

    /// Makes a keepalive for a peer: a transport message with an empty
    /// plaintext, which uses up a nonce like any other.
    pub fn keepalive(&mut self, peer: PeerId) -> (sent: Result<(Endpoint, Vec<u8>), PeerError>)
        requires
            old(self).wf(),
        ensures
            final(self).wf(),
            PeerServer::encrypted(*old(self), *final(self), peer, Seq::<u8>::empty(), sent),
    {
        let empty: [u8; 0] = [];
        assert(empty@ =~= Seq::<u8>::empty());
        self.handle_outgoing_packet(peer, empty.as_slice())
    }

    /// Whether `after` is what initiating a handshake with a peer at `now`,
    /// with result `sent`, makes of `before`.
    pub open spec fn initiated(
        before: PeerServer,
        after: PeerServer,
        peer: PeerId,
        now: u64,
        sent: Result<(Endpoint, Vec<u8>), PeerError>,
    ) -> bool {
        match before@.initiation_refused(peer, now) {
            Some(e) => sent == Err::<(Endpoint, Vec<u8>), PeerError>(e) && after@ == before@,
            None => match sent {
                Err(e) => e == PeerError::HandshakeFailed && after@ == before@,
                Ok(datagram) => {
                    &&& Some(datagram.0) == before@.peers[peer as int].info.endpoint
                    &&& datagram.1@ == initiation_bytes(
                        before@.next_index.unwrap(),
                        initiation_payload_field(datagram.1@),
                    )
                    &&& is_initiation(datagram.1@)
                    &&& packet_kind(datagram.1@) == Some(PacketKind::HandshakeInit)
                    &&& index_field(datagram.1@) == before@.next_index.unwrap()
                    &&& exists|noise: snow::HandshakeState|
                        after@ == #[trigger] before@.begun(peer, Role::Initiator, noise, now)
                },
            },
        }
    }

    /// Handles a timer event: a rekey timer starts a handshake with its
    /// peer, a keepalive timer sends the peer a keepalive. Returns the
    /// datagram to send.
    pub fn handle_timer(&mut self, message: TimerMessage, now: u64) -> (sent: Result<
        (Endpoint, Vec<u8>),
        PeerError,
    >)
        requires
            old(self).wf(),
        ensures
            final(self).wf(),
            match message {
                TimerMessage::Rekey(peer) => PeerServer::initiated(
                    *old(self),
                    *final(self),
                    peer,
                    now,
                    sent,
                ),
                TimerMessage::KeepAlive(peer) => PeerServer::encrypted(
                    *old(self),
                    *final(self),
                    peer,
                    Seq::<u8>::empty(),
                    sent,
                ),
            },
    {
        match message {
            TimerMessage::Rekey(peer) => self.initiate_handshake(peer, now),
            TimerMessage::KeepAlive(peer) => self.keepalive(peer),
        }
    }

    /// Polls the timers of all peers at `now` and returns the events that
    /// are due, peer by peer. A rekey timer that fired is disarmed; a
    /// keepalive timer that ticked is set one interval ahead.
    pub fn expire_timers(&mut self, now: u64) -> (messages: Vec<TimerMessage>)
        requires
            old(self).wf(),
        ensures
            final(self).wf(),
            messages@ == due_messages(old(self)@.peers, now),
            final(self)@ == old(self)@.with_timers_polled(now),
    {
        let mut messages: Vec<TimerMessage> = Vec::new();
        let mut i: usize = 0;
        while i < self.peers.len()
            invariant
                self.wf(),
                i <= self.peers@.len(),
                self.peers@.len() == old(self).peers@.len(),
                self.private_key == old(self).private_key,
                self.index_map == old(self).index_map,
                forall|j: int| 0 <= j < i ==> #[trigger] self.peers@[j] == old(
                    self,
                ).peers@[j].with_timers_polled(now),
                forall|j: int| i <= j < self.peers@.len() ==> #[trigger] self.peers@[j] == old(
                    self,
                ).peers@[j],
                messages@ == due_messages(old(self).peers@.subrange(0, i as int), now),
            decreases self.peers@.len() - i,
        {
            let due = self.peers[i].poll_timers(now);
            if due.0 {
                messages.push(TimerMessage::Rekey(i));
            }
            if due.1 {
                messages.push(TimerMessage::KeepAlive(i));
            }
            proof {
                let prefix = old(self).peers@.subrange(0, i + 1);
                assert(prefix.drop_last() =~= old(self).peers@.subrange(0, i as int));
                assert(messages@ =~= due_messages(prefix, now));
            }
            i = i + 1;
        }
        proof {
            assert(old(self).peers@.subrange(0, i as int) =~= old(self).peers@);
            assert(self@.peers =~= old(self)@.with_timers_polled(now).peers);
        }
        messages
    }

    /// Whether `after` is what handling a handshake initiation that came
    /// from `addr`, with result `done`, makes of `before`.
    ///
    /// Whatever fails changes nothing; a datagram that is no well-formed
    /// initiation fails the handshake. Whether a well-formed one is
    /// accepted, the cryptography decides, and then the server: the
    /// initiator must be a peer, and none for which a handshake is in
    /// flight. Where it is accepted, the peer's handshake is begun and
    /// completed at once, and the reply is a handshake response to `addr`
    /// that names the new session index as its sender and the initiator's
    /// index as its receiver.
    pub open spec fn responded(
        before: PeerServer,
        after: PeerServer,
        addr: Endpoint,
        packet: Seq<u8>,
        now: u64,
        done: Result<(PeerId, Endpoint, Vec<u8>), PeerError>,
    ) -> bool {
        match done {
            Err(e) => after@ == before@ && (!is_initiation(packet) ==> e
                == PeerError::HandshakeFailed),
            Ok(reply) => {
                &&& is_initiation(packet)
                &&& before@.begin_refused(reply.0, now).is_none()
                &&& reply.1 == addr
                &&& reply.2@ == response_bytes(
                    before@.next_index.unwrap(),
                    index_field(packet),
                    response_payload_field(reply.2@),
                )
                &&& reply.2@.len() == RESPONSE_PAYLOAD_OFFSET + RESPONSE_PAYLOAD_LEN
                &&& is_response(reply.2@)
                &&& packet_kind(reply.2@) == Some(PacketKind::HandshakeResponse)
                &&& index_field(reply.2@) == before@.next_index.unwrap()
                &&& response_receiver_field(reply.2@) == index_field(packet)
                &&& exists|first: [u8; 32], second: [u8; 32]|
                    after@ == #[trigger] before@.answered(
                        reply.0,
                        index_field(packet),
                        first,
                        second,
                        now,
                    )
            },
        }
    }

    /// Handles a handshake initiation: reads it with a fresh responder's
    /// handshake state, finds the peer by the static key that the
    /// initiation carries, mixes in the peer's pre-shared key, writes the
    /// response, and begins and completes the handshake. Returns the peer
    /// and the response for the address that the initiation came from.
    pub fn handle_initiation(&mut self, addr: Endpoint, packet: &[u8], now: u64) -> (done: Result<
        (PeerId, Endpoint, Vec<u8>),
        PeerError,
    >)
        requires
            old(self).wf(),
        ensures
            final(self).wf(),
            PeerServer::responded(*old(self), *final(self), addr, packet@, now, done),
    {
        let initiation = match parse_initiation(packet) {
            Some(m) => m,
            None => {
                return Err(PeerError::HandshakeFailed);
            },
        };
        let config = self.responder_config();
        let mut state = match noise::build_responder(&config) {
            Ok(s) => s,
            Err(_) => {
                return Err(PeerError::HandshakeFailed);
            },
        };
        let mut payload: Vec<u8> = vec![0u8; MAX_NOISE_MESSAGE];
        let read = noise::read_handshake_message(
            &mut state,
            initiation.payload.as_slice(),
            &mut payload,
        );
        let their_key = noise::remote_static(&state);
        let (peer, psk) = match self.admit_initiator(&read, &their_key, now) {
            Ok(admitted) => admitted,
            Err(e) => {
                return Err(e);
            },
        };
        let psk_set = noise::set_psk(&mut state, PSK_SLOT, &psk);
        let mut message: Vec<u8> = vec![0u8; MAX_NOISE_MESSAGE];
        let written = noise::write_handshake_message(&mut state, &[], &mut message);
        let finished = noise::handshake_finished(&state);
        let keys = noise::raw_split(&mut state);
        let done = self.send_response(
            peer,
            state,
            &psk_set,
            &written,
            finished,
            keys,
            message.as_slice(),
            initiation.sender_index,
            addr,
            now,
        );
        proof {
            if done.is_ok() {
                lemma_response_roundtrip(
                    old(self)@.next_index.unwrap(),
                    initiation.sender_index,
                    message@.subrange(0, RESPONSE_PAYLOAD_LEN as int),
                );
            }
        }
        done
    }

    /// Admits the initiator of a handshake, given what came of reading the
    /// initiation and the static key that it carried: finds the peer with
    /// that key and returns it with its pre-shared key, or says why the
    /// initiation is not admitted.
    pub fn admit_initiator(
        &self,
        read: &Result<usize, snow::Error>,
        their_key: &Option<Vec<u8>>,
        now: u64,
    ) -> (admitted: Result<(PeerId, [u8; 32]), PeerError>)
        ensures
            admitted == self@.admitted(
                *read,
                match *their_key {
                    Some(key) => Some(key@),
                    None => None,
                },
                now,
            ),
    {
        if read.is_err() {
            return Err(PeerError::HandshakeFailed);
        }
        let key = match their_key {
            Some(k) => k,
            None => {
                return Err(PeerError::HandshakeFailed);
            },
        };
        let peer = match self.find_peer(key.as_slice()) {
            Some(p) => p,
            None => {
                return Err(PeerError::UnknownPeer);
            },
        };
        match self.begin_refusal(peer, now) {
            Some(e) => {
                return Err(e);
            },
            None => {},
        }
        match self.peers[peer].info.psk {
            Some(psk) => Ok((peer, psk)),
            None => Err(PeerError::HandshakeFailed),
        }
    }

    /// Sends the response to a handshake initiation of a peer, given the
    /// responder's handshake state and what the handshake made of the
    /// exchange: what came of setting the pre-shared key and of writing the
    /// response into `message`, whether the handshake is finished, and the
    /// two transport keys. Begins the handshake around the state under a
    /// new session index, completes it at once with the keys and the
    /// initiator's session index, and frames the response for `addr`. Where
    /// the response is blocked, the reason is returned and nothing changes.
    pub fn send_response(
        &mut self,
        peer: PeerId,
        noise: snow::HandshakeState,
        psk_set: &Result<(), snow::Error>,
        written: &Result<usize, snow::Error>,
        finished: bool,
        keys: ([u8; 32], [u8; 32]),
        message: &[u8],
        their_index: u32,
        addr: Endpoint,
        now: u64,
    ) -> (done: Result<(PeerId, Endpoint, Vec<u8>), PeerError>)
        requires
            old(self).wf(),
        ensures
            final(self).wf(),
            match old(self)@.response_blocked(
                peer,
                *psk_set,
                *written,
                finished,
                message@.len(),
                now,
            ) {
                Some(e) => done == Err::<(PeerId, Endpoint, Vec<u8>), PeerError>(e)
                    && final(self)@ == old(self)@,
                None => {
                    &&& done matches Ok(reply)
                    &&& reply.0 == peer
                    &&& reply.1 == addr
                    &&& reply.2@ == response_bytes(
                        old(self)@.next_index.unwrap(),
                        their_index,
                        message@.subrange(0, RESPONSE_PAYLOAD_LEN as int),
                    )
                    &&& final(self)@ == old(self)@.answered(peer, their_index, keys.0, keys.1, now)
                },
            },
    {
        if psk_set.is_err() {
            return Err(PeerError::HandshakeFailed);
        }
        if response_length(written, finished).is_none() {
            return Err(PeerError::HandshakeFailed);
        }
        if message.len() < RESPONSE_PAYLOAD_LEN {
            return Err(PeerError::HandshakeFailed);
        }
        let index = match self.begin_handshake(peer, Role::Responder, noise, now) {
            Ok(i) => i,
            Err(e) => {
                return Err(e);
            },
        };
        let _ = self.peers[peer].complete_handshake(their_index, keys.0, keys.1, now);
        let payload = copy_range(message, 0, RESPONSE_PAYLOAD_LEN);
        let reply = build_response(index, their_index, payload.as_slice());
        proof {
            let target = old(self)@.answered(peer, their_index, keys.0, keys.1, now);
            assert(self@.peers =~= target.peers);
        }
        Ok((peer, addr, reply))
    }

    /// Whether `after` is what handling an inbound datagram from `addr`,
    /// with result `handled`, makes of `before`. The first byte decides: an
    /// initiation is answered, a response completes a handshake, a
    /// transport message is decrypted; a cookie reply and a datagram of no
    /// known type are ignored and change nothing.
    pub open spec fn dispatched(
        before: PeerServer,
        after: PeerServer,
        addr: Endpoint,
        packet: Seq<u8>,
        now: u64,
        handled: Result<Incoming, PeerError>,
    ) -> bool {
        match packet_kind(packet) {
            Some(PacketKind::HandshakeInit) => match handled {
                Ok(Incoming::Reply(peer, to, reply)) => PeerServer::responded(
                    before,
                    after,
                    addr,
                    packet,
                    now,
                    Ok((peer, to, reply)),
                ),
                Err(e) => PeerServer::responded(before, after, addr, packet, now, Err(e)),
                _ => false,
            },
            Some(PacketKind::HandshakeResponse) => match handled {
                Ok(Incoming::Established(peer)) => PeerServer::response_handled(
                    before,
                    after,
                    packet,
                    now,
                    Ok(peer),
                ),
                Err(e) => PeerServer::response_handled(before, after, packet, now, Err(e)),
                _ => false,
            },
            Some(PacketKind::Transport) => match before@.transport_outcome(packet) {
                Ok(expected) => handled matches Ok(Incoming::Data(peer, plaintext)) && peer
                    == expected.0 && plaintext@ == expected.1 && after@ == before@.with_peer(
                    expected.0,
                    before@.peers[expected.0 as int].after_receive(packet.len()),
                ),
                Err(e) => handled matches Err(err) && err == e && after@ == before@,
            },
            _ => handled matches Ok(Incoming::Ignored) && after@ == before@,
        }
    }

    /// Handles an inbound datagram: classifies it by its first byte and
    /// hands it to the handler of its kind.
    pub fn handle_incoming_packet(&mut self, addr: Endpoint, packet: &[u8], now: u64) -> (handled:
        Result<Incoming, PeerError>)
        requires
            old(self).wf(),
        ensures
            final(self).wf(),
            PeerServer::dispatched(*old(self), *final(self), addr, packet@, now, handled),
    {
        match classify(packet) {
            Some(PacketKind::HandshakeInit) => match self.handle_initiation(addr, packet, now) {
                Ok((peer, to, reply)) => Ok(Incoming::Reply(peer, to, reply)),
                Err(e) => Err(e),
            },
            Some(PacketKind::HandshakeResponse) => match self.handle_response(packet, now) {
                Ok(peer) => Ok(Incoming::Established(peer)),
                Err(e) => Err(e),
            },
            Some(PacketKind::Transport) => match self.handle_transport(packet) {
                Ok((peer, plaintext)) => Ok(Incoming::Data(peer, plaintext)),
                Err(e) => Err(e),
            },
            _ => Ok(Incoming::Ignored),
        }
    }

    /// The first peer with the given public key.
    pub fn find_peer(&self, key: &[u8]) -> (found: Option<PeerId>)
        ensures
            found == self@.peer_with_key(key@),
            found matches Some(p) ==> p < self@.peers.len(),
    {
        let mut i: usize = 0;
        while i < self.peers.len()
            invariant
                i <= self.peers@.len(),
                first_with_key(self.peers@.subrange(0, i as int), key@).is_none(),
            decreases self.peers@.len() - i,
        {
            let ghost prefix = self.peers@.subrange(0, i + 1);
            assert(prefix.drop_last() =~= self.peers@.subrange(0, i as int));
            if bytes_equal(self.peers[i].info.pub_key.as_slice(), key) {
                proof {
                    lemma_first_with_key_extends(self.peers@, i + 1);
                }
                return Some(i);
            }
            i = i + 1;
        }
        assert(self.peers@.subrange(0, i as int) =~= self.peers@);
        None
    }
}

/// Once a prefix of the peers holds a peer with the key, every longer
/// prefix finds the same peer.
pub proof fn lemma_first_with_key_extends(peers: Seq<Peer>, upto: int)
    requires
        0 <= upto <= peers.len(),
        first_with_key(peers.subrange(0, upto), key_of(peers, upto)).is_some(),
    ensures
        first_with_key(peers, key_of(peers, upto)) == first_with_key(
            peers.subrange(0, upto),
            key_of(peers, upto),
        ),
    decreases peers.len() - upto,
{
    if upto < peers.len() {
        let shorter = peers.drop_last();
        assert(shorter.subrange(0, upto) =~= peers.subrange(0, upto));
        lemma_first_with_key_extends(shorter, upto);
    } else {
        assert(peers.subrange(0, upto) =~= peers);
    }
}

/// A transport message that names a session index which the index table
/// does not hold is refused as of unknown session, whatever else it holds;
/// and what is refused changes nothing, as `handle_transport` ensures.
pub proof fn lemma_unknown_index_is_refused(server: ServerView, packet: Seq<u8>)
    requires
        has_receiver_index(packet),
        !server.index_map.contains_key(index_field(packet)),
    ensures
        server.transport_outcome(packet) == Err::<(PeerId, Seq<u8>), PeerError>(
            PeerError::UnknownSessionIndex,
        ),
{
}

/// While a handshake with a peer is in flight, a second one is refused as
/// in progress, be it begun or initiated; and what is refused changes
/// nothing, as `begin_handshake` and `initiate_handshake` ensure, so that
/// the first attempt stays as it was.
pub proof fn lemma_second_handshake_is_refused(
    server: ServerView,
    peer: PeerId,
    role: Role,
    noise: snow::HandshakeState,
    now: u64,
    later: u64,
)
    requires
        server.begin_refused(peer, now).is_none(),
        later < now + crate::consts::REKEY_TIMEOUT,
    ensures
        server.begun(peer, role, noise, now).begin_refused(peer, later) == Some(
            PeerError::HandshakeInProgress,
        ),
        server.begun(peer, role, noise, now).initiation_refused(peer, later) == Some(
            PeerError::HandshakeInProgress,
        ),
{
}

/// One poll gives at most one rekey event for a peer: where the rekey
/// timer is due, the peer's events begin with its rekey event and hold no
/// second one; where it is not, they hold none.
pub proof fn lemma_one_rekey_event(timers: PeerTimers, peer: PeerId, now: u64)
    ensures
        timers.rekey_due(now) ==> due_of(timers, peer, now).len() >= 1 && due_of(
            timers,
            peer,
            now,
        )[0] == TimerMessage::Rekey(peer),
        forall|i: int|
            (if timers.rekey_due(now) {
                1int
            } else {
                0int
            }) <= i < due_of(timers, peer, now).len() ==> !(#[trigger] due_of(timers, peer, now)[i]
                is Rekey),
{
}

/// How many of the events are the rekey event of a peer.
pub open spec fn rekeys_for(messages: Seq<TimerMessage>, peer: PeerId) -> nat
    decreases messages.len(),
{
    if messages.len() == 0 {
        0
    } else {
        rekeys_for(messages.drop_last(), peer) + (if messages.last() == TimerMessage::Rekey(peer) {
            1nat
        } else {
            0nat
        })
    }
}

proof fn lemma_rekeys_for_concat(a: Seq<TimerMessage>, b: Seq<TimerMessage>, peer: PeerId)
    ensures
        rekeys_for(a + b, peer) == rekeys_for(a, peer) + rekeys_for(b, peer),
    decreases b.len(),
{
    if b.len() == 0 {
        assert(a + b =~= a);
    } else {
        assert((a + b).drop_last() =~= a + b.drop_last());
        lemma_rekeys_for_concat(a, b.drop_last(), peer);
    }
}

proof fn lemma_rekeys_for_one(message: TimerMessage, peer: PeerId)
    ensures
        rekeys_for(seq![message], peer) == (if message == TimerMessage::Rekey(peer) {
            1nat
        } else {
            0nat
        }),
        rekeys_for(Seq::<TimerMessage>::empty(), peer) == 0,
{
    reveal_with_fuel(rekeys_for, 2);
    assert(seq![message].drop_last() =~= Seq::<TimerMessage>::empty());
    assert(seq![message].last() == message);
}

/// One poll of all peers' timers hands out the rekey event of a peer once
/// where the peer's rekey timer is due, and not at all where it is not.
/// With `expire_timers`, which hands out these events and leaves every
/// timer polled, and `lemma_rekey_fires_once_over_all_polls`, a peer's
/// rekey event comes once over all polls that follow a handshake.
pub proof fn lemma_rekey_events_of_peer(peers: Seq<Peer>, now: u64, peer: PeerId)
    requires
        peers.len() <= usize::MAX,
    ensures
        rekeys_for(due_messages(peers, now), peer) == (if peer < peers.len()
            && peers[peer as int].timers.rekey_due(now) {
            1nat
        } else {
            0nat
        }),
    decreases peers.len(),
{
    if peers.len() > 0 {
        let last = (peers.len() - 1) as PeerId;
        let timers = peers.last().timers;
        lemma_rekey_events_of_peer(peers.drop_last(), now, peer);
        lemma_rekeys_for_concat(
            due_messages(peers.drop_last(), now),
            due_of(timers, last, now),
            peer,
        );
        let first = if timers.rekey_due(now) {
            seq![TimerMessage::Rekey(last)]
        } else {
            Seq::<TimerMessage>::empty()
        };
        let second = if timers.keepalive_due(now) {
            seq![TimerMessage::KeepAlive(last)]
        } else {
            Seq::<TimerMessage>::empty()
        };
        lemma_rekeys_for_concat(first, second, peer);
        lemma_rekeys_for_one(TimerMessage::Rekey(last), peer);
        lemma_rekeys_for_one(TimerMessage::KeepAlive(last), peer);
    }
}

/// The public key of the last peer of a prefix.
pub open spec fn key_of(peers: Seq<Peer>, upto: int) -> Seq<u8> {
    peers[upto - 1].info.pub_key@
}

} // verus!
