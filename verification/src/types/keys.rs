//! Key material: a secret or public key with the session index it belongs
//! to, and the pair of keys that makes up one session.

use crate::protocol::wire::bytes_equal;
use clear_on_drop::clear::Clear;
use vstd::prelude::*;
use vstd::std_specs::cmp::PartialEqSpecImpl;

verus! {

/// The bytes of the all-zero key.
pub open spec fn zero_key() -> Seq<u8> {
    Seq::new(32, |i: int| 0u8)
}

/// A 32-byte key together with the session index it authenticates.
#[derive(Debug, Clone)]
pub struct Key {
    pub key: [u8; 32],
    pub id: u32,
}

/// Overwrites a key with zeros through `clear_on_drop`'s `Clear::clear`,
/// which zeroes the memory and then writes the type's default value; for a
/// byte array that default is all zeros as well.
#[verifier::external_body]
fn clear_key_bytes(key: &mut [u8; 32])
    ensures
        final(key)@ == zero_key(),
    opens_invariants none
    no_unwind
{
    key.clear();
}

impl Key {
    /// The key's bytes.
    pub open spec fn bytes(&self) -> Seq<u8> {
        self.key@
    }

    /// Overwrites the secret with zeros; the identifier stays.
    pub fn wipe(&mut self)
        ensures
            final(self).bytes() == zero_key(),
            final(self).id == old(self).id,
        opens_invariants none
        no_unwind
    {
        clear_key_bytes(&mut self.key);
    }

    /// A second copy of this key.
    pub fn duplicate(&self) -> (copy: Key)
        ensures
            copy == *self,
    {
        Key { key: self.key, id: self.id }
    }
}

impl PartialEq for Key {
    /// Two keys are the same where their identifiers and their bytes are.
    fn eq(&self, other: &Self) -> (same: bool) {
        self.id == other.id && bytes_equal(self.key.as_slice(), other.key.as_slice())
    }
}

impl PartialEqSpecImpl for Key {
    open spec fn obeys_eq_spec() -> bool {
        true
    }

    open spec fn eq_spec(&self, other: &Self) -> bool {
        self.id == other.id && self.key@ == other.key@
    }
}

impl Drop for Key {
    /// At the end of its life the key's bytes are overwritten with zeros.
    fn drop(&mut self)
        ensures
            final(self).bytes() == zero_key(),
            final(self).id == old(self).id,
        opens_invariants none
        no_unwind
    {
        self.wipe();
    }
}

/// The two keys of one session, with its time of creation and the role this
/// side played in the handshake that produced it.
#[derive(Debug, Clone)]
pub struct KeyPair {
    /// When the pair was created, in seconds on the caller's clock.
    pub birth: u64,
    /// Whether this side initiated the handshake.
    pub initiator: bool,
    /// Key for outbound messages.
    pub send: Key,
    /// Key for inbound messages.
    pub recv: Key,
}

impl KeyPair {
    /// The key pair that one side draws from the two keys a handshake ends
    /// with: the initiator sends with the first and receives with the
    /// second, the responder the other way round. The sending key carries
    /// the other side's session index, the receiving key this side's.
    pub open spec fn of_split(
        initiator: bool,
        first: [u8; 32],
        second: [u8; 32],
        local_index: u32,
        remote_index: u32,
        birth: u64,
    ) -> KeyPair {
        KeyPair {
            birth,
            initiator,
            send: Key { key: if initiator { first } else { second }, id: remote_index },
            recv: Key { key: if initiator { second } else { first }, id: local_index },
        }
    }

    /// Builds the key pair of one side from the two keys a handshake ends with.
    pub fn from_split(
        initiator: bool,
        first: [u8; 32],
        second: [u8; 32],
        local_index: u32,
        remote_index: u32,
        birth: u64,
    ) -> (pair: KeyPair)
        ensures
            pair == KeyPair::of_split(initiator, first, second, local_index, remote_index, birth),
    {
        if initiator {
            KeyPair {
                birth,
                initiator,
                send: Key { key: first, id: remote_index },
                recv: Key { key: second, id: local_index },
            }
        } else {
            KeyPair {
                birth,
                initiator,
                send: Key { key: second, id: remote_index },
                recv: Key { key: first, id: local_index },
            }
        }
    }

    /// A second copy of this pair.
    pub fn duplicate(&self) -> (copy: KeyPair)
        ensures
            copy == *self,
    {
        KeyPair {
            birth: self.birth,
            initiator: self.initiator,
            send: self.send.duplicate(),
            recv: self.recv.duplicate(),
        }
    }

    /// The locally chosen session index: the identifier of the receive key.
    pub fn local_id(&self) -> (id: u32)
        ensures
            id == self.recv.id,
    {
        self.recv.id
    }
}

/// Two sides that end a handshake with the same two keys agree on their
/// session keys: what the initiator sends with, the responder receives with,
/// and the other way round; and each addresses the other by the index that
/// the other chose.
pub proof fn lemma_split_agreement(
    first: [u8; 32],
    second: [u8; 32],
    initiator_index: u32,
    responder_index: u32,
    initiator_birth: u64,
    responder_birth: u64,
)
    ensures
        ({
            let i = KeyPair::of_split(
                true,
                first,
                second,
                initiator_index,
                responder_index,
                initiator_birth,
            );
            let r = KeyPair::of_split(
                false,
                first,
                second,
                responder_index,
                initiator_index,
                responder_birth,
            );
            &&& i.send.key == r.recv.key
            &&& i.recv.key == r.send.key
            &&& i.send.id == r.recv.id
            &&& i.recv.id == r.send.id
        }),
{
}

} // verus!
