//! The index table: which peer owns each locally chosen session index.
//! Indices are handed out in ascending order and never taken back.

use std::collections::HashMap;
use vstd::prelude::*;

verus! {

broadcast use vstd::std_specs::hash::group_hash_axioms;

/// Names a peer: its position in the server's list of peers.
pub type PeerId = usize;

/// Number of session indices there are.
pub const INDEX_SPACE: u64 = 0x1_0000_0000;

/// The index that is handed out after `index`; none after the last one.
pub open spec fn following(index: u32) -> Option<u32> {
    if index < u32::MAX {
        Some((index + 1) as u32)
    } else {
        None
    }
}

/// Maps each session index that was handed out to the peer it was handed to.
pub struct IndexTable {
    map: HashMap<u32, PeerId>,
    handed_out: u64,
}

impl View for IndexTable {
    type V = Map<u32, PeerId>;

    closed spec fn view(&self) -> Map<u32, PeerId> {
        self.map@
    }
}

impl IndexTable {
    /// The table holds exactly the indices below the number handed out.
    /// Every table that `new` made and `allocate` filled is of this form.
    pub closed spec fn wf(&self) -> bool {
        &&& self.handed_out <= INDEX_SPACE
        &&& forall|i: u32| self.map@.contains_key(i) <==> (i as int) < self.handed_out
    }

    /// The index that the next allocation hands out; none once all are in use.
    pub closed spec fn next_free(&self) -> Option<u32> {
        if self.handed_out < INDEX_SPACE {
            Some(self.handed_out as u32)
        } else {
            None
        }
    }

    /// An empty table.
    pub fn new() -> (table: IndexTable)
        ensures
            table.wf(),
            table@ == Map::<u32, PeerId>::empty(),
            table.next_free() == Some(0u32),
    {
        IndexTable { map: HashMap::new(), handed_out: 0 }
    }

    /// The peer that owns a session index.
    pub fn lookup(&self, index: u32) -> (owner: Option<PeerId>)
        ensures
            owner == (if self@.contains_key(index) {
                Some(self@[index])
            } else {
                None
            }),
    {
        match self.map.get(&index) {
            Some(peer) => Some(*peer),
            None => None,
        }
    }

    /// Whether every index is in use.
    pub fn is_exhausted(&self) -> (full: bool)
        ensures
            full == self.next_free().is_none(),
    {
        self.handed_out >= INDEX_SPACE
    }

    /// Hands a fresh session index to a peer and records it. Returns none,
    /// and changes nothing, once every index is in use.
    pub fn allocate(&mut self, peer: PeerId) -> (index: Option<u32>)
        requires
            old(self).wf(),
        ensures
            final(self).wf(),
            index == old(self).next_free(),
            match index {
                Some(i) => !old(self)@.contains_key(i) && final(self)@ == old(self)@.insert(i, peer)
                    && final(self).next_free() == following(i),
                None => *final(self) == *old(self),
            },
    {
        if self.handed_out >= INDEX_SPACE {
            return None;
        }
        let index: u32 = self.handed_out as u32;
        self.map.insert(index, peer);
        self.handed_out = self.handed_out + 1;
        Some(index)
    }
}

/// The next free index of a table is not in it.
pub proof fn lemma_next_free_is_fresh(table: IndexTable)
    requires
        table.wf(),
        table.next_free().is_some(),
    ensures
        !table@.contains_key(table.next_free().unwrap()),
{
}

} // verus!
