//! The requests that are in flight, each under the reply slot through which
//! its answer comes back.

use crate::outcome::{PendingRecord, ReplySlot};
use crate::primitives::{position_of, Key};
use crate::seq_map::{
    lemma_index_of_unique, lemma_seq_map_dom, lemma_seq_map_push, lemma_seq_map_remove, paired,
    seq_map,
};
use vstd::prelude::*;

verus! {

impl Key for ReplySlot {
    fn same(&self, other: &Self) -> (r: bool) {
        self.id == other.id
    }
}

/// The requests in flight and the number of the next reply slot.
#[derive(Debug)]
pub struct PendingResponses {
    slots: Vec<ReplySlot>,
    records: Vec<PendingRecord>,
    next: u64,
}

impl PendingResponses {
    /// No slot is in use twice, and every slot in use was handed out before.
    pub closed spec fn wf(&self) -> bool {
        &&& paired(self.slots@, self.records@)
        &&& forall|i: int| 0 <= i < self.slots@.len() ==> (#[trigger] self.slots@[i]).id < self.next
    }

    /// The requests in flight by reply slot.
    pub closed spec fn view(&self) -> Map<ReplySlot, PendingRecord> {
        seq_map(self.slots@, self.records@)
    }

    /// The number of the slot that is handed out next.
    pub closed spec fn next_slot(&self) -> u64 {
        self.next
    }

    /// Finitely many requests are in flight, all under slots that were
    /// handed out before.
    pub proof fn lemma_slots(&self)
        requires
            self.wf(),
        ensures
            self@.dom().finite(),
            forall|slot: ReplySlot| self@.dom().contains(slot) ==> slot.id < self.next_slot(),
    {
        lemma_seq_map_dom(self.slots@, self.records@);
        assert forall|slot: ReplySlot| self@.dom().contains(slot) implies slot.id
            < self.next_slot() by {
            let i = choose|i: int| 0 <= i < self.slots@.len() && self.slots@[i] == slot;
            assert(self.slots@[i].id < self.next);
        }
    }

    /// Nothing in flight, and slot numbers start at zero.
    pub fn new() -> (pending: PendingResponses)
        ensures
            pending.wf(),
            pending@ == Map::<ReplySlot, PendingRecord>::empty(),
            pending.next_slot() == 0,
    {
        let pending = PendingResponses { slots: Vec::new(), records: Vec::new(), next: 0 };
        proof {
            assert(pending@ =~= Map::<ReplySlot, PendingRecord>::empty());
        }
        pending
    }

    /// Number of requests in flight.
    pub fn len(&self) -> (n: usize)
        requires
            self.wf(),
        ensures
            n == self@.dom().len(),
    {
        proof {
            lemma_seq_map_dom(self.slots@, self.records@);
        }
        self.slots.len()
    }

    /// Whether a request is in flight under `slot`.
    pub fn contains(&self, slot: &ReplySlot) -> (r: bool)
        ensures
            r == self@.dom().contains(*slot),
    {
        position_of(&self.slots, slot).is_some()
    }

    /// Puts `record` in flight under a slot that was never handed out
    /// before; `None`, and nothing changes, once the slot numbers have run
    /// out.
    pub fn register(&mut self, record: PendingRecord) -> (r: Option<ReplySlot>)
        requires
            old(self).wf(),
        ensures
            final(self).wf(),
            match r {
                Some(slot) => {
                    &&& old(self).next_slot() < u64::MAX
                    &&& slot.id == old(self).next_slot()
                    &&& !old(self)@.dom().contains(slot)
                    &&& final(self)@ == old(self)@.insert(slot, record)
                    &&& final(self).next_slot() == old(self).next_slot() + 1
                },
                None => {
                    &&& old(self).next_slot() == u64::MAX
                    &&& final(self)@ == old(self)@
                    &&& final(self).next_slot() == old(self).next_slot()
                },
            },
    {
        if self.next == u64::MAX {
            return None;
        }
        let slot = ReplySlot { id: self.next };
        proof {
            if self.slots@.contains(slot) {
                let i = choose|i: int| 0 <= i < self.slots@.len() && self.slots@[i] == slot;
                assert(self.slots@[i].id < self.next);
            }
            lemma_seq_map_push(self.slots@, self.records@, slot, record);
        }
        self.slots.push(slot);
        self.records.push(record);
        self.next = self.next + 1;
        Some(slot)
    }

    /// Takes the request under `slot` out of flight, if there is one.
    pub fn take(&mut self, slot: &ReplySlot) -> (r: Option<PendingRecord>)
        requires
            old(self).wf(),
        ensures
            final(self).wf(),
            final(self).next_slot() == old(self).next_slot(),
            final(self)@ == old(self)@.remove(*slot),
            r == (if old(self)@.dom().contains(*slot) {
                Some(old(self)@[*slot])
            } else {
                None
            }),
    {
        match position_of(&self.slots, slot) {
            Some(i) => {
                proof {
                    lemma_index_of_unique(self.slots@, i as int);
                    lemma_seq_map_remove(self.slots@, self.records@, i as int);
                }
                self.slots.remove(i);
                let record = self.records.remove(i);
                Some(record)
            },
            None => {
                proof {
                    assert(self@.remove(*slot) =~= self@);
                }
                None
            },
        }
    }
}

} // verus!
