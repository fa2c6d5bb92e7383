//! The proposal store: an append-only sequence of slots that can be cleared.

use vstd::prelude::*;
use crate::proposal::BasicProposal;

verus! {

/// What `slots` holds at `index`: `None` past the end and at a cleared slot.
pub open spec fn slot_at(slots: Seq<Option<BasicProposal>>, index: int) -> Option<BasicProposal> {
    if 0 <= index < slots.len() {
        slots[index]
    } else {
        None
    }
}

/// An appendable sequence of proposals with stable indices.
///
/// A slot is created by `append`, and `clear` empties it without moving the
/// slots behind it: a cleared slot keeps its index and still counts towards
/// the length, but reads as absent.
pub struct ProposalStore {
    slots: Vec<Option<BasicProposal>>,
}

impl View for ProposalStore {
    type V = Seq<Option<BasicProposal>>;

    /// The slots in index order; `None` marks a cleared slot.
    closed spec fn view(&self) -> Seq<Option<BasicProposal>> {
        self.slots@
    }
}

impl ProposalStore {
    /// The store's invariant: its length fits the `u32` index space.
    pub open spec fn wf(&self) -> bool {
        self@.len() <= u32::MAX
    }

    /// A store with no slots.
    pub fn new() -> (store: ProposalStore)
        ensures
            store.wf(),
            store@ == Seq::<Option<BasicProposal>>::empty(),
    {
        ProposalStore { slots: Vec::new() }
    }

    /// Rebuilds a store from its slots in index order, `None` for each cleared
    /// one. There is no such store if the slots outnumber the `u32` indices.
    pub fn from_slots(slots: Vec<Option<BasicProposal>>) -> (r: Option<ProposalStore>)
        ensures
            r is Some <==> slots@.len() <= u32::MAX,
            r matches Some(store) ==> store.wf() && store@ == slots@,
    {
        if slots.len() > 0xffff_ffff {
            None
        } else {
            Some(ProposalStore { slots })
        }
    }

    /// The slots in index order, `None` for each cleared one.
    pub fn slots(&self) -> (r: Vec<Option<BasicProposal>>)
        requires
            self.wf(),
        ensures
            r@ == self@,
    {
        let mut r: Vec<Option<BasicProposal>> = Vec::new();
        let mut i: usize = 0;
        while i < self.slots.len()
            invariant
                i <= self.slots@.len(),
                r@ == self.slots@.take(i as int),
            decreases self.slots@.len() - i,
        {
            r.push(self.slots[i]);
            proof {
                assert(self.slots@.take(i + 1) =~= self.slots@.take(i as int).push(
                    self.slots@[i as int],
                ));
            }
            i = i + 1;
        }
        proof {
            assert(self.slots@.take(i as int) =~= self.slots@);
        }
        r
    }

    /// The number of slots ever appended, cleared ones included.
    pub fn length(&self) -> (n: u32)
        requires
            self.wf(),
        ensures
            n == self@.len(),
    {
        self.slots.len() as u32
    }

    /// Adds `proposal` in a new slot whose index is the length before the call.
    pub fn append(&mut self, proposal: BasicProposal)
        requires
            old(self).wf(),
            old(self)@.len() < u32::MAX,
        ensures
            final(self).wf(),
            final(self)@ == old(self)@.push(Some(proposal)),
    {
        self.slots.push(Some(proposal));
    }

    /// The proposal at `index`, or `None` if `index` is past the end or the
    /// slot has been cleared.
    pub fn get(&self, index: u32) -> (r: Option<BasicProposal>)
        requires
            self.wf(),
        ensures
            r == slot_at(self@, index as int),
    {
        if (index as usize) < self.slots.len() {
            self.slots[index as usize]
        } else {
            None
        }
    }

    /// Writes `proposal` into the slot at `index`.
    pub fn set(&mut self, index: u32, proposal: BasicProposal)
        requires
            old(self).wf(),
            index < old(self)@.len(),
        ensures
            final(self).wf(),
            final(self)@ == old(self)@.update(index as int, Some(proposal)),
    {
        self.slots.set(index as usize, Some(proposal));
    }

    /// Empties the slot at `index`; the length and all other slots stay.
    pub fn clear(&mut self, index: u32)
        requires
            old(self).wf(),
            index < old(self)@.len(),
        ensures
            final(self).wf(),
            final(self)@ == old(self)@.update(index as int, None),
    {
        self.slots.set(index as usize, None);
    }
}

} // verus!
