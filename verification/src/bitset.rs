//! A fixed-size set of slot numbers, one bit per slot of the epoch.

use vstd::prelude::*;

use crate::primitives::SLOTS_PER_EPOCH;
use crate::records::SlotRange;

verus! {

/// The all-clear bitset.
pub open spec fn empty_slots() -> Seq<bool> {
    Seq::new(SLOTS_PER_EPOCH as nat, |i: int| false)
}

/// `bits` with every slot of `range` set.
pub open spec fn with_range(bits: Seq<bool>, range: SlotRange) -> Seq<bool> {
    Seq::new(bits.len(), |i: int| bits[i] || (range.start <= i && i < range.end))
}

/// Per-slot punishment flags for one batch; one bit per slot of the epoch.
#[derive(Clone, PartialEq, Eq, Debug)]
pub struct BitSet {
    bits: Vec<bool>,
}

impl View for BitSet {
    type V = Seq<bool>;

    closed spec fn view(&self) -> Seq<bool> {
        self.bits@
    }
}

impl BitSet {
    /// A bitset always covers exactly the slots of one epoch.
    pub open spec fn wf(self) -> bool {
        self@.len() == SLOTS_PER_EPOCH as nat
    }

    /// The bitset with no slot set.
    pub fn empty() -> (r: BitSet)
        ensures
            r@ == empty_slots(),
            r.wf(),
    {
        let mut bits: Vec<bool> = Vec::new();
        let mut i: u16 = 0;
        while i < SLOTS_PER_EPOCH
            invariant
                i <= SLOTS_PER_EPOCH,
                bits@.len() == i as nat,
                forall|j: int| 0 <= j < i as int ==> !bits@[j],
            decreases SLOTS_PER_EPOCH - i,
        {
            bits.push(false);
            i = i + 1;
        }
        proof {
            assert(bits@ =~= empty_slots());
        }
        BitSet { bits }
    }

    /// Whether `slot` is set.
    pub fn contains(&self, slot: u16) -> (r: bool)
        requires
            self.wf(),
            slot < SLOTS_PER_EPOCH,
        ensures
            r == self@[slot as int],
    {
        self.bits[slot as usize]
    }

    /// Sets `slot`.
    pub fn set_slot(&mut self, slot: u16)
        requires
            old(self).wf(),
            slot < SLOTS_PER_EPOCH,
        ensures
            final(self)@ == old(self)@.update(slot as int, true),
            final(self).wf(),
    {
        self.bits.set(slot as usize, true);
    }

    /// Clears `slot`.
    pub fn clear_slot(&mut self, slot: u16)
        requires
            old(self).wf(),
            slot < SLOTS_PER_EPOCH,
        ensures
            final(self)@ == old(self)@.update(slot as int, false),
            final(self).wf(),
    {
        self.bits.set(slot as usize, false);
    }

    /// Sets every slot of `range`.
    pub fn set_range(&mut self, range: SlotRange)
        requires
            old(self).wf(),
            range.wf(),
        ensures
            final(self)@ == with_range(old(self)@, range),
            final(self).wf(),
    {
        let ghost orig = self@;
        let mut slot: u16 = range.start;
        while slot < range.end
            invariant
                self.wf(),
                range.wf(),
                range.start <= slot,
                slot <= range.end,
                self@.len() == orig.len(),
                forall|j: int|
                    0 <= j < orig.len() ==> self@[j] == (orig[j] || (range.start <= j
                        && j < slot as int)),
            decreases range.end - slot,
        {
            self.bits.set(slot as usize, true);
            slot = slot + 1;
        }
        proof {
            assert(self@ =~= with_range(orig, range));
        }
    }

    /// Whether the bitset covers exactly the slots of one epoch; a receipt
    /// carrying a bitset of any other size is malformed.
    pub fn covers_epoch(&self) -> (r: bool)
        ensures
            r == self.wf(),
    {
        self.bits.len() == SLOTS_PER_EPOCH as usize
    }

    /// An identical copy.
    pub fn duplicate(&self) -> (r: BitSet)
        requires
            self.wf(),
        ensures
            r@ == self@,
            r.wf(),
    {
        let mut bits: Vec<bool> = Vec::new();
        let mut i: usize = 0;
        while i < self.bits.len()
            invariant
                i <= self.bits@.len(),
                bits@.len() == i as nat,
                forall|j: int| 0 <= j < i as int ==> bits@[j] == self.bits@[j],
            decreases self.bits@.len() - i,
        {
            bits.push(self.bits[i]);
            i = i + 1;
        }
        proof {
            assert(bits@ =~= self@);
        }
        BitSet { bits }
    }
}

} // verus!
