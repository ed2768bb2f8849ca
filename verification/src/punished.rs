//! The punished-slots ledger: per-batch bitsets of slots that lost their
//! reward, and the per-validator slot ranges jailed in the current epoch.

use std::collections::HashMap;

use vstd::prelude::*;

use crate::bitset::{empty_slots, with_range, BitSet};
use crate::primitives::{map_get, spec_batch_of, Address, SLOTS_PER_EPOCH};
use crate::records::SlotRange;

verus! {

broadcast use vstd::std_specs::hash::group_hash_axioms;

/// Mathematical contents of the ledger.
#[verifier::ext_equal]
pub struct PunishedModel {
    /// Slots punished in the previous batch.
    pub previous_batch: Seq<bool>,
    /// Slots punished in the current batch.
    pub current_batch: Seq<bool>,
    /// Slot range jailed in the current epoch, per validator.
    pub jail_ranges: Map<Address, SlotRange>,
}

/// Outcome of registering a penalty: the new ledger and whether the slot was
/// newly punished in the previous and in the current batch.
pub open spec fn register_penalty_model(
    p: PunishedModel,
    slot: u16,
    offense_event_block: u32,
    block_number: u32,
) -> (PunishedModel, bool, bool) {
    let in_previous = spec_batch_of(offense_event_block) < spec_batch_of(block_number);
    let newly_previous = in_previous && !p.previous_batch[slot as int];
    let newly_current = !p.current_batch[slot as int];
    let previous = if in_previous {
        p.previous_batch.update(slot as int, true)
    } else {
        p.previous_batch
    };
    (
        PunishedModel {
            previous_batch: previous,
            current_batch: p.current_batch.update(slot as int, true),
            ..p
        },
        newly_previous,
        newly_current,
    )
}

/// Punishment bookkeeping of the staking contract.
pub struct PunishedSlots {
    previous_batch: BitSet,
    current_batch: BitSet,
    jail_ranges: HashMap<Address, SlotRange>,
}

impl View for PunishedSlots {
    type V = PunishedModel;

    closed spec fn view(&self) -> PunishedModel {
        PunishedModel {
            previous_batch: self.previous_batch@,
            current_batch: self.current_batch@,
            jail_ranges: self.jail_ranges@,
        }
    }
}

impl PunishedSlots {
    /// Both bitsets cover exactly the slots of one epoch.
    pub open spec fn wf(self) -> bool {
        self@.previous_batch.len() == SLOTS_PER_EPOCH as nat && self@.current_batch.len()
            == SLOTS_PER_EPOCH as nat
    }

    /// An empty ledger.
    pub fn new() -> (r: PunishedSlots)
        ensures
            r@ == (PunishedModel {
                previous_batch: empty_slots(),
                current_batch: empty_slots(),
                jail_ranges: Map::<Address, SlotRange>::empty(),
            }),
            r.wf(),
    {
        PunishedSlots {
            previous_batch: BitSet::empty(),
            current_batch: BitSet::empty(),
            jail_ranges: HashMap::new(),
        }
    }

    /// Whether `slot` is punished in the previous batch.
    pub fn previous_contains(&self, slot: u16) -> (r: bool)
        requires
            self.wf(),
            slot < SLOTS_PER_EPOCH,
        ensures
            r == self@.previous_batch[slot as int],
    {
        self.previous_batch.contains(slot)
    }

    /// Whether `slot` is punished in the current batch.
    pub fn current_contains(&self, slot: u16) -> (r: bool)
        requires
            self.wf(),
            slot < SLOTS_PER_EPOCH,
        ensures
            r == self@.current_batch[slot as int],
    {
        self.current_batch.contains(slot)
    }

    /// The slot range jailed for `validator_address` this epoch, if any.
    pub fn get_jail_range(&self, validator_address: Address) -> (r: Option<SlotRange>)
        ensures
            r == map_get(self@.jail_ranges, validator_address),
    {
        match self.jail_ranges.get(&validator_address) {
            Some(range) => Some(*range),
            None => None,
        }
    }

    /// Registers every slot of `range` as punished in both batches and
    /// records the jailed range for the validator. Returns the prior bitsets
    /// and the prior jailed range, for the receipt.
    pub fn register_jail(&mut self, validator_address: Address, range: SlotRange) -> (r: (
        BitSet,
        BitSet,
        Option<SlotRange>,
    ))
        requires
            old(self).wf(),
            range.wf(),
        ensures
            r.0@ == old(self)@.previous_batch,
            r.1@ == old(self)@.current_batch,
            r.0.wf(),
            r.1.wf(),
            r.2 == map_get(old(self)@.jail_ranges, validator_address),
            final(self)@ == (PunishedModel {
                previous_batch: with_range(old(self)@.previous_batch, range),
                current_batch: with_range(old(self)@.current_batch, range),
                jail_ranges: old(self)@.jail_ranges.insert(validator_address, range),
            }),
            final(self).wf(),
    {
        let old_previous = self.previous_batch.duplicate();
        let old_current = self.current_batch.duplicate();
        let old_range = self.get_jail_range(validator_address);
        self.previous_batch.set_range(range);
        self.current_batch.set_range(range);
        self.jail_ranges.insert(validator_address, range);
        (old_previous, old_current, old_range)
    }

    /// Restores the bitsets and the validator's jailed range from a jail
    /// receipt.
    pub fn revert_register_jail(
        &mut self,
        validator_address: Address,
        old_previous: BitSet,
        old_current: BitSet,
        old_range: Option<SlotRange>,
    )
        requires
            old(self).wf(),
            old_previous.wf(),
            old_current.wf(),
        ensures
            final(self)@ == (PunishedModel {
                previous_batch: old_previous@,
                current_batch: old_current@,
                jail_ranges: match old_range {
                    Some(range) => old(self)@.jail_ranges.insert(validator_address, range),
                    None => old(self)@.jail_ranges.remove(validator_address),
                },
            }),
            final(self).wf(),
    {
        self.previous_batch = old_previous;
        self.current_batch = old_current;
        match old_range {
            Some(range) => {
                self.jail_ranges.insert(validator_address, range);
            },
            None => {
                self.jail_ranges.remove(&validator_address);
            },
        }
    }

    /// Registers a single punished slot. The slot always lands in the current
    /// batch; it also lands in the previous batch when the offense happened in
    /// an earlier batch. Returns which bits were newly set.
    pub fn register_penalty(&mut self, slot: u16, offense_event_block: u32, block_number: u32) -> (r:
        (bool, bool))
        requires
            old(self).wf(),
            slot < SLOTS_PER_EPOCH,
        ensures
            (final(self)@, r.0, r.1) == register_penalty_model(
                old(self)@,
                slot,
                offense_event_block,
                block_number,
            ),
            final(self).wf(),
    {
        let in_previous = crate::primitives::batch_of(offense_event_block)
            < crate::primitives::batch_of(block_number);
        let newly_current = !self.current_batch.contains(slot);
        self.current_batch.set_slot(slot);
        let newly_previous = if in_previous {
            let newly = !self.previous_batch.contains(slot);
            self.previous_batch.set_slot(slot);
            newly
        } else {
            false
        };
        (newly_previous, newly_current)
    }

    /// Clears the bits a penalty newly set.
    pub fn revert_register_penalty(&mut self, slot: u16, newly_previous: bool, newly_current: bool)
        requires
            old(self).wf(),
            slot < SLOTS_PER_EPOCH,
        ensures
            final(self)@ == (PunishedModel {
                previous_batch: if newly_previous {
                    old(self)@.previous_batch.update(slot as int, false)
                } else {
                    old(self)@.previous_batch
                },
                current_batch: if newly_current {
                    old(self)@.current_batch.update(slot as int, false)
                } else {
                    old(self)@.current_batch
                },
                ..old(self)@
            }),
            final(self).wf(),
    {
        if newly_previous {
            self.previous_batch.clear_slot(slot);
        }
        if newly_current {
            self.current_batch.clear_slot(slot);
        }
    }

    /// Batch rotation: the current batch becomes the previous one and the
    /// current batch starts clear.
    pub fn finalize_batch(&mut self)
        requires
            old(self).wf(),
        ensures
            final(self)@ == (PunishedModel {
                previous_batch: old(self)@.current_batch,
                current_batch: empty_slots(),
                ..old(self)@
            }),
            final(self).wf(),
    {
        let current = self.current_batch.duplicate();
        self.previous_batch = current;
        self.current_batch = BitSet::empty();
    }

    /// Epoch rotation: the epoch-scoped jail ranges are cleared.
    pub fn finalize_epoch(&mut self)
        requires
            old(self).wf(),
        ensures
            final(self)@ == (PunishedModel {
                jail_ranges: Map::<Address, SlotRange>::empty(),
                ..old(self)@
            }),
            final(self).wf(),
    {
        self.jail_ranges.clear();
    }
}

} // verus!
