//! The keyed data store holding validator, staker and tombstone records. It
//! abstracts over persistence: the caller commits or aborts the surrounding
//! storage transaction based on the engine's result.

use std::collections::HashMap;

use vstd::prelude::*;

use crate::primitives::{map_get, Address};
use crate::records::{Staker, Tombstone, Validator};

verus! {

broadcast use vstd::std_specs::hash::group_hash_axioms;

/// Mathematical contents of a [`StakingStore`].
#[verifier::ext_equal]
pub struct StoreModel {
    /// All validator records by address.
    pub validators: Map<Address, Validator>,
    /// All staker records by address.
    pub stakers: Map<Address, Staker>,
    /// All tombstone records by address.
    pub tombstones: Map<Address, Tombstone>,
}

/// Keyed reads and writes of the entity records.
pub struct StakingStore {
    validators: HashMap<Address, Validator>,
    stakers: HashMap<Address, Staker>,
    tombstones: HashMap<Address, Tombstone>,
}

impl View for StakingStore {
    type V = StoreModel;

    closed spec fn view(&self) -> StoreModel {
        StoreModel {
            validators: self.validators@,
            stakers: self.stakers@,
            tombstones: self.tombstones@,
        }
    }
}

impl StakingStore {
    /// An empty store.
    pub fn new() -> (r: StakingStore)
        ensures
            r@.validators == Map::<Address, Validator>::empty(),
            r@.stakers == Map::<Address, Staker>::empty(),
            r@.tombstones == Map::<Address, Tombstone>::empty(),
    {
        StakingStore { validators: HashMap::new(), stakers: HashMap::new(), tombstones: HashMap::new() }
    }

    /// The validator at `address`, if any.
    pub fn get_validator(&self, address: Address) -> (r: Option<Validator>)
        ensures
            r == map_get(self@.validators, address),
    {
        match self.validators.get(&address) {
            Some(v) => Some(*v),
            None => None,
        }
    }

    /// Writes the validator at `address`.
    pub fn put_validator(&mut self, address: Address, validator: Validator)
        ensures
            final(self)@ == (StoreModel {
                validators: old(self)@.validators.insert(address, validator),
                ..old(self)@
            }),
    {
        self.validators.insert(address, validator);
    }

    /// Removes the validator at `address`.
    pub fn remove_validator(&mut self, address: Address)
        ensures
            final(self)@ == (StoreModel {
                validators: old(self)@.validators.remove(address),
                ..old(self)@
            }),
    {
        self.validators.remove(&address);
    }

    /// The staker at `address`, if any.
    pub fn get_staker(&self, address: Address) -> (r: Option<Staker>)
        ensures
            r == map_get(self@.stakers, address),
    {
        match self.stakers.get(&address) {
            Some(s) => Some(*s),
            None => None,
        }
    }

    /// Writes the staker at `address`.
    pub fn put_staker(&mut self, address: Address, staker: Staker)
        ensures
            final(self)@ == (StoreModel {
                stakers: old(self)@.stakers.insert(address, staker),
                ..old(self)@
            }),
    {
        self.stakers.insert(address, staker);
    }

    /// Removes the staker at `address`.
    pub fn remove_staker(&mut self, address: Address)
        ensures
            final(self)@ == (StoreModel {
                stakers: old(self)@.stakers.remove(address),
                ..old(self)@
            }),
    {
        self.stakers.remove(&address);
    }

    /// The tombstone at `address`, if any.
    pub fn get_tombstone(&self, address: Address) -> (r: Option<Tombstone>)
        ensures
            r == map_get(self@.tombstones, address),
    {
        match self.tombstones.get(&address) {
            Some(t) => Some(*t),
            None => None,
        }
    }

    /// Writes the tombstone at `address`.
    pub fn put_tombstone(&mut self, address: Address, tombstone: Tombstone)
        ensures
            final(self)@ == (StoreModel {
                tombstones: old(self)@.tombstones.insert(address, tombstone),
                ..old(self)@
            }),
    {
        self.tombstones.insert(address, tombstone);
    }

    /// Removes the tombstone at `address`.
    pub fn remove_tombstone(&mut self, address: Address)
        ensures
            final(self)@ == (StoreModel {
                tombstones: old(self)@.tombstones.remove(address),
                ..old(self)@
            }),
    {
        self.tombstones.remove(&address);
    }
}

} // verus!
