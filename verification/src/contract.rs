//! The staking contract aggregate and its handlers. Every handler is proved
//! to take exactly the transition its `*_act` function in [`crate::model`]
//! describes: on success the new state is the transition's result, on error
//! the state is unchanged and the error is the transition's error.

use std::collections::HashMap;

use vstd::prelude::*;

use crate::model::{
    refreshed_active, stake_added, stake_removed, staker_attached, staker_detached,
    staker_reattached, with_validator, StateModel,
};
use crate::primitives::{coin_add, coin_sub, map_get, AccountError, Address, Coin};
use crate::punished::{PunishedModel, PunishedSlots};
use crate::records::{Tombstone, Validator};
use crate::store::{StakingStore, StoreModel};
use crate::transactions::{opt_receipt_view, Receipt, ReceiptModel};

verus! {

broadcast use vstd::std_specs::hash::group_hash_axioms;

/// Mathematical contents of the aggregate fields a [`StakingContract`] owns.
#[verifier::ext_equal]
pub struct ContractModel {
    /// Sum of all funds the contract manages.
    pub balance: Coin,
    /// Total stake of each active validator.
    pub active_validators: Map<Address, Coin>,
    /// Punishment bookkeeping.
    pub punished: PunishedModel,
}

/// The singleton account owning all validator deposits and staker balances.
pub struct StakingContract {
    balance: Coin,
    active_validators: HashMap<Address, Coin>,
    punished_slots: PunishedSlots,
}

impl View for StakingContract {
    type V = ContractModel;

    closed spec fn view(&self) -> ContractModel {
        ContractModel {
            balance: self.balance,
            active_validators: self.active_validators@,
            punished: self.punished_slots@,
        }
    }
}

/// The whole engine state: the contract's aggregate fields together with the
/// records in the data store.
pub open spec fn combined(c: ContractModel, s: StoreModel) -> StateModel {
    StateModel {
        balance: c.balance,
        active_validators: c.active_validators,
        punished: c.punished,
        validators: s.validators,
        stakers: s.stakers,
        tombstones: s.tombstones,
    }
}

/// An operation without a receipt stepped from `pre` to `post` exactly as the
/// transition `act` says: on success `post` is the transition's result, on
/// error the transition gives the same error and the state is unchanged.
pub open spec fn steps<T>(
    pre: StateModel,
    post: StateModel,
    r: Result<T, AccountError>,
    act: Result<StateModel, AccountError>,
) -> bool {
    match r {
        Ok(_) => act == Ok::<StateModel, AccountError>(post),
        Err(e) => act == Err::<StateModel, AccountError>(e) && post == pre,
    }
}

/// Like [`steps`], for an operation returning a receipt.
pub open spec fn steps_receipt(
    pre: StateModel,
    post: StateModel,
    r: Result<Receipt, AccountError>,
    act: Result<(StateModel, ReceiptModel), AccountError>,
) -> bool {
    match r {
        Ok(receipt) => act == Ok::<(StateModel, ReceiptModel), AccountError>((post, receipt@)),
        Err(e) => act == Err::<(StateModel, ReceiptModel), AccountError>(e) && post == pre,
    }
}

/// Like [`steps`], for a commit entry point returning an optional receipt.
pub open spec fn steps_commit(
    pre: StateModel,
    post: StateModel,
    r: Result<Option<Receipt>, AccountError>,
    act: Result<(StateModel, Option<ReceiptModel>), AccountError>,
) -> bool {
    match r {
        Ok(receipt) => act == Ok::<(StateModel, Option<ReceiptModel>), AccountError>((post, opt_receipt_view(receipt))),
        Err(e) => act == Err::<(StateModel, Option<ReceiptModel>), AccountError>(e) && post == pre,
    }
}

impl StakingContract {
    /// The punishment bitsets cover exactly the slots of one epoch.
    pub open spec fn wf(self) -> bool {
        self@.punished.previous_batch.len() == crate::primitives::SLOTS_PER_EPOCH as nat
            && self@.punished.current_batch.len() == crate::primitives::SLOTS_PER_EPOCH as nat
    }

    /// The empty contract: no funds, no active validators, nothing punished.
    pub fn new() -> (r: StakingContract)
        ensures
            r@.balance == 0,
            r@.active_validators == Map::<Address, Coin>::empty(),
            r@.punished == (PunishedModel {
                previous_batch: crate::bitset::empty_slots(),
                current_batch: crate::bitset::empty_slots(),
                jail_ranges: Map::<Address, crate::records::SlotRange>::empty(),
            }),
            r.wf(),
    {
        StakingContract {
            balance: 0,
            active_validators: HashMap::new(),
            punished_slots: PunishedSlots::new(),
        }
    }

    /// The funds the contract currently manages.
    pub fn balance(&self) -> (r: Coin)
        ensures
            r == self@.balance,
    {
        self.balance
    }

    /// The active-set entry of a validator, if it is active.
    pub fn active_stake(&self, validator_address: Address) -> (r: Option<Coin>)
        ensures
            r == map_get(self@.active_validators, validator_address),
    {
        match self.active_validators.get(&validator_address) {
            Some(stake) => Some(*stake),
            None => None,
        }
    }

    /// Whether `slot` is punished in the previous batch.
    pub fn previous_batch_punished(&self, slot: u16) -> (r: bool)
        requires
            self.wf(),
            slot < crate::primitives::SLOTS_PER_EPOCH,
        ensures
            r == self@.punished.previous_batch[slot as int],
    {
        self.punished_slots.previous_contains(slot)
    }

    /// Whether `slot` is punished in the current batch.
    pub fn current_batch_punished(&self, slot: u16) -> (r: bool)
        requires
            self.wf(),
            slot < crate::primitives::SLOTS_PER_EPOCH,
        ensures
            r == self@.punished.current_batch[slot as int],
    {
        self.punished_slots.current_contains(slot)
    }

    /// The slot range jailed for a validator this epoch, if any.
    pub fn jail_range(&self, validator_address: Address) -> (r: Option<crate::records::SlotRange>)
        ensures
            r == map_get(self@.punished.jail_ranges, validator_address),
    {
        self.punished_slots.get_jail_range(validator_address)
    }

    /// Writes a validator record and brings its active-set entry in line with
    /// it.
    fn put_and_refresh(&mut self, store: &mut StakingStore, address: Address, v: Validator)
        ensures
            combined(final(self)@, final(store)@) == with_validator(
                combined(old(self)@, old(store)@),
                address,
                v,
            ),
            final(self)@.balance == old(self)@.balance,
            final(self)@.punished == old(self)@.punished,
            final(self).wf() == old(self).wf(),
    {
        store.put_validator(address, v);
        if v.is_active() {
            self.active_validators.insert(address, v.total_stake);
        } else {
            self.active_validators.remove(&address);
        }
    }

    /// Credits newly delegated stake to a validator and counts its staker.
    fn attach_staker(&mut self, store: &mut StakingStore, delegation: Address, amount: Coin) -> (r:
        Result<(), AccountError>)
        ensures
            steps(
                combined(old(self)@, old(store)@),
                combined(final(self)@, final(store)@),
                r,
                staker_attached(combined(old(self)@, old(store)@), delegation, amount),
            ),
            final(self)@.balance == old(self)@.balance,
            final(self)@.punished == old(self)@.punished,
            final(self).wf() == old(self).wf(),
    {
        match store.get_validator(delegation) {
            Some(v) => {
                let total_stake = match coin_add(v.total_stake, amount) {
                    Ok(t) => t,
                    Err(e) => {
                        return Err(e);
                    },
                };
                if v.num_stakers == u64::MAX {
                    return Err(AccountError::InvalidCoinValue);
                }
                let v2 = Validator { total_stake, num_stakers: v.num_stakers + 1, ..v };
                self.put_and_refresh(store, delegation, v2);
                Ok(())
            },
            None => Err(AccountError::NonExistentAddress),
        }
    }

    /// Recredits a prior delegation on revert; the target may have become a
    /// tombstone or have disappeared, in which case the tombstone returns.
    fn reattach_staker(
        &mut self,
        store: &mut StakingStore,
        delegation: Address,
        amount: Coin,
    ) -> (r: Result<(), AccountError>)
        ensures
            steps(
                combined(old(self)@, old(store)@),
                combined(final(self)@, final(store)@),
                r,
                staker_reattached(combined(old(self)@, old(store)@), delegation, amount),
            ),
            final(self)@.balance == old(self)@.balance,
            final(self)@.punished == old(self)@.punished,
            final(self).wf() == old(self).wf(),
    {
        match store.get_validator(delegation) {
            Some(v) => {
                let total_stake = match coin_add(v.total_stake, amount) {
                    Ok(t) => t,
                    Err(e) => {
                        return Err(e);
                    },
                };
                if v.num_stakers == u64::MAX {
                    return Err(AccountError::InvalidCoinValue);
                }
                let v2 = Validator { total_stake, num_stakers: v.num_stakers + 1, ..v };
                self.put_and_refresh(store, delegation, v2);
                Ok(())
            },
            None => {
                match store.get_tombstone(delegation) {
                    Some(t) => {
                        let total_stake = match coin_add(t.total_stake, amount) {
                            Ok(x) => x,
                            Err(e) => {
                                return Err(e);
                            },
                        };
                        if t.num_remaining_stakers == u64::MAX {
                            return Err(AccountError::InvalidCoinValue);
                        }
                        store.put_tombstone(
                            delegation,
                            Tombstone {
                                total_stake,
                                num_remaining_stakers: t.num_remaining_stakers + 1,
                            },
                        );
                        Ok(())
                    },
                    None => {
                        store.put_tombstone(
                            delegation,
                            Tombstone { total_stake: amount, num_remaining_stakers: 1 },
                        );
                        Ok(())
                    },
                }
            },
        }
    }

    /// Removes delegated stake and one staker from a validator or tombstone;
    /// a tombstone losing its last staker is deleted.
    fn detach_staker(&mut self, store: &mut StakingStore, delegation: Address, amount: Coin) -> (r:
        Result<(), AccountError>)
        ensures
            steps(
                combined(old(self)@, old(store)@),
                combined(final(self)@, final(store)@),
                r,
                staker_detached(combined(old(self)@, old(store)@), delegation, amount),
            ),
            final(self)@.balance == old(self)@.balance,
            final(self)@.punished == old(self)@.punished,
            final(self).wf() == old(self).wf(),
    {
        match store.get_validator(delegation) {
            Some(v) => {
                let total_stake = match coin_sub(v.total_stake, amount) {
                    Ok(t) => t,
                    Err(e) => {
                        return Err(e);
                    },
                };
                if v.num_stakers == 0 {
                    return Err(AccountError::InvalidCoinValue);
                }
                let v2 = Validator { total_stake, num_stakers: v.num_stakers - 1, ..v };
                self.put_and_refresh(store, delegation, v2);
                Ok(())
            },
            None => {
                match store.get_tombstone(delegation) {
                    Some(t) => {
                        let total_stake = match coin_sub(t.total_stake, amount) {
                            Ok(x) => x,
                            Err(e) => {
                                return Err(e);
                            },
                        };
                        if t.num_remaining_stakers == 0 {
                            return Err(AccountError::InvalidCoinValue);
                        }
                        if t.num_remaining_stakers == 1 {
                            store.remove_tombstone(delegation);
                        } else {
                            store.put_tombstone(
                                delegation,
                                Tombstone {
                                    total_stake,
                                    num_remaining_stakers: t.num_remaining_stakers - 1,
                                },
                            );
                        }
                        Ok(())
                    },
                    None => Err(AccountError::NonExistentAddress),
                }
            },
        }
    }

    /// Adds stake to a validator or tombstone without touching its staker
    /// count.
    fn add_delegated_stake(
        &mut self,
        store: &mut StakingStore,
        delegation: Address,
        amount: Coin,
    ) -> (r: Result<(), AccountError>)
        ensures
            steps(
                combined(old(self)@, old(store)@),
                combined(final(self)@, final(store)@),
                r,
                stake_added(combined(old(self)@, old(store)@), delegation, amount),
            ),
            final(self)@.balance == old(self)@.balance,
            final(self)@.punished == old(self)@.punished,
            final(self).wf() == old(self).wf(),
    {
        match store.get_validator(delegation) {
            Some(v) => {
                let total_stake = match coin_add(v.total_stake, amount) {
                    Ok(t) => t,
                    Err(e) => {
                        return Err(e);
                    },
                };
                self.put_and_refresh(store, delegation, Validator { total_stake, ..v });
                Ok(())
            },
            None => {
                match store.get_tombstone(delegation) {
                    Some(t) => {
                        let total_stake = match coin_add(t.total_stake, amount) {
                            Ok(x) => x,
                            Err(e) => {
                                return Err(e);
                            },
                        };
                        store.put_tombstone(delegation, Tombstone { total_stake, ..t });
                        Ok(())
                    },
                    None => Err(AccountError::NonExistentAddress),
                }
            },
        }
    }

    /// Removes stake from a validator or tombstone without touching its
    /// staker count.
    fn remove_delegated_stake(
        &mut self,
        store: &mut StakingStore,
        delegation: Address,
        amount: Coin,
    ) -> (r: Result<(), AccountError>)
        ensures
            steps(
                combined(old(self)@, old(store)@),
                combined(final(self)@, final(store)@),
                r,
                stake_removed(combined(old(self)@, old(store)@), delegation, amount),
            ),
            final(self)@.balance == old(self)@.balance,
            final(self)@.punished == old(self)@.punished,
            final(self).wf() == old(self).wf(),
    {
        match store.get_validator(delegation) {
            Some(v) => {
                let total_stake = match coin_sub(v.total_stake, amount) {
                    Ok(t) => t,
                    Err(e) => {
                        return Err(e);
                    },
                };
                self.put_and_refresh(store, delegation, Validator { total_stake, ..v });
                Ok(())
            },
            None => {
                match store.get_tombstone(delegation) {
                    Some(t) => {
                        let total_stake = match coin_sub(t.total_stake, amount) {
                            Ok(x) => x,
                            Err(e) => {
                                return Err(e);
                            },
                        };
                        store.put_tombstone(delegation, Tombstone { total_stake, ..t });
                        Ok(())
                    },
                    None => Err(AccountError::NonExistentAddress),
                }
            },
        }
    }
}

} // verus!

verus! {

impl StakingContract {
    /// Registers a new validator with the transaction value as its deposit;
    /// it starts active.
    pub fn create_validator(
        &mut self,
        store: &mut StakingStore,
        validator_address: Address,
        signing_key: Address,
        voting_key: u64,
        reward_address: Address,
        signal_data: Option<u64>,
        value: Coin,
    ) -> (r: Result<(), AccountError>)
        ensures
            steps(
                combined(old(self)@, old(store)@),
                combined(final(self)@, final(store)@),
                r,
                crate::model::create_validator_act(
                    combined(old(self)@, old(store)@),
                    validator_address,
                    signing_key,
                    voting_key,
                    reward_address,
                    signal_data,
                    value,
                ),
            ),
            final(self).wf() == old(self).wf(),
    {
        if value != crate::primitives::VALIDATOR_DEPOSIT {
            return Err(AccountError::InvalidCoinValue);
        }
        let occupied = match store.get_validator(validator_address) {
            Some(_) => true,
            None => match store.get_tombstone(validator_address) {
                Some(_) => true,
                None => false,
            },
        };
        if occupied {
            return Err(AccountError::AlreadyExistentAddress);
        }
        let balance = match coin_add(self.balance, value) {
            Ok(b) => b,
            Err(e) => {
                return Err(e);
            },
        };
        let v = Validator {
            signing_key,
            voting_key,
            reward_address,
            signal_data,
            deposit: value,
            total_stake: value,
            num_stakers: 0,
            inactive_from: None,
            jailed_from: None,
            retired: false,
            retired_from: None,
        };
        self.put_and_refresh(store, validator_address, v);
        self.balance = balance;
        Ok(())
    }

    /// Removes a created validator again and returns its deposit.
    pub fn revert_create_validator(
        &mut self,
        store: &mut StakingStore,
        validator_address: Address,
        value: Coin,
    ) -> (r: Result<(), AccountError>)
        ensures
            steps(
                combined(old(self)@, old(store)@),
                combined(final(self)@, final(store)@),
                r,
                crate::model::revert_create_validator_act(
                    combined(old(self)@, old(store)@),
                    validator_address,
                    value,
                ),
            ),
            final(self).wf() == old(self).wf(),
    {
        match store.get_validator(validator_address) {
            None => {
                return Err(AccountError::NonExistentAddress);
            },
            Some(_) => {},
        }
        let balance = match coin_sub(self.balance, value) {
            Ok(b) => b,
            Err(e) => {
                return Err(e);
            },
        };
        store.remove_validator(validator_address);
        self.active_validators.remove(&validator_address);
        self.balance = balance;
        Ok(())
    }

    /// Overwrites the provided validator fields; the receipt carries the
    /// prior values.
    pub fn update_validator(
        &mut self,
        store: &mut StakingStore,
        validator_address: Address,
        new_signing_key: Option<Address>,
        new_voting_key: Option<u64>,
        new_reward_address: Option<Address>,
        new_signal_data: Option<Option<u64>>,
    ) -> (r: Result<Receipt, AccountError>)
        ensures
            steps_receipt(
                combined(old(self)@, old(store)@),
                combined(final(self)@, final(store)@),
                r,
                crate::model::update_validator_act(
                    combined(old(self)@, old(store)@),
                    validator_address,
                    new_signing_key,
                    new_voting_key,
                    new_reward_address,
                    new_signal_data,
                ),
            ),
            final(self).wf() == old(self).wf(),
    {
        let v = match store.get_validator(validator_address) {
            None => {
                return Err(AccountError::NonExistentAddress);
            },
            Some(v) => v,
        };
        let receipt = Receipt::UpdateValidator {
            old_signing_key: v.signing_key,
            old_voting_key: v.voting_key,
            old_reward_address: v.reward_address,
            old_signal_data: v.signal_data,
        };
        let v2 = Validator {
            signing_key: match new_signing_key {
                Some(k) => k,
                None => v.signing_key,
            },
            voting_key: match new_voting_key {
                Some(k) => k,
                None => v.voting_key,
            },
            reward_address: match new_reward_address {
                Some(a) => a,
                None => v.reward_address,
            },
            signal_data: match new_signal_data {
                Some(d) => d,
                None => v.signal_data,
            },
            ..v
        };
        self.put_and_refresh(store, validator_address, v2);
        Ok(receipt)
    }

    /// Restores the prior validator fields from an update receipt.
    pub fn revert_update_validator(
        &mut self,
        store: &mut StakingStore,
        validator_address: Address,
        old_signing_key: Address,
        old_voting_key: u64,
        old_reward_address: Address,
        old_signal_data: Option<u64>,
    ) -> (r: Result<(), AccountError>)
        ensures
            steps(
                combined(old(self)@, old(store)@),
                combined(final(self)@, final(store)@),
                r,
                crate::model::revert_update_validator_act(
                    combined(old(self)@, old(store)@),
                    validator_address,
                    old_signing_key,
                    old_voting_key,
                    old_reward_address,
                    old_signal_data,
                ),
            ),
            final(self).wf() == old(self).wf(),
    {
        let v = match store.get_validator(validator_address) {
            None => {
                return Err(AccountError::NonExistentAddress);
            },
            Some(v) => v,
        };
        let v2 = Validator {
            signing_key: old_signing_key,
            voting_key: old_voting_key,
            reward_address: old_reward_address,
            signal_data: old_signal_data,
            ..v
        };
        self.put_and_refresh(store, validator_address, v2);
        Ok(())
    }

    /// Takes an active validator out of the active set; only the signing key
    /// holder may.
    pub fn deactivate_validator(
        &mut self,
        store: &mut StakingStore,
        validator_address: Address,
        signer: Address,
        block_number: u32,
    ) -> (r: Result<(), AccountError>)
        ensures
            steps(
                combined(old(self)@, old(store)@),
                combined(final(self)@, final(store)@),
                r,
                crate::model::deactivate_validator_act(
                    combined(old(self)@, old(store)@),
                    validator_address,
                    signer,
                    block_number,
                ),
            ),
            final(self).wf() == old(self).wf(),
    {
        let v = match store.get_validator(validator_address) {
            None => {
                return Err(AccountError::NonExistentAddress);
            },
            Some(v) => v,
        };
        if signer != v.signing_key {
            return Err(AccountError::InvalidForSender);
        }
        if !v.is_active() {
            return Err(AccountError::InvalidForState);
        }
        self.put_and_refresh(
            store,
            validator_address,
            Validator { inactive_from: Some(block_number), ..v },
        );
        Ok(())
    }

    /// Clears a validator's inactivity mark again.
    pub fn revert_deactivate_validator(
        &mut self,
        store: &mut StakingStore,
        validator_address: Address,
    ) -> (r: Result<(), AccountError>)
        ensures
            steps(
                combined(old(self)@, old(store)@),
                combined(final(self)@, final(store)@),
                r,
                crate::model::revert_deactivate_validator_act(
                    combined(old(self)@, old(store)@),
                    validator_address,
                ),
            ),
            final(self).wf() == old(self).wf(),
    {
        let v = match store.get_validator(validator_address) {
            None => {
                return Err(AccountError::NonExistentAddress);
            },
            Some(v) => v,
        };
        self.put_and_refresh(store, validator_address, Validator { inactive_from: None, ..v });
        Ok(())
    }

    /// Clears an inactive validator's inactivity mark; it rejoins the active
    /// set unless it is jailed or retired.
    pub fn reactivate_validator(
        &mut self,
        store: &mut StakingStore,
        validator_address: Address,
        signer: Address,
    ) -> (r: Result<Receipt, AccountError>)
        ensures
            steps_receipt(
                combined(old(self)@, old(store)@),
                combined(final(self)@, final(store)@),
                r,
                crate::model::reactivate_validator_act(
                    combined(old(self)@, old(store)@),
                    validator_address,
                    signer,
                ),
            ),
            final(self).wf() == old(self).wf(),
    {
        let v = match store.get_validator(validator_address) {
            None => {
                return Err(AccountError::NonExistentAddress);
            },
            Some(v) => v,
        };
        if signer != v.signing_key {
            return Err(AccountError::InvalidForSender);
        }
        if v.inactive_from.is_none() {
            return Err(AccountError::InvalidForState);
        }
        let receipt = Receipt::ReactivateValidator { old_inactive_from: v.inactive_from };
        self.put_and_refresh(store, validator_address, Validator { inactive_from: None, ..v });
        Ok(receipt)
    }

    /// Restores a validator's inactivity mark from a reactivation receipt.
    pub fn revert_reactivate_validator(
        &mut self,
        store: &mut StakingStore,
        validator_address: Address,
        old_inactive_from: Option<u32>,
    ) -> (r: Result<(), AccountError>)
        ensures
            steps(
                combined(old(self)@, old(store)@),
                combined(final(self)@, final(store)@),
                r,
                crate::model::revert_reactivate_validator_act(
                    combined(old(self)@, old(store)@),
                    validator_address,
                    old_inactive_from,
                ),
            ),
            final(self).wf() == old(self).wf(),
    {
        let v = match store.get_validator(validator_address) {
            None => {
                return Err(AccountError::NonExistentAddress);
            },
            Some(v) => v,
        };
        self.put_and_refresh(
            store,
            validator_address,
            Validator { inactive_from: old_inactive_from, ..v },
        );
        Ok(())
    }

    /// Marks an inactive validator as retired, starting its release window.
    pub fn retire_validator(
        &mut self,
        store: &mut StakingStore,
        validator_address: Address,
        block_number: u32,
    ) -> (r: Result<Receipt, AccountError>)
        ensures
            steps_receipt(
                combined(old(self)@, old(store)@),
                combined(final(self)@, final(store)@),
                r,
                crate::model::retire_validator_act(
                    combined(old(self)@, old(store)@),
                    validator_address,
                    block_number,
                ),
            ),
            final(self).wf() == old(self).wf(),
    {
        let v = match store.get_validator(validator_address) {
            None => {
                return Err(AccountError::NonExistentAddress);
            },
            Some(v) => v,
        };
        if v.inactive_from.is_none() || v.retired {
            return Err(AccountError::InvalidForState);
        }
        let receipt = Receipt::RetireValidator { old_inactive_from: v.inactive_from };
        let v2 = Validator {
            retired: true,
            retired_from: Some(block_number),
            inactive_from: None,
            ..v
        };
        self.put_and_refresh(store, validator_address, v2);
        Ok(receipt)
    }

    /// Undoes a retirement, restoring the inactivity mark from the receipt.
    pub fn revert_retire_validator(
        &mut self,
        store: &mut StakingStore,
        validator_address: Address,
        old_inactive_from: Option<u32>,
    ) -> (r: Result<(), AccountError>)
        ensures
            steps(
                combined(old(self)@, old(store)@),
                combined(final(self)@, final(store)@),
                r,
                crate::model::revert_retire_validator_act(
                    combined(old(self)@, old(store)@),
                    validator_address,
                    old_inactive_from,
                ),
            ),
            final(self).wf() == old(self).wf(),
    {
        let v = match store.get_validator(validator_address) {
            None => {
                return Err(AccountError::NonExistentAddress);
            },
            Some(v) => v,
        };
        let v2 = Validator {
            retired: false,
            retired_from: None,
            inactive_from: old_inactive_from,
            ..v
        };
        self.put_and_refresh(store, validator_address, v2);
        Ok(())
    }

    /// Deletes a released validator, draining its deposit; remaining stakers
    /// are parked under a tombstone. The receipt carries the full record.
    pub fn delete_validator(
        &mut self,
        store: &mut StakingStore,
        validator_address: Address,
        block_number: u32,
        total_value: Coin,
    ) -> (r: Result<Receipt, AccountError>)
        ensures
            steps_receipt(
                combined(old(self)@, old(store)@),
                combined(final(self)@, final(store)@),
                r,
                crate::model::delete_validator_act(
                    combined(old(self)@, old(store)@),
                    validator_address,
                    block_number,
                    total_value,
                ),
            ),
            final(self).wf() == old(self).wf(),
    {
        let v = match store.get_validator(validator_address) {
            None => {
                return Err(AccountError::NonExistentAddress);
            },
            Some(v) => v,
        };
        match v.can_delete_validator(total_value, block_number) {
            Ok(()) => {},
            Err(e) => {
                return Err(e);
            },
        }
        let balance = match coin_sub(self.balance, total_value) {
            Ok(b) => b,
            Err(e) => {
                return Err(e);
            },
        };
        let remaining_stake = match coin_sub(v.total_stake, v.deposit) {
            Ok(x) => x,
            Err(e) => {
                return Err(e);
            },
        };
        store.remove_validator(validator_address);
        self.active_validators.remove(&validator_address);
        if v.num_stakers > 0 {
            store.put_tombstone(
                validator_address,
                Tombstone { total_stake: remaining_stake, num_remaining_stakers: v.num_stakers },
            );
        }
        self.balance = balance;
        Ok(Receipt::DeleteValidator { validator: v })
    }

    /// Restores a deleted validator from its receipt, dropping the tombstone
    /// the deletion left and returning the drained value.
    pub fn revert_delete_validator(
        &mut self,
        store: &mut StakingStore,
        validator_address: Address,
        total_value: Coin,
        validator: Validator,
    ) -> (r: Result<(), AccountError>)
        ensures
            steps(
                combined(old(self)@, old(store)@),
                combined(final(self)@, final(store)@),
                r,
                crate::model::revert_delete_validator_act(
                    combined(old(self)@, old(store)@),
                    validator_address,
                    total_value,
                    validator,
                ),
            ),
            final(self).wf() == old(self).wf(),
    {
        let balance = match coin_add(self.balance, total_value) {
            Ok(b) => b,
            Err(e) => {
                return Err(e);
            },
        };
        self.put_and_refresh(store, validator_address, validator);
        if validator.num_stakers > 0 {
            store.remove_tombstone(validator_address);
        }
        self.balance = balance;
        Ok(())
    }
}

} // verus!

verus! {

impl StakingContract {
    /// Creates a staker delegating its whole value to a validator.
    pub fn create_staker(
        &mut self,
        store: &mut StakingStore,
        staker_address: Address,
        value: Coin,
        delegation: Option<Address>,
    ) -> (r: Result<(), AccountError>)
        ensures
            steps(
                combined(old(self)@, old(store)@),
                combined(final(self)@, final(store)@),
                r,
                crate::model::create_staker_act(
                    combined(old(self)@, old(store)@),
                    staker_address,
                    value,
                    delegation,
                ),
            ),
            final(self).wf() == old(self).wf(),
    {
        match store.get_staker(staker_address) {
            Some(_) => {
                return Err(AccountError::AlreadyExistentAddress);
            },
            None => {},
        }
        if value == 0 || value < crate::primitives::MIN_STAKE {
            return Err(AccountError::InvalidCoinValue);
        }
        let d = match delegation {
            None => {
                return Err(AccountError::InvalidForState);
            },
            Some(d) => d,
        };
        let balance = match coin_add(self.balance, value) {
            Ok(b) => b,
            Err(e) => {
                return Err(e);
            },
        };
        match self.attach_staker(store, d, value) {
            Ok(()) => {},
            Err(e) => {
                return Err(e);
            },
        }
        store.put_staker(
            staker_address,
            crate::records::Staker {
                active_balance: value,
                inactive_balance: 0,
                retired_balance: 0,
                delegation,
                inactive_from: None,
            },
        );
        self.balance = balance;
        Ok(())
    }

    /// Removes a created staker again and uncredits its delegation.
    pub fn revert_create_staker(
        &mut self,
        store: &mut StakingStore,
        staker_address: Address,
        value: Coin,
    ) -> (r: Result<(), AccountError>)
        ensures
            steps(
                combined(old(self)@, old(store)@),
                combined(final(self)@, final(store)@),
                r,
                crate::model::revert_create_staker_act(
                    combined(old(self)@, old(store)@),
                    staker_address,
                    value,
                ),
            ),
            final(self).wf() == old(self).wf(),
    {
        let s = match store.get_staker(staker_address) {
            None => {
                return Err(AccountError::NonExistentAddress);
            },
            Some(s) => s,
        };
        let balance = match coin_sub(self.balance, value) {
            Ok(b) => b,
            Err(e) => {
                return Err(e);
            },
        };
        match s.delegation {
            Some(d) => {
                match self.detach_staker(store, d, value) {
                    Ok(()) => {},
                    Err(e) => {
                        return Err(e);
                    },
                }
            },
            None => {},
        }
        store.remove_staker(staker_address);
        self.balance = balance;
        Ok(())
    }

    /// Adds the transaction value to a staker's active balance and to its
    /// delegated target.
    pub fn add_stake(
        &mut self,
        store: &mut StakingStore,
        staker_address: Address,
        value: Coin,
    ) -> (r: Result<(), AccountError>)
        ensures
            steps(
                combined(old(self)@, old(store)@),
                combined(final(self)@, final(store)@),
                r,
                crate::model::add_stake_act(
                    combined(old(self)@, old(store)@),
                    staker_address,
                    value,
                ),
            ),
            final(self).wf() == old(self).wf(),
    {
        let s = match store.get_staker(staker_address) {
            None => {
                return Err(AccountError::NonExistentAddress);
            },
            Some(s) => s,
        };
        if value == 0 {
            return Err(AccountError::InvalidCoinValue);
        }
        let d = match s.delegation {
            None => {
                return Err(AccountError::InvalidForState);
            },
            Some(d) => d,
        };
        let active_balance = match coin_add(s.active_balance, value) {
            Ok(a) => a,
            Err(e) => {
                return Err(e);
            },
        };
        match crate::records::Staker::enforce_min_stake(
            active_balance,
            s.inactive_balance,
            s.retired_balance,
        ) {
            Ok(()) => {},
            Err(e) => {
                return Err(e);
            },
        }
        let balance = match coin_add(self.balance, value) {
            Ok(b) => b,
            Err(e) => {
                return Err(e);
            },
        };
        match self.add_delegated_stake(store, d, value) {
            Ok(()) => {},
            Err(e) => {
                return Err(e);
            },
        }
        store.put_staker(staker_address, crate::records::Staker { active_balance, ..s });
        self.balance = balance;
        Ok(())
    }

    /// Takes the added value out of a staker's active balance again.
    pub fn revert_add_stake(
        &mut self,
        store: &mut StakingStore,
        staker_address: Address,
        value: Coin,
    ) -> (r: Result<(), AccountError>)
        ensures
            steps(
                combined(old(self)@, old(store)@),
                combined(final(self)@, final(store)@),
                r,
                crate::model::revert_add_stake_act(
                    combined(old(self)@, old(store)@),
                    staker_address,
                    value,
                ),
            ),
            final(self).wf() == old(self).wf(),
    {
        let s = match store.get_staker(staker_address) {
            None => {
                return Err(AccountError::NonExistentAddress);
            },
            Some(s) => s,
        };
        let active_balance = match coin_sub(s.active_balance, value) {
            Ok(a) => a,
            Err(e) => {
                return Err(e);
            },
        };
        let balance = match coin_sub(self.balance, value) {
            Ok(b) => b,
            Err(e) => {
                return Err(e);
            },
        };
        match s.delegation {
            Some(d) => {
                match self.remove_delegated_stake(store, d, value) {
                    Ok(()) => {},
                    Err(e) => {
                        return Err(e);
                    },
                }
            },
            None => {},
        }
        store.put_staker(staker_address, crate::records::Staker { active_balance, ..s });
        self.balance = balance;
        Ok(())
    }
}

} // verus!

verus! {

impl StakingContract {
    /// Moves a staker to a new delegation, optionally reactivating all
    /// inactive stake; the old target is uncredited, the new one credited.
    /// All checks happen before any write, so an error leaves the state
    /// untouched.
    pub fn update_staker(
        &mut self,
        store: &mut StakingStore,
        staker_address: Address,
        new_delegation: Option<Address>,
        reactivate_all_stake: bool,
    ) -> (r: Result<Receipt, AccountError>)
        ensures
            steps_receipt(
                combined(old(self)@, old(store)@),
                combined(final(self)@, final(store)@),
                r,
                crate::model::update_staker_act(
                    combined(old(self)@, old(store)@),
                    staker_address,
                    new_delegation,
                    reactivate_all_stake,
                ),
            ),
            final(self).wf() == old(self).wf(),
    {
        let s = match store.get_staker(staker_address) {
            None => {
                return Err(AccountError::NonExistentAddress);
            },
            Some(s) => s,
        };
        let receipt = Receipt::UpdateStaker {
            old_delegation: s.delegation,
            old_active_balance: s.active_balance,
            old_inactive_from: s.inactive_from,
        };
        let active_balance = if reactivate_all_stake {
            match coin_add(s.active_balance, s.inactive_balance) {
                Ok(a) => a,
                Err(e) => {
                    return Err(e);
                },
            }
        } else {
            s.active_balance
        };
        let inactive_balance: Coin = if reactivate_all_stake {
            0
        } else {
            s.inactive_balance
        };
        let inactive_from = if reactivate_all_stake {
            None
        } else {
            s.inactive_from
        };
        // Check the new target and remember its record.
        let target: Option<Validator> = match new_delegation {
            None => {
                if !(active_balance == 0 && inactive_balance == 0) {
                    return Err(AccountError::InvalidForState);
                }
                None
            },
            Some(d2) => match store.get_validator(d2) {
                None => {
                    return Err(AccountError::NonExistentAddress);
                },
                Some(v) => Some(v),
            },
        };
        // Plan the detach from the old delegation.
        let mut old_validator_write: Option<Validator> = None;
        let mut old_tombstone_write: Option<Tombstone> = None;
        let mut old_tombstone_remove: bool = false;
        match s.delegation {
            None => {},
            Some(d1) => {
                match store.get_validator(d1) {
                    Some(v1) => {
                        let total_stake = match coin_sub(v1.total_stake, s.active_balance) {
                            Ok(t) => t,
                            Err(e) => {
                                return Err(e);
                            },
                        };
                        if v1.num_stakers == 0 {
                            return Err(AccountError::InvalidCoinValue);
                        }
                        old_validator_write = Some(
                            Validator { total_stake, num_stakers: v1.num_stakers - 1, ..v1 },
                        );
                    },
                    None => {
                        match store.get_tombstone(d1) {
                            Some(t1) => {
                                let total_stake = match coin_sub(
                                    t1.total_stake,
                                    s.active_balance,
                                ) {
                                    Ok(t) => t,
                                    Err(e) => {
                                        return Err(e);
                                    },
                                };
                                if t1.num_remaining_stakers == 0 {
                                    return Err(AccountError::InvalidCoinValue);
                                }
                                if t1.num_remaining_stakers == 1 {
                                    old_tombstone_remove = true;
                                } else {
                                    old_tombstone_write = Some(
                                        Tombstone {
                                            total_stake,
                                            num_remaining_stakers: t1.num_remaining_stakers - 1,
                                        },
                                    );
                                }
                            },
                            None => {
                                return Err(AccountError::NonExistentAddress);
                            },
                        }
                    },
                }
            },
        }
        // Plan the attach at the new target, as it stands after the detach.
        let mut new_validator_write: Option<Validator> = None;
        match new_delegation {
            None => {},
            Some(d2) => {
                let same_target: bool = match s.delegation {
                    Some(d1) => d1 == d2,
                    None => false,
                };
                let vbase: Validator = if same_target {
                    match old_validator_write {
                        Some(v) => v,
                        None => {
                            // The planning phase settled this; Verus confirms
                            // the branch cannot be reached.
                            proof {
                                assert(false);
                            }
                            return Err(AccountError::NonExistentAddress);
                        },
                    }
                } else {
                    match target {
                        Some(v) => v,
                        None => {
                            // The planning phase settled this; Verus confirms
                            // the branch cannot be reached.
                            proof {
                                assert(false);
                            }
                            return Err(AccountError::NonExistentAddress);
                        },
                    }
                };
                let total_stake = match coin_add(vbase.total_stake, active_balance) {
                    Ok(t) => t,
                    Err(e) => {
                        return Err(e);
                    },
                };
                if vbase.num_stakers == u64::MAX {
                    return Err(AccountError::InvalidCoinValue);
                }
                new_validator_write = Some(
                    Validator { total_stake, num_stakers: vbase.num_stakers + 1, ..vbase },
                );
            },
        }
        // Apply: detach, rewrite the staker, attach.
        match s.delegation {
            None => {},
            Some(d1) => {
                match old_validator_write {
                    Some(vw) => {
                        self.put_and_refresh(store, d1, vw);
                    },
                    None => {
                        if old_tombstone_remove {
                            store.remove_tombstone(d1);
                        } else {
                            match old_tombstone_write {
                                Some(tw) => {
                                    store.put_tombstone(d1, tw);
                                },
                                None => {
                                    // The planning phase settled this; Verus
                                    // confirms the branch cannot be reached.
                                    proof {
                                        assert(false);
                                    }
                                },
                            }
                        }
                    },
                }
            },
        }
        store.put_staker(
            staker_address,
            crate::records::Staker {
                active_balance,
                inactive_balance,
                inactive_from,
                delegation: new_delegation,
                ..s
            },
        );
        match new_delegation {
            None => {},
            Some(d2) => {
                match new_validator_write {
                    Some(vw) => {
                        self.put_and_refresh(store, d2, vw);
                    },
                    None => {
                        proof {
                            assert(false);
                        }
                    },
                }
            },
        }
        Ok(receipt)
    }
}

} // verus!

verus! {

impl StakingContract {
    /// Undoes a delegation change: uncredits the current target, restores the
    /// prior balance split from the receipt and recredits the prior target,
    /// recreating its tombstone if the change had deleted it.
    pub fn revert_update_staker(
        &mut self,
        store: &mut StakingStore,
        staker_address: Address,
        old_delegation: Option<Address>,
        old_active_balance: Coin,
        old_inactive_from: Option<u32>,
    ) -> (r: Result<(), AccountError>)
        ensures
            steps(
                combined(old(self)@, old(store)@),
                combined(final(self)@, final(store)@),
                r,
                crate::model::revert_update_staker_act(
                    combined(old(self)@, old(store)@),
                    staker_address,
                    old_delegation,
                    old_active_balance,
                    old_inactive_from,
                ),
            ),
            final(self).wf() == old(self).wf(),
    {
        let s = match store.get_staker(staker_address) {
            None => {
                return Err(AccountError::NonExistentAddress);
            },
            Some(s) => s,
        };
        let total = match coin_add(s.active_balance, s.inactive_balance) {
            Ok(t) => t,
            Err(e) => {
                return Err(e);
            },
        };
        let old_inactive_balance = match coin_sub(total, old_active_balance) {
            Ok(i) => i,
            Err(e) => {
                return Err(e);
            },
        };
        // Plan the detach from the current delegation.
        let mut cur_validator_write: Option<Validator> = None;
        let mut cur_tombstone_write: Option<Tombstone> = None;
        let mut cur_tombstone_remove: bool = false;
        match s.delegation {
            None => {},
            Some(d1) => {
                match store.get_validator(d1) {
                    Some(v1) => {
                        let total_stake = match coin_sub(v1.total_stake, s.active_balance) {
                            Ok(t) => t,
                            Err(e) => {
                                return Err(e);
                            },
                        };
                        if v1.num_stakers == 0 {
                            return Err(AccountError::InvalidCoinValue);
                        }
                        cur_validator_write = Some(
                            Validator { total_stake, num_stakers: v1.num_stakers - 1, ..v1 },
                        );
                    },
                    None => {
                        match store.get_tombstone(d1) {
                            Some(t1) => {
                                let total_stake = match coin_sub(
                                    t1.total_stake,
                                    s.active_balance,
                                ) {
                                    Ok(t) => t,
                                    Err(e) => {
                                        return Err(e);
                                    },
                                };
                                if t1.num_remaining_stakers == 0 {
                                    return Err(AccountError::InvalidCoinValue);
                                }
                                if t1.num_remaining_stakers == 1 {
                                    cur_tombstone_remove = true;
                                } else {
                                    cur_tombstone_write = Some(
                                        Tombstone {
                                            total_stake,
                                            num_remaining_stakers: t1.num_remaining_stakers - 1,
                                        },
                                    );
                                }
                            },
                            None => {
                                return Err(AccountError::NonExistentAddress);
                            },
                        }
                    },
                }
            },
        }
        // Plan the reattach at the prior delegation, as it stands after the
        // detach.
        let mut old_validator_write: Option<Validator> = None;
        let mut old_tombstone_write: Option<Tombstone> = None;
        match old_delegation {
            None => {},
            Some(d0) => {
                let same: bool = match s.delegation {
                    Some(d1) => d1 == d0,
                    None => false,
                };
                // The validator record at the prior target after the detach,
                // if it is (still) a validator.
                let vbase: Option<Validator> = if same {
                    cur_validator_write
                } else {
                    store.get_validator(d0)
                };
                match vbase {
                    Some(v0) => {
                        let total_stake = match coin_add(v0.total_stake, old_active_balance) {
                            Ok(t) => t,
                            Err(e) => {
                                return Err(e);
                            },
                        };
                        if v0.num_stakers == u64::MAX {
                            return Err(AccountError::InvalidCoinValue);
                        }
                        old_validator_write = Some(
                            Validator { total_stake, num_stakers: v0.num_stakers + 1, ..v0 },
                        );
                    },
                    None => {
                        // The tombstone at the prior target after the detach.
                        let tbase: Option<Tombstone> = if same {
                            if cur_tombstone_remove {
                                None
                            } else {
                                cur_tombstone_write
                            }
                        } else {
                            store.get_tombstone(d0)
                        };
                        match tbase {
                            Some(t0) => {
                                let total_stake = match coin_add(
                                    t0.total_stake,
                                    old_active_balance,
                                ) {
                                    Ok(t) => t,
                                    Err(e) => {
                                        return Err(e);
                                    },
                                };
                                if t0.num_remaining_stakers == u64::MAX {
                                    return Err(AccountError::InvalidCoinValue);
                                }
                                old_tombstone_write = Some(
                                    Tombstone {
                                        total_stake,
                                        num_remaining_stakers: t0.num_remaining_stakers + 1,
                                    },
                                );
                            },
                            None => {
                                old_tombstone_write = Some(
                                    Tombstone {
                                        total_stake: old_active_balance,
                                        num_remaining_stakers: 1,
                                    },
                                );
                            },
                        }
                    },
                }
            },
        }
        // Apply: detach, restore the staker, reattach.
        match s.delegation {
            None => {},
            Some(d1) => {
                match cur_validator_write {
                    Some(vw) => {
                        self.put_and_refresh(store, d1, vw);
                    },
                    None => {
                        if cur_tombstone_remove {
                            store.remove_tombstone(d1);
                        } else {
                            match cur_tombstone_write {
                                Some(tw) => {
                                    store.put_tombstone(d1, tw);
                                },
                                None => {
                                    // The planning phase settled this; Verus
                                    // confirms the branch cannot be reached.
                                    proof {
                                        assert(false);
                                    }
                                },
                            }
                        }
                    },
                }
            },
        }
        store.put_staker(
            staker_address,
            crate::records::Staker {
                active_balance: old_active_balance,
                inactive_balance: old_inactive_balance,
                inactive_from: old_inactive_from,
                delegation: old_delegation,
                ..s
            },
        );
        match old_delegation {
            None => {},
            Some(d0) => {
                match old_validator_write {
                    Some(vw) => {
                        self.put_and_refresh(store, d0, vw);
                    },
                    None => {
                        match old_tombstone_write {
                            Some(tw) => {
                                store.put_tombstone(d0, tw);
                            },
                            None => {
                                proof {
                                    assert(false);
                                }
                            },
                        }
                    },
                }
            },
        }
        Ok(())
    }
}

} // verus!

verus! {

impl StakingContract {
    /// Rebalances a staker's funds between active and inactive to reach the
    /// given active balance; the delegated target follows the change.
    pub fn set_active_stake(
        &mut self,
        store: &mut StakingStore,
        staker_address: Address,
        new_active_balance: Coin,
        block_number: u32,
    ) -> (r: Result<Receipt, AccountError>)
        ensures
            steps_receipt(
                combined(old(self)@, old(store)@),
                combined(final(self)@, final(store)@),
                r,
                crate::model::set_active_stake_act(
                    combined(old(self)@, old(store)@),
                    staker_address,
                    new_active_balance,
                    block_number,
                ),
            ),
            final(self).wf() == old(self).wf(),
    {
        let s = match store.get_staker(staker_address) {
            None => {
                return Err(AccountError::NonExistentAddress);
            },
            Some(s) => s,
        };
        let total = match coin_add(s.active_balance, s.inactive_balance) {
            Ok(t) => t,
            Err(e) => {
                return Err(e);
            },
        };
        if new_active_balance > total {
            return Err(
                AccountError::InsufficientFunds { needed: new_active_balance, balance: total },
            );
        }
        let new_inactive_balance = total - new_active_balance;
        match crate::records::Staker::enforce_min_stake(
            new_active_balance,
            new_inactive_balance,
            s.retired_balance,
        ) {
            Ok(()) => {},
            Err(e) => {
                return Err(e);
            },
        }
        let receipt = Receipt::SetActiveStake {
            old_active_balance: s.active_balance,
            old_inactive_from: s.inactive_from,
        };
        match s.delegation {
            Some(d) => {
                if new_active_balance >= s.active_balance {
                    match self.add_delegated_stake(
                        store,
                        d,
                        new_active_balance - s.active_balance,
                    ) {
                        Ok(()) => {},
                        Err(e) => {
                            return Err(e);
                        },
                    }
                } else {
                    match self.remove_delegated_stake(
                        store,
                        d,
                        s.active_balance - new_active_balance,
                    ) {
                        Ok(()) => {},
                        Err(e) => {
                            return Err(e);
                        },
                    }
                }
            },
            None => {},
        }
        store.put_staker(
            staker_address,
            crate::records::Staker {
                active_balance: new_active_balance,
                inactive_balance: new_inactive_balance,
                inactive_from: if new_inactive_balance == 0 {
                    None
                } else {
                    Some(block_number)
                },
                ..s
            },
        );
        Ok(receipt)
    }

    /// Restores a staker's prior balance split from a rebalance receipt.
    pub fn revert_set_active_stake(
        &mut self,
        store: &mut StakingStore,
        staker_address: Address,
        old_active_balance: Coin,
        old_inactive_from: Option<u32>,
    ) -> (r: Result<(), AccountError>)
        ensures
            steps(
                combined(old(self)@, old(store)@),
                combined(final(self)@, final(store)@),
                r,
                crate::model::revert_set_active_stake_act(
                    combined(old(self)@, old(store)@),
                    staker_address,
                    old_active_balance,
                    old_inactive_from,
                ),
            ),
            final(self).wf() == old(self).wf(),
    {
        let s = match store.get_staker(staker_address) {
            None => {
                return Err(AccountError::NonExistentAddress);
            },
            Some(s) => s,
        };
        let total = match coin_add(s.active_balance, s.inactive_balance) {
            Ok(t) => t,
            Err(e) => {
                return Err(e);
            },
        };
        let old_inactive_balance = match coin_sub(total, old_active_balance) {
            Ok(i) => i,
            Err(e) => {
                return Err(e);
            },
        };
        match s.delegation {
            Some(d) => {
                if old_active_balance >= s.active_balance {
                    match self.add_delegated_stake(
                        store,
                        d,
                        old_active_balance - s.active_balance,
                    ) {
                        Ok(()) => {},
                        Err(e) => {
                            return Err(e);
                        },
                    }
                } else {
                    match self.remove_delegated_stake(
                        store,
                        d,
                        s.active_balance - old_active_balance,
                    ) {
                        Ok(()) => {},
                        Err(e) => {
                            return Err(e);
                        },
                    }
                }
            },
            None => {},
        }
        store.put_staker(
            staker_address,
            crate::records::Staker {
                active_balance: old_active_balance,
                inactive_balance: old_inactive_balance,
                inactive_from: old_inactive_from,
                ..s
            },
        );
        Ok(())
    }

    /// Moves a released inactive amount into the withdrawal queue.
    pub fn retire_stake(
        &mut self,
        store: &mut StakingStore,
        staker_address: Address,
        retire_stake: Coin,
        block_number: u32,
    ) -> (r: Result<Receipt, AccountError>)
        ensures
            steps_receipt(
                combined(old(self)@, old(store)@),
                combined(final(self)@, final(store)@),
                r,
                crate::model::retire_stake_act(
                    combined(old(self)@, old(store)@),
                    staker_address,
                    retire_stake,
                    block_number,
                ),
            ),
            final(self).wf() == old(self).wf(),
    {
        let s = match store.get_staker(staker_address) {
            None => {
                return Err(AccountError::NonExistentAddress);
            },
            Some(s) => s,
        };
        if retire_stake == 0 {
            return Err(AccountError::InvalidCoinValue);
        }
        let released: bool = match s.inactive_from {
            Some(inactive_from) => (inactive_from as u64) + (crate::primitives::RELEASE_WINDOW_BLOCKS
                as u64) <= block_number as u64,
            None => false,
        };
        if !released {
            return Err(AccountError::InvalidForState);
        }
        let inactive_balance = match coin_sub(s.inactive_balance, retire_stake) {
            Ok(i) => i,
            Err(e) => {
                return Err(e);
            },
        };
        let retired_balance = match coin_add(s.retired_balance, retire_stake) {
            Ok(x) => x,
            Err(e) => {
                return Err(e);
            },
        };
        match crate::records::Staker::enforce_min_stake(
            s.active_balance,
            inactive_balance,
            retired_balance,
        ) {
            Ok(()) => {},
            Err(e) => {
                return Err(e);
            },
        }
        let receipt = Receipt::RetireStake { old_inactive_from: s.inactive_from };
        store.put_staker(
            staker_address,
            crate::records::Staker {
                inactive_balance,
                retired_balance,
                inactive_from: if inactive_balance == 0 {
                    None
                } else {
                    s.inactive_from
                },
                ..s
            },
        );
        Ok(receipt)
    }

    /// Moves a retired amount back into the inactive balance.
    pub fn revert_retire_stake(
        &mut self,
        store: &mut StakingStore,
        staker_address: Address,
        retire_stake: Coin,
        old_inactive_from: Option<u32>,
    ) -> (r: Result<(), AccountError>)
        ensures
            steps(
                combined(old(self)@, old(store)@),
                combined(final(self)@, final(store)@),
                r,
                crate::model::revert_retire_stake_act(
                    combined(old(self)@, old(store)@),
                    staker_address,
                    retire_stake,
                    old_inactive_from,
                ),
            ),
            final(self).wf() == old(self).wf(),
    {
        let s = match store.get_staker(staker_address) {
            None => {
                return Err(AccountError::NonExistentAddress);
            },
            Some(s) => s,
        };
        let inactive_balance = match coin_add(s.inactive_balance, retire_stake) {
            Ok(i) => i,
            Err(e) => {
                return Err(e);
            },
        };
        let retired_balance = match coin_sub(s.retired_balance, retire_stake) {
            Ok(x) => x,
            Err(e) => {
                return Err(e);
            },
        };
        store.put_staker(
            staker_address,
            crate::records::Staker {
                inactive_balance,
                retired_balance,
                inactive_from: old_inactive_from,
                ..s
            },
        );
        Ok(())
    }

    /// Drains `amount` from a staker's retired balance; a staker whose last
    /// funds leave is deleted, reported by returning its delegation.
    pub fn remove_stake(
        &mut self,
        store: &mut StakingStore,
        staker_address: Address,
        amount: Coin,
    ) -> (r: Result<Option<Option<Address>>, AccountError>)
        ensures
            ({
                let act = crate::model::remove_stake_act(
                    combined(old(self)@, old(store)@),
                    staker_address,
                    amount,
                );
                match r {
                    Ok(deleted) => act == Ok::<_, AccountError>(
                        (combined(final(self)@, final(store)@), deleted),
                    ),
                    Err(e) => act == Err::<(StateModel, Option<Option<Address>>), _>(e) && combined(
                        final(self)@,
                        final(store)@,
                    ) == combined(old(self)@, old(store)@),
                }
            }),
            final(self).wf() == old(self).wf(),
    {
        let s = match store.get_staker(staker_address) {
            None => {
                return Err(AccountError::NonExistentAddress);
            },
            Some(s) => s,
        };
        let retired_balance = match coin_sub(s.retired_balance, amount) {
            Ok(x) => x,
            Err(e) => {
                return Err(e);
            },
        };
        match crate::records::Staker::enforce_min_stake(
            s.active_balance,
            s.inactive_balance,
            retired_balance,
        ) {
            Ok(()) => {},
            Err(e) => {
                return Err(e);
            },
        }
        let balance = match coin_sub(self.balance, amount) {
            Ok(b) => b,
            Err(e) => {
                return Err(e);
            },
        };
        if s.active_balance == 0 && s.inactive_balance == 0 && retired_balance == 0 {
            match s.delegation {
                Some(d) => {
                    match self.detach_staker(store, d, 0) {
                        Ok(()) => {},
                        Err(e) => {
                            return Err(e);
                        },
                    }
                },
                None => {},
            }
            store.remove_staker(staker_address);
            self.balance = balance;
            Ok(Some(s.delegation))
        } else {
            store.put_staker(staker_address, crate::records::Staker { retired_balance, ..s });
            self.balance = balance;
            Ok(None)
        }
    }

    /// Returns a removed amount to a staker's retired balance; a deleted
    /// staker is recreated from the receipt and counted at its prior
    /// delegation again.
    pub fn revert_remove_stake(
        &mut self,
        store: &mut StakingStore,
        staker_address: Address,
        amount: Coin,
        receipt: Option<Option<Address>>,
    ) -> (r: Result<(), AccountError>)
        ensures
            steps(
                combined(old(self)@, old(store)@),
                combined(final(self)@, final(store)@),
                r,
                crate::model::revert_remove_stake_act(
                    combined(old(self)@, old(store)@),
                    staker_address,
                    amount,
                    receipt,
                ),
            ),
            final(self).wf() == old(self).wf(),
    {
        let balance = match coin_add(self.balance, amount) {
            Ok(b) => b,
            Err(e) => {
                return Err(e);
            },
        };
        match receipt {
            Some(delegation) => {
                match delegation {
                    Some(d) => {
                        match self.reattach_staker(store, d, 0) {
                            Ok(()) => {},
                            Err(e) => {
                                return Err(e);
                            },
                        }
                    },
                    None => {},
                }
                store.put_staker(
                    staker_address,
                    crate::records::Staker {
                        active_balance: 0,
                        inactive_balance: 0,
                        retired_balance: amount,
                        delegation,
                        inactive_from: None,
                    },
                );
                self.balance = balance;
                Ok(())
            },
            None => {
                let s = match store.get_staker(staker_address) {
                    None => {
                        return Err(AccountError::NonExistentAddress);
                    },
                    Some(s) => s,
                };
                let retired_balance = match coin_add(s.retired_balance, amount) {
                    Ok(x) => x,
                    Err(e) => {
                        return Err(e);
                    },
                };
                store.put_staker(
                    staker_address,
                    crate::records::Staker { retired_balance, ..s },
                );
                self.balance = balance;
                Ok(())
            },
        }
    }
}

} // verus!

verus! {

impl StakingContract {
    /// The staking contract is never created by a transaction.
    pub fn create_new_contract() -> (r: Result<StakingContract, AccountError>)
        ensures
            r matches Err(e) && e == AccountError::InvalidForRecipient,
    {
        Err(AccountError::InvalidForRecipient)
    }

    /// The staking contract's creation is never reverted either.
    pub fn revert_new_contract(&mut self) -> (r: Result<(), AccountError>)
        ensures
            r matches Err(e) && e == AccountError::InvalidForRecipient,
            final(self)@ == old(self)@,
    {
        Err(AccountError::InvalidForRecipient)
    }

    /// The staking contract is never pruned.
    pub fn can_be_pruned(&self) -> (r: bool)
        ensures
            !r,
    {
        false
    }

    /// Commits one inherent: jail, penalize, or a finalization.
    pub fn commit_inherent(
        &mut self,
        inherent: &crate::transactions::Inherent,
        block_state: &crate::transactions::BlockState,
        store: &mut StakingStore,
        inherent_logger: &mut crate::transactions::TransactionLog,
    ) -> (r: Result<Option<Receipt>, AccountError>)
        requires
            old(self).wf(),
        ensures
            steps_commit(
                combined(old(self)@, old(store)@),
                combined(final(self)@, final(store)@),
                r,
                crate::model::commit_inherent_act(
                    combined(old(self)@, old(store)@),
                    *inherent,
                    block_state.number,
                ),
            ),
            final(self).wf(),
            final(inherent_logger)@ == match r {
                Ok(receipt) => old(inherent_logger)@ + crate::model::inherent_logs(
                    *inherent,
                    opt_receipt_view(receipt),
                ),
                Err(_) => old(inherent_logger)@,
            },
    {
        let ghost log0 = inherent_logger@;
        match *inherent {
            crate::transactions::Inherent::Jail {
                validator_address,
                offense_event_block,
                slot_range,
            } => {
                if !slot_range.is_wf() {
                    return Err(AccountError::InvalidForTarget);
                }
                let v = match store.get_validator(validator_address) {
                    None => {
                        return Err(AccountError::NonExistentAddress);
                    },
                    Some(v) => v,
                };
                let newly_deactivated = v.is_active();
                let v2 = Validator {
                    inactive_from: if newly_deactivated {
                        Some(block_state.number)
                    } else {
                        v.inactive_from
                    },
                    jailed_from: Some(block_state.number),
                    ..v
                };
                self.put_and_refresh(store, validator_address, v2);
                let (old_previous, old_current, old_jail_range) = self.punished_slots.register_jail(
                    validator_address,
                    slot_range,
                );
                let newly_jailed = v.jailed_from.is_none();
                let receipt = Receipt::Jail {
                    newly_deactivated,
                    old_previous_batch_punished_slots: old_previous,
                    old_current_batch_punished_slots: old_current,
                    old_jail_range,
                    old_jailed_from: v.jailed_from,
                };
                if newly_deactivated {
                    inherent_logger.push(
                        crate::transactions::Log::DeactivateValidator { validator_address },
                    );
                }
                inherent_logger.push(
                    crate::transactions::Log::Jail {
                        validator_address,
                        event_block: offense_event_block,
                        newly_jailed,
                    },
                );
                proof {
                    assert(inherent_logger@ =~= log0 + crate::model::inherent_logs(
                        *inherent,
                        opt_receipt_view(Some(receipt)),
                    ));
                }
                Ok(Some(receipt))
            },
            crate::transactions::Inherent::Penalize {
                validator_address,
                slot,
                offense_event_block,
            } => {
                if slot >= crate::primitives::SLOTS_PER_EPOCH {
                    return Err(AccountError::InvalidForTarget);
                }
                let v = match store.get_validator(validator_address) {
                    None => {
                        return Err(AccountError::NonExistentAddress);
                    },
                    Some(v) => v,
                };
                let newly_deactivated = v.is_active();
                if newly_deactivated {
                    self.put_and_refresh(
                        store,
                        validator_address,
                        Validator { inactive_from: Some(block_state.number), ..v },
                    );
                }
                let (newly_punished_previous_batch, newly_punished_current_batch) =
                    self.punished_slots.register_penalty(
                    slot,
                    offense_event_block,
                    block_state.number,
                );
                let receipt = Receipt::Penalize {
                    newly_deactivated,
                    newly_punished_previous_batch,
                    newly_punished_current_batch,
                };
                if newly_deactivated {
                    inherent_logger.push(
                        crate::transactions::Log::DeactivateValidator { validator_address },
                    );
                }
                inherent_logger.push(
                    crate::transactions::Log::Penalize {
                        validator_address,
                        offense_event_block,
                        slot,
                        newly_deactivated,
                    },
                );
                proof {
                    assert(inherent_logger@ =~= log0 + crate::model::inherent_logs(
                        *inherent,
                        opt_receipt_view(Some(receipt)),
                    ));
                }
                Ok(Some(receipt))
            },
            crate::transactions::Inherent::FinalizeBatch => {
                self.punished_slots.finalize_batch();
                proof {
                    assert(inherent_logger@ =~= log0 + crate::model::inherent_logs(
                        *inherent,
                        opt_receipt_view(None),
                    ));
                }
                Ok(None)
            },
            crate::transactions::Inherent::FinalizeEpoch => {
                self.punished_slots.finalize_epoch();
                proof {
                    assert(inherent_logger@ =~= log0 + crate::model::inherent_logs(
                        *inherent,
                        opt_receipt_view(None),
                    ));
                }
                Ok(None)
            },
            crate::transactions::Inherent::Reward { .. } => Err(AccountError::InvalidForTarget),
        }
    }

    /// Reverts one inherent. Finalizations and rewards always fail with
    /// `InvalidForTarget`: finalized batches and epochs are never rolled
    /// back.
    pub fn revert_inherent(
        &mut self,
        inherent: &crate::transactions::Inherent,
        block_state: &crate::transactions::BlockState,
        receipt: Option<Receipt>,
        store: &mut StakingStore,
        inherent_logger: &mut crate::transactions::TransactionLog,
    ) -> (r: Result<(), AccountError>)
        requires
            old(self).wf(),
        ensures
            steps(
                combined(old(self)@, old(store)@),
                combined(final(self)@, final(store)@),
                r,
                crate::model::revert_inherent_act(
                    combined(old(self)@, old(store)@),
                    *inherent,
                    opt_receipt_view(receipt),
                ),
            ),
            final(self).wf(),
            final(inherent_logger)@ == match r {
                Ok(_) => old(inherent_logger)@ + crate::model::inherent_logs(
                    *inherent,
                    opt_receipt_view(receipt),
                ).reverse(),
                Err(_) => old(inherent_logger)@,
            },
    {
        let ghost log0 = inherent_logger@;
        match *inherent {
            crate::transactions::Inherent::Jail {
                validator_address,
                offense_event_block,
                ..
            } => {
                match receipt {
                    Some(
                        Receipt::Jail {
                            newly_deactivated,
                            old_previous_batch_punished_slots,
                            old_current_batch_punished_slots,
                            old_jail_range,
                            old_jailed_from,
                        },
                    ) => {
                        if !old_previous_batch_punished_slots.covers_epoch()
                            || !old_current_batch_punished_slots.covers_epoch() {
                            return Err(AccountError::InvalidReceipt);
                        }
                        let v = match store.get_validator(validator_address) {
                            None => {
                                return Err(AccountError::NonExistentAddress);
                            },
                            Some(v) => v,
                        };
                        let v2 = Validator {
                            jailed_from: old_jailed_from,
                            inactive_from: if newly_deactivated {
                                None
                            } else {
                                v.inactive_from
                            },
                            ..v
                        };
                        self.put_and_refresh(store, validator_address, v2);
                        self.punished_slots.revert_register_jail(
                            validator_address,
                            old_previous_batch_punished_slots,
                            old_current_batch_punished_slots,
                            old_jail_range,
                        );
                        let newly_jailed = old_jailed_from.is_none();
                        inherent_logger.push(
                            crate::transactions::Log::Jail {
                                validator_address,
                                event_block: offense_event_block,
                                newly_jailed,
                            },
                        );
                        if newly_deactivated {
                            inherent_logger.push(
                                crate::transactions::Log::DeactivateValidator {
                                    validator_address,
                                },
                            );
                        }
                        proof {
                            assert(inherent_logger@ =~= log0 + crate::model::inherent_logs(
                                *inherent,
                                opt_receipt_view(receipt),
                            ).reverse());
                        }
                        Ok(())
                    },
                    _ => Err(AccountError::InvalidReceipt),
                }
            },
            crate::transactions::Inherent::Penalize {
                validator_address,
                slot,
                offense_event_block,
            } => {
                match receipt {
                    Some(
                        Receipt::Penalize {
                            newly_deactivated,
                            newly_punished_previous_batch,
                            newly_punished_current_batch,
                        },
                    ) => {
                        if slot >= crate::primitives::SLOTS_PER_EPOCH {
                            return Err(AccountError::InvalidForTarget);
                        }
                        let v: Option<Validator> = if newly_deactivated {
                            match store.get_validator(validator_address) {
                                None => {
                                    return Err(AccountError::NonExistentAddress);
                                },
                                Some(v) => Some(v),
                            }
                        } else {
                            None
                        };
                        self.punished_slots.revert_register_penalty(
                            slot,
                            newly_punished_previous_batch,
                            newly_punished_current_batch,
                        );
                        match v {
                            Some(v) => {
                                self.put_and_refresh(
                                    store,
                                    validator_address,
                                    Validator { inactive_from: None, ..v },
                                );
                            },
                            None => {},
                        }
                        inherent_logger.push(
                            crate::transactions::Log::Penalize {
                                validator_address,
                                offense_event_block,
                                slot,
                                newly_deactivated,
                            },
                        );
                        if newly_deactivated {
                            inherent_logger.push(
                                crate::transactions::Log::DeactivateValidator {
                                    validator_address,
                                },
                            );
                        }
                        proof {
                            assert(inherent_logger@ =~= log0 + crate::model::inherent_logs(
                                *inherent,
                                opt_receipt_view(receipt),
                            ).reverse());
                        }
                        Ok(())
                    },
                    _ => Err(AccountError::InvalidReceipt),
                }
            },
            crate::transactions::Inherent::FinalizeBatch => Err(AccountError::InvalidForTarget),
            crate::transactions::Inherent::FinalizeEpoch => Err(AccountError::InvalidForTarget),
            crate::transactions::Inherent::Reward { .. } => Err(AccountError::InvalidForTarget),
        }
    }
}

} // verus!

verus! {

impl StakingContract {
    /// Commits one incoming staking transaction, depositing `value` into the
    /// contract. Appends the body-specific event on success.
    pub fn commit_incoming_transaction(
        &mut self,
        data: &crate::transactions::IncomingStakingTransactionData,
        value: Coin,
        block_state: &crate::transactions::BlockState,
        store: &mut StakingStore,
        tx_logger: &mut crate::transactions::TransactionLog,
    ) -> (r: Result<Option<Receipt>, AccountError>)
        ensures
            steps_commit(
                combined(old(self)@, old(store)@),
                combined(final(self)@, final(store)@),
                r,
                crate::model::commit_incoming_act(
                    combined(old(self)@, old(store)@),
                    *data,
                    value,
                    block_state.number,
                ),
            ),
            final(self).wf() == old(self).wf(),
            final(tx_logger)@ == match r {
                Ok(_) => old(tx_logger)@ + crate::model::incoming_logs(*data, value),
                Err(_) => old(tx_logger)@,
            },
    {
        let ghost log0 = tx_logger@;
        let result: Result<Option<Receipt>, AccountError> = match *data {
            crate::transactions::IncomingStakingTransactionData::CreateValidator {
                validator_address,
                signing_key,
                voting_key,
                reward_address,
                signal_data,
            } => match self.create_validator(
                store,
                validator_address,
                signing_key,
                voting_key,
                reward_address,
                signal_data,
                value,
            ) {
                Ok(()) => Ok(None),
                Err(e) => Err(e),
            },
            crate::transactions::IncomingStakingTransactionData::UpdateValidator {
                validator_address,
                new_signing_key,
                new_voting_key,
                new_reward_address,
                new_signal_data,
            } => match self.update_validator(
                store,
                validator_address,
                new_signing_key,
                new_voting_key,
                new_reward_address,
                new_signal_data,
            ) {
                Ok(receipt) => Ok(Some(receipt)),
                Err(e) => Err(e),
            },
            crate::transactions::IncomingStakingTransactionData::DeactivateValidator {
                validator_address,
                signer,
            } => match self.deactivate_validator(store, validator_address, signer, block_state.number) {
                Ok(()) => Ok(None),
                Err(e) => Err(e),
            },
            crate::transactions::IncomingStakingTransactionData::ReactivateValidator {
                validator_address,
                signer,
            } => match self.reactivate_validator(store, validator_address, signer) {
                Ok(receipt) => Ok(Some(receipt)),
                Err(e) => Err(e),
            },
            crate::transactions::IncomingStakingTransactionData::RetireValidator {
                validator_address,
            } => match self.retire_validator(store, validator_address, block_state.number) {
                Ok(receipt) => Ok(Some(receipt)),
                Err(e) => Err(e),
            },
            crate::transactions::IncomingStakingTransactionData::CreateStaker {
                staker_address,
                delegation,
            } => match self.create_staker(store, staker_address, value, delegation) {
                Ok(()) => Ok(None),
                Err(e) => Err(e),
            },
            crate::transactions::IncomingStakingTransactionData::AddStake { staker_address } => match self.add_stake(
                store,
                staker_address,
                value,
            ) {
                Ok(()) => Ok(None),
                Err(e) => Err(e),
            },
            crate::transactions::IncomingStakingTransactionData::UpdateStaker {
                staker_address,
                new_delegation,
                reactivate_all_stake,
            } => match self.update_staker(store, staker_address, new_delegation, reactivate_all_stake) {
                Ok(receipt) => Ok(Some(receipt)),
                Err(e) => Err(e),
            },
            crate::transactions::IncomingStakingTransactionData::SetActiveStake {
                staker_address,
                new_active_balance,
            } => match self.set_active_stake(
                store,
                staker_address,
                new_active_balance,
                block_state.number,
            ) {
                Ok(receipt) => Ok(Some(receipt)),
                Err(e) => Err(e),
            },
            crate::transactions::IncomingStakingTransactionData::RetireStake {
                staker_address,
                retire_stake,
            } => match self.retire_stake(store, staker_address, retire_stake, block_state.number) {
                Ok(receipt) => Ok(Some(receipt)),
                Err(e) => Err(e),
            },
        };
        match result {
            Ok(receipt) => {
                let entry: crate::transactions::Log = match *data {
                    crate::transactions::IncomingStakingTransactionData::CreateValidator {
                        validator_address,
                        ..
                    } => crate::transactions::Log::CreateValidator { validator_address },
                    crate::transactions::IncomingStakingTransactionData::UpdateValidator {
                        validator_address,
                        ..
                    } => crate::transactions::Log::UpdateValidator { validator_address },
                    crate::transactions::IncomingStakingTransactionData::DeactivateValidator {
                        validator_address,
                        ..
                    } => crate::transactions::Log::DeactivateValidator { validator_address },
                    crate::transactions::IncomingStakingTransactionData::ReactivateValidator {
                        validator_address,
                        ..
                    } => crate::transactions::Log::ReactivateValidator { validator_address },
                    crate::transactions::IncomingStakingTransactionData::RetireValidator {
                        validator_address,
                    } => crate::transactions::Log::RetireValidator { validator_address },
                    crate::transactions::IncomingStakingTransactionData::CreateStaker {
                        staker_address,
                        ..
                    } => crate::transactions::Log::CreateStaker { staker_address, value },
                    crate::transactions::IncomingStakingTransactionData::AddStake {
                        staker_address,
                    } => crate::transactions::Log::AddStake { staker_address, value },
                    crate::transactions::IncomingStakingTransactionData::UpdateStaker {
                        staker_address,
                        ..
                    } => crate::transactions::Log::UpdateStaker { staker_address },
                    crate::transactions::IncomingStakingTransactionData::SetActiveStake {
                        staker_address,
                        new_active_balance,
                    } => crate::transactions::Log::SetActiveStake {
                        staker_address,
                        new_active_balance,
                    },
                    crate::transactions::IncomingStakingTransactionData::RetireStake {
                        staker_address,
                        retire_stake,
                    } => crate::transactions::Log::RetireStake {
                        staker_address,
                        value: retire_stake,
                    },
                };
                tx_logger.push(entry);
                proof {
                    assert(tx_logger@ =~= log0 + crate::model::incoming_logs(*data, value));
                }
                Ok(receipt)
            },
            Err(e) => Err(e),
        }
    }

    /// Reverts one incoming staking transaction with the receipt its commit
    /// returned. Appends the body-specific event on success.
    pub fn revert_incoming_transaction(
        &mut self,
        data: &crate::transactions::IncomingStakingTransactionData,
        value: Coin,
        block_state: &crate::transactions::BlockState,
        receipt: Option<Receipt>,
        store: &mut StakingStore,
        tx_logger: &mut crate::transactions::TransactionLog,
    ) -> (r: Result<(), AccountError>)
        ensures
            steps(
                combined(old(self)@, old(store)@),
                combined(final(self)@, final(store)@),
                r,
                crate::model::revert_incoming_act(
                    combined(old(self)@, old(store)@),
                    *data,
                    value,
                    opt_receipt_view(receipt),
                ),
            ),
            final(self).wf() == old(self).wf(),
            final(tx_logger)@ == match r {
                Ok(_) => old(tx_logger)@ + crate::model::incoming_logs(*data, value).reverse(),
                Err(_) => old(tx_logger)@,
            },
    {
        let ghost log0 = tx_logger@;
        let result: Result<(), AccountError> = match *data {
            crate::transactions::IncomingStakingTransactionData::CreateValidator {
                validator_address,
                ..
            } => self.revert_create_validator(store, validator_address, value),
            crate::transactions::IncomingStakingTransactionData::UpdateValidator {
                validator_address,
                ..
            } => match receipt {
                Some(
                    Receipt::UpdateValidator {
                        old_signing_key,
                        old_voting_key,
                        old_reward_address,
                        old_signal_data,
                    },
                ) => self.revert_update_validator(
                    store,
                    validator_address,
                    old_signing_key,
                    old_voting_key,
                    old_reward_address,
                    old_signal_data,
                ),
                _ => Err(AccountError::InvalidReceipt),
            },
            crate::transactions::IncomingStakingTransactionData::DeactivateValidator {
                validator_address,
                ..
            } => self.revert_deactivate_validator(store, validator_address),
            crate::transactions::IncomingStakingTransactionData::ReactivateValidator {
                validator_address,
                ..
            } => match receipt {
                Some(Receipt::ReactivateValidator { old_inactive_from }) => self.revert_reactivate_validator(
                    store,
                    validator_address,
                    old_inactive_from,
                ),
                _ => Err(AccountError::InvalidReceipt),
            },
            crate::transactions::IncomingStakingTransactionData::RetireValidator {
                validator_address,
            } => match receipt {
                Some(Receipt::RetireValidator { old_inactive_from }) => self.revert_retire_validator(
                    store,
                    validator_address,
                    old_inactive_from,
                ),
                _ => Err(AccountError::InvalidReceipt),
            },
            crate::transactions::IncomingStakingTransactionData::CreateStaker {
                staker_address,
                ..
            } => self.revert_create_staker(store, staker_address, value),
            crate::transactions::IncomingStakingTransactionData::AddStake { staker_address } => self.revert_add_stake(
                store,
                staker_address,
                value,
            ),
            crate::transactions::IncomingStakingTransactionData::UpdateStaker {
                staker_address,
                ..
            } => match receipt {
                Some(
                    Receipt::UpdateStaker {
                        old_delegation,
                        old_active_balance,
                        old_inactive_from,
                    },
                ) => self.revert_update_staker(
                    store,
                    staker_address,
                    old_delegation,
                    old_active_balance,
                    old_inactive_from,
                ),
                _ => Err(AccountError::InvalidReceipt),
            },
            crate::transactions::IncomingStakingTransactionData::SetActiveStake {
                staker_address,
                ..
            } => match receipt {
                Some(Receipt::SetActiveStake { old_active_balance, old_inactive_from }) => self.revert_set_active_stake(
                    store,
                    staker_address,
                    old_active_balance,
                    old_inactive_from,
                ),
                _ => Err(AccountError::InvalidReceipt),
            },
            crate::transactions::IncomingStakingTransactionData::RetireStake {
                staker_address,
                retire_stake,
            } => match receipt {
                Some(Receipt::RetireStake { old_inactive_from }) => self.revert_retire_stake(
                    store,
                    staker_address,
                    retire_stake,
                    old_inactive_from,
                ),
                _ => Err(AccountError::InvalidReceipt),
            },
        };
        match result {
            Ok(()) => {
                let entry: crate::transactions::Log = match *data {
                    crate::transactions::IncomingStakingTransactionData::CreateValidator {
                        validator_address,
                        ..
                    } => crate::transactions::Log::CreateValidator { validator_address },
                    crate::transactions::IncomingStakingTransactionData::UpdateValidator {
                        validator_address,
                        ..
                    } => crate::transactions::Log::UpdateValidator { validator_address },
                    crate::transactions::IncomingStakingTransactionData::DeactivateValidator {
                        validator_address,
                        ..
                    } => crate::transactions::Log::DeactivateValidator { validator_address },
                    crate::transactions::IncomingStakingTransactionData::ReactivateValidator {
                        validator_address,
                        ..
                    } => crate::transactions::Log::ReactivateValidator { validator_address },
                    crate::transactions::IncomingStakingTransactionData::RetireValidator {
                        validator_address,
                    } => crate::transactions::Log::RetireValidator { validator_address },
                    crate::transactions::IncomingStakingTransactionData::CreateStaker {
                        staker_address,
                        ..
                    } => crate::transactions::Log::CreateStaker { staker_address, value },
                    crate::transactions::IncomingStakingTransactionData::AddStake {
                        staker_address,
                    } => crate::transactions::Log::AddStake { staker_address, value },
                    crate::transactions::IncomingStakingTransactionData::UpdateStaker {
                        staker_address,
                        ..
                    } => crate::transactions::Log::UpdateStaker { staker_address },
                    crate::transactions::IncomingStakingTransactionData::SetActiveStake {
                        staker_address,
                        new_active_balance,
                    } => crate::transactions::Log::SetActiveStake {
                        staker_address,
                        new_active_balance,
                    },
                    crate::transactions::IncomingStakingTransactionData::RetireStake {
                        staker_address,
                        retire_stake,
                    } => crate::transactions::Log::RetireStake {
                        staker_address,
                        value: retire_stake,
                    },
                };
                tx_logger.push(entry);
                proof {
                    assert(tx_logger@ =~= log0 + crate::model::incoming_logs(
                        *data,
                        value,
                    ).reverse());
                }
                Ok(())
            },
            Err(e) => Err(e),
        }
    }
}

} // verus!

verus! {

impl StakingContract {
    /// Commits one outgoing staking transaction, draining `total_value` out
    /// of the contract. Appends the fee, transfer and body events on success.
    pub fn commit_outgoing_transaction(
        &mut self,
        data: &crate::transactions::OutgoingStakingTransactionData,
        total_value: Coin,
        fee: Coin,
        block_state: &crate::transactions::BlockState,
        store: &mut StakingStore,
        tx_logger: &mut crate::transactions::TransactionLog,
    ) -> (r: Result<Option<Receipt>, AccountError>)
        ensures
            steps_commit(
                combined(old(self)@, old(store)@),
                combined(final(self)@, final(store)@),
                r,
                crate::model::commit_outgoing_act(
                    combined(old(self)@, old(store)@),
                    *data,
                    total_value,
                    block_state.number,
                ),
            ),
            final(self).wf() == old(self).wf(),
            final(tx_logger)@ == match r {
                Ok(receipt) => old(tx_logger)@ + crate::model::outgoing_logs(
                    *data,
                    total_value,
                    fee,
                    opt_receipt_view(receipt),
                ),
                Err(_) => old(tx_logger)@,
            },
    {
        let ghost log0 = tx_logger@;
        match *data {
            crate::transactions::OutgoingStakingTransactionData::DeleteValidator {
                validator_address,
            } => {
                match self.delete_validator(store, validator_address, block_state.number, total_value) {
                    Ok(receipt) => {
                        tx_logger.push(crate::transactions::Log::PayFee { fee });
                        tx_logger.push(crate::transactions::Log::Transfer { amount: total_value });
                        tx_logger.push(
                            crate::transactions::Log::DeleteValidator { validator_address },
                        );
                        proof {
                            assert(tx_logger@ =~= log0 + crate::model::outgoing_logs(
                                *data,
                                total_value,
                                fee,
                                opt_receipt_view(Some(receipt)),
                            ));
                        }
                        Ok(Some(receipt))
                    },
                    Err(e) => Err(e),
                }
            },
            crate::transactions::OutgoingStakingTransactionData::RemoveStake { staker_address } => {
                let s = match store.get_staker(staker_address) {
                    None => {
                        return Err(AccountError::NonExistentAddress);
                    },
                    Some(s) => s,
                };
                match s.can_remove_stake(total_value) {
                    Ok(()) => {},
                    Err(e) => {
                        return Err(e);
                    },
                }
                match self.remove_stake(store, staker_address, total_value) {
                    Ok(deleted) => {
                        let receipt: Option<Receipt> = match deleted {
                            Some(delegation) => Some(Receipt::DeleteStaker { delegation }),
                            None => None,
                        };
                        tx_logger.push(crate::transactions::Log::PayFee { fee });
                        tx_logger.push(crate::transactions::Log::Transfer { amount: total_value });
                        tx_logger.push(
                            crate::transactions::Log::RemoveStake {
                                staker_address,
                                value: total_value,
                            },
                        );
                        match deleted {
                            Some(delegation) => {
                                tx_logger.push(
                                    crate::transactions::Log::DeleteStaker {
                                        staker_address,
                                        validator_address: delegation,
                                    },
                                );
                            },
                            None => {},
                        }
                        proof {
                            assert(tx_logger@ =~= log0 + crate::model::outgoing_logs(
                                *data,
                                total_value,
                                fee,
                                opt_receipt_view(receipt),
                            ));
                        }
                        Ok(receipt)
                    },
                    Err(e) => Err(e),
                }
            },
        }
    }

    /// Reverts one outgoing staking transaction with the receipt its commit
    /// returned. Appends the mirrored events on success.
    pub fn revert_outgoing_transaction(
        &mut self,
        data: &crate::transactions::OutgoingStakingTransactionData,
        total_value: Coin,
        fee: Coin,
        block_state: &crate::transactions::BlockState,
        receipt: Option<Receipt>,
        store: &mut StakingStore,
        tx_logger: &mut crate::transactions::TransactionLog,
    ) -> (r: Result<(), AccountError>)
        ensures
            steps(
                combined(old(self)@, old(store)@),
                combined(final(self)@, final(store)@),
                r,
                crate::model::revert_outgoing_act(
                    combined(old(self)@, old(store)@),
                    *data,
                    total_value,
                    opt_receipt_view(receipt),
                ),
            ),
            final(self).wf() == old(self).wf(),
            final(tx_logger)@ == match r {
                Ok(_) => old(tx_logger)@ + crate::model::outgoing_logs(
                    *data,
                    total_value,
                    fee,
                    opt_receipt_view(receipt),
                ).reverse(),
                Err(_) => old(tx_logger)@,
            },
    {
        let ghost log0 = tx_logger@;
        match *data {
            crate::transactions::OutgoingStakingTransactionData::DeleteValidator {
                validator_address,
            } => {
                match receipt {
                    Some(Receipt::DeleteValidator { validator }) => {
                        match self.revert_delete_validator(
                            store,
                            validator_address,
                            total_value,
                            validator,
                        ) {
                            Ok(()) => {
                                tx_logger.push(
                                    crate::transactions::Log::DeleteValidator {
                                        validator_address,
                                    },
                                );
                                tx_logger.push(
                                    crate::transactions::Log::Transfer { amount: total_value },
                                );
                                tx_logger.push(crate::transactions::Log::PayFee { fee });
                                proof {
                                    assert(tx_logger@ =~= log0 + crate::model::outgoing_logs(
                                        *data,
                                        total_value,
                                        fee,
                                        opt_receipt_view(receipt),
                                    ).reverse());
                                }
                                Ok(())
                            },
                            Err(e) => Err(e),
                        }
                    },
                    _ => Err(AccountError::InvalidReceipt),
                }
            },
            crate::transactions::OutgoingStakingTransactionData::RemoveStake { staker_address } => {
                let deleted: Option<Option<Address>> = match receipt {
                    None => None,
                    Some(Receipt::DeleteStaker { delegation }) => Some(delegation),
                    Some(_) => {
                        return Err(AccountError::InvalidReceipt);
                    },
                };
                match self.revert_remove_stake(store, staker_address, total_value, deleted) {
                    Ok(()) => {
                        match deleted {
                            Some(delegation) => {
                                tx_logger.push(
                                    crate::transactions::Log::DeleteStaker {
                                        staker_address,
                                        validator_address: delegation,
                                    },
                                );
                            },
                            None => {},
                        }
                        tx_logger.push(
                            crate::transactions::Log::RemoveStake {
                                staker_address,
                                value: total_value,
                            },
                        );
                        tx_logger.push(crate::transactions::Log::Transfer { amount: total_value });
                        tx_logger.push(crate::transactions::Log::PayFee { fee });
                        proof {
                            assert(tx_logger@ =~= log0 + crate::model::outgoing_logs(
                                *data,
                                total_value,
                                fee,
                                opt_receipt_view(receipt),
                            ).reverse());
                        }
                        Ok(())
                    },
                    Err(e) => Err(e),
                }
            },
        }
    }

    /// Commits one failed transaction: the outer transaction failed after its
    /// sender-side check, so the fee is still charged against the funds that
    /// backed it. Appends the fee-deduction events on success.
    pub fn commit_failed_transaction(
        &mut self,
        data: &crate::transactions::OutgoingStakingTransactionData,
        fee: Coin,
        block_state: &crate::transactions::BlockState,
        store: &mut StakingStore,
        tx_logger: &mut crate::transactions::TransactionLog,
    ) -> (r: Result<Option<Receipt>, AccountError>)
        ensures
            steps_commit(
                combined(old(self)@, old(store)@),
                combined(final(self)@, final(store)@),
                r,
                crate::model::commit_failed_act(
                    combined(old(self)@, old(store)@),
                    *data,
                    fee,
                    block_state.number,
                ),
            ),
            final(self).wf() == old(self).wf(),
            final(tx_logger)@ == match r {
                Ok(receipt) => old(tx_logger)@ + crate::model::failed_logs(
                    *data,
                    fee,
                    opt_receipt_view(receipt),
                ),
                Err(_) => old(tx_logger)@,
            },
    {
        let ghost log0 = tx_logger@;
        match *data {
            crate::transactions::OutgoingStakingTransactionData::DeleteValidator {
                validator_address,
            } => {
                let v = match store.get_validator(validator_address) {
                    None => {
                        return Err(AccountError::NonExistentAddress);
                    },
                    Some(v) => v,
                };
                let new_deposit = match coin_sub(v.deposit, fee) {
                    Ok(d) => d,
                    Err(e) => {
                        return Err(e);
                    },
                };
                match v.enforce_retire_and_release(block_state.number) {
                    Ok(()) => {},
                    Err(e) => {
                        return Err(e);
                    },
                }
                if new_deposit == 0 {
                    match self.delete_validator(store, validator_address, block_state.number, fee) {
                        Ok(receipt) => {
                            tx_logger.push(crate::transactions::Log::PayFee { fee });
                            tx_logger.push(
                                crate::transactions::Log::ValidatorFeeDeduction {
                                    validator_address,
                                    fee,
                                },
                            );
                            tx_logger.push(
                                crate::transactions::Log::DeleteValidator { validator_address },
                            );
                            proof {
                                assert(tx_logger@ =~= log0 + crate::model::failed_logs(
                                    *data,
                                    fee,
                                    opt_receipt_view(Some(receipt)),
                                ));
                            }
                            Ok(Some(receipt))
                        },
                        Err(e) => Err(e),
                    }
                } else {
                    let total_stake = match coin_sub(v.total_stake, fee) {
                        Ok(t) => t,
                        Err(e) => {
                            return Err(e);
                        },
                    };
                    let balance = match coin_sub(self.balance, fee) {
                        Ok(b) => b,
                        Err(e) => {
                            return Err(e);
                        },
                    };
                    self.put_and_refresh(
                        store,
                        validator_address,
                        Validator { deposit: new_deposit, total_stake, ..v },
                    );
                    self.balance = balance;
                    tx_logger.push(crate::transactions::Log::PayFee { fee });
                    tx_logger.push(
                        crate::transactions::Log::ValidatorFeeDeduction { validator_address, fee },
                    );
                    proof {
                        assert(tx_logger@ =~= log0 + crate::model::failed_logs(
                            *data,
                            fee,
                            opt_receipt_view(None),
                        ));
                    }
                    Ok(None)
                }
            },
            crate::transactions::OutgoingStakingTransactionData::RemoveStake { staker_address } => {
                match self.remove_stake(store, staker_address, fee) {
                    Ok(deleted) => {
                        let receipt: Option<Receipt> = match deleted {
                            Some(delegation) => Some(Receipt::DeleteStaker { delegation }),
                            None => None,
                        };
                        tx_logger.push(crate::transactions::Log::PayFee { fee });
                        tx_logger.push(
                            crate::transactions::Log::StakerFeeDeduction { staker_address, fee },
                        );
                        match deleted {
                            Some(delegation) => {
                                tx_logger.push(
                                    crate::transactions::Log::DeleteStaker {
                                        staker_address,
                                        validator_address: delegation,
                                    },
                                );
                            },
                            None => {},
                        }
                        proof {
                            assert(tx_logger@ =~= log0 + crate::model::failed_logs(
                                *data,
                                fee,
                                opt_receipt_view(receipt),
                            ));
                        }
                        Ok(receipt)
                    },
                    Err(e) => Err(e),
                }
            },
        }
    }

    /// Reverts one failed transaction, returning the charged fee to the funds
    /// it was taken from and restoring a record the fee had emptied.
    pub fn revert_failed_transaction(
        &mut self,
        data: &crate::transactions::OutgoingStakingTransactionData,
        fee: Coin,
        block_state: &crate::transactions::BlockState,
        receipt: Option<Receipt>,
        store: &mut StakingStore,
        tx_logger: &mut crate::transactions::TransactionLog,
    ) -> (r: Result<(), AccountError>)
        ensures
            steps(
                combined(old(self)@, old(store)@),
                combined(final(self)@, final(store)@),
                r,
                crate::model::revert_failed_act(
                    combined(old(self)@, old(store)@),
                    *data,
                    fee,
                    opt_receipt_view(receipt),
                ),
            ),
            final(self).wf() == old(self).wf(),
            final(tx_logger)@ == match r {
                Ok(_) => old(tx_logger)@ + crate::model::failed_logs(
                    *data,
                    fee,
                    opt_receipt_view(receipt),
                ).reverse(),
                Err(_) => old(tx_logger)@,
            },
    {
        let ghost log0 = tx_logger@;
        match *data {
            crate::transactions::OutgoingStakingTransactionData::DeleteValidator {
                validator_address,
            } => {
                let receipt_validator: Option<Validator> = match receipt {
                    Some(Receipt::DeleteValidator { validator }) => Some(validator),
                    _ => None,
                };
                match store.get_validator(validator_address) {
                    Some(v) => {
                        let deposit = match coin_add(v.deposit, fee) {
                            Ok(d) => d,
                            Err(e) => {
                                return Err(e);
                            },
                        };
                        let total_stake = match coin_add(v.total_stake, fee) {
                            Ok(t) => t,
                            Err(e) => {
                                return Err(e);
                            },
                        };
                        let balance = match coin_add(self.balance, fee) {
                            Ok(b) => b,
                            Err(e) => {
                                return Err(e);
                            },
                        };
                        self.put_and_refresh(
                            store,
                            validator_address,
                            Validator { deposit, total_stake, ..v },
                        );
                        self.balance = balance;
                    },
                    None => {
                        // The fee emptied the deposit and the commit deleted
                        // the validator; its receipt carries the pre-fee
                        // record, so restoring it while returning the fee
                        // undoes everything.
                        let validator = match receipt_validator {
                            Some(validator) => validator,
                            None => {
                                return Err(AccountError::InvalidReceipt);
                            },
                        };
                        match self.revert_delete_validator(
                            store,
                            validator_address,
                            fee,
                            validator,
                        ) {
                            Ok(()) => {},
                            Err(e) => {
                                return Err(e);
                            },
                        }
                    },
                }
                if receipt_validator.is_some() {
                    tx_logger.push(
                        crate::transactions::Log::DeleteValidator { validator_address },
                    );
                }
                tx_logger.push(
                    crate::transactions::Log::ValidatorFeeDeduction { validator_address, fee },
                );
                tx_logger.push(crate::transactions::Log::PayFee { fee });
                proof {
                    assert(tx_logger@ =~= log0 + crate::model::failed_logs(
                        *data,
                        fee,
                        opt_receipt_view(receipt),
                    ).reverse());
                }
                Ok(())
            },
            crate::transactions::OutgoingStakingTransactionData::RemoveStake { staker_address } => {
                let deleted: Option<Option<Address>> = match receipt {
                    None => None,
                    Some(Receipt::DeleteStaker { delegation }) => Some(delegation),
                    Some(_) => {
                        return Err(AccountError::InvalidReceipt);
                    },
                };
                match self.revert_remove_stake(store, staker_address, fee, deleted) {
                    Ok(()) => {
                        match deleted {
                            Some(delegation) => {
                                tx_logger.push(
                                    crate::transactions::Log::DeleteStaker {
                                        staker_address,
                                        validator_address: delegation,
                                    },
                                );
                            },
                            None => {},
                        }
                        tx_logger.push(
                            crate::transactions::Log::StakerFeeDeduction { staker_address, fee },
                        );
                        tx_logger.push(crate::transactions::Log::PayFee { fee });
                        proof {
                            assert(tx_logger@ =~= log0 + crate::model::failed_logs(
                                *data,
                                fee,
                                opt_receipt_view(receipt),
                            ).reverse());
                        }
                        Ok(())
                    },
                    Err(e) => Err(e),
                }
            },
        }
    }

    /// Checks an outgoing transaction against the current records and
    /// reserves its total value for block assembly.
    pub fn reserve_balance(
        &self,
        data: &crate::transactions::OutgoingStakingTransactionData,
        total_value: Coin,
        fee: Coin,
        reserved_balance: &mut crate::reserved::ReservedBalance,
        block_state: &crate::transactions::BlockState,
        store: &StakingStore,
    ) -> (r: Result<(), AccountError>)
        ensures
            ({
                let act = crate::model::reserve_balance_act(
                    combined(self@, store@),
                    *data,
                    total_value,
                    fee,
                    old(reserved_balance)@,
                    block_state.number,
                );
                match r {
                    Ok(_) => act == Ok::<Map<Address, Coin>, AccountError>(
                        final(reserved_balance)@,
                    ),
                    Err(e) => act == Err::<Map<Address, Coin>, AccountError>(e)
                        && final(reserved_balance)@ == old(reserved_balance)@,
                }
            }),
            old(reserved_balance).wf() ==> final(reserved_balance).wf(),
    {
        match *data {
            crate::transactions::OutgoingStakingTransactionData::DeleteValidator {
                validator_address,
            } => {
                let v = match store.get_validator(validator_address) {
                    None => {
                        return Err(AccountError::NonExistentAddress);
                    },
                    Some(v) => v,
                };
                match v.can_delete_validator(total_value, block_state.number) {
                    Ok(()) => {},
                    Err(e) => {
                        return Err(e);
                    },
                }
                reserved_balance.reserve_for(validator_address, v.deposit, total_value)
            },
            crate::transactions::OutgoingStakingTransactionData::RemoveStake { staker_address } => {
                let s = match store.get_staker(staker_address) {
                    None => {
                        return Err(AccountError::NonExistentAddress);
                    },
                    Some(s) => s,
                };
                match s.can_remove_stake(total_value) {
                    Ok(()) => {},
                    Err(e) => {
                        return Err(e);
                    },
                }
                let after_fee = match coin_sub(s.retired_balance, fee) {
                    Ok(x) => x,
                    Err(e) => {
                        return Err(e);
                    },
                };
                match crate::records::Staker::enforce_min_stake(
                    s.active_balance,
                    s.inactive_balance,
                    after_fee,
                ) {
                    Ok(()) => {},
                    Err(e) => {
                        return Err(e);
                    },
                }
                reserved_balance.reserve_for(staker_address, s.retired_balance, total_value)
            },
        }
    }

    /// Releases the reservation an outgoing transaction held; the exact
    /// inverse of [`StakingContract::reserve_balance`]. Never fails.
    pub fn release_balance(
        &self,
        data: &crate::transactions::OutgoingStakingTransactionData,
        total_value: Coin,
        reserved_balance: &mut crate::reserved::ReservedBalance,
        store: &StakingStore,
    ) -> (r: Result<(), AccountError>)
        ensures
            r is Ok,
            final(reserved_balance)@ == crate::model::release_balance_act(
                *data,
                total_value,
                old(reserved_balance)@,
            ),
            old(reserved_balance).wf() ==> final(reserved_balance).wf(),
    {
        match *data {
            crate::transactions::OutgoingStakingTransactionData::DeleteValidator {
                validator_address,
            } => {
                reserved_balance.release_for(validator_address, total_value);
            },
            crate::transactions::OutgoingStakingTransactionData::RemoveStake { staker_address } => {
                reserved_balance.release_for(staker_address, total_value);
            },
        }
        Ok(())
    }
}

} // verus!
