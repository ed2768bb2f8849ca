//! The mathematical model of the staking contract and the transition taken by
//! every commit and revert. Each executable handler is proved to step its
//! state exactly as the corresponding transition function here says.

use vstd::prelude::*;

use crate::bitset::{empty_slots, with_range};
use crate::primitives::{
    map_get, spec_coin_add, spec_coin_sub, AccountError, Address, Coin, MIN_STAKE,
    RELEASE_WINDOW_BLOCKS, SLOTS_PER_EPOCH, VALIDATOR_DEPOSIT,
};
use crate::punished::{register_penalty_model, PunishedModel};
use crate::records::{min_stake_ok, SlotRange, Staker, Tombstone, Validator};
use crate::transactions::{
    IncomingStakingTransactionData, Inherent, Log, OutgoingStakingTransactionData, ReceiptModel,
};

verus! {

/// The whole observable state of the staking contract: the aggregate fields
/// plus the contents of the data store.
#[verifier::ext_equal]
pub struct StateModel {
    /// Sum of all funds the contract manages.
    pub balance: Coin,
    /// Total stake of each validator that is currently active.
    pub active_validators: Map<Address, Coin>,
    /// Punishment bookkeeping.
    pub punished: PunishedModel,
    /// All validator records.
    pub validators: Map<Address, Validator>,
    /// All staker records.
    pub stakers: Map<Address, Staker>,
    /// All tombstone records.
    pub tombstones: Map<Address, Tombstone>,
}

/// The active-validators entry for `address` after its record became `v`:
/// present with the validator's total stake exactly when the validator is
/// active.
pub open spec fn refreshed_active(
    active: Map<Address, Coin>,
    address: Address,
    v: Validator,
) -> Map<Address, Coin> {
    if v.active() {
        active.insert(address, v.total_stake)
    } else {
        active.remove(address)
    }
}

/// `m` with the validator at `address` written and the active set refreshed.
pub open spec fn with_validator(m: StateModel, address: Address, v: Validator) -> StateModel {
    StateModel {
        validators: m.validators.insert(address, v),
        active_validators: refreshed_active(m.active_validators, address, v),
        ..m
    }
}

/// Credits `amount` of newly delegated stake to `delegation` and counts one
/// more staker there. New delegations may only target a validator.
pub open spec fn staker_attached(m: StateModel, delegation: Address, amount: Coin) -> Result<
    StateModel,
    AccountError,
> {
    if m.validators.contains_key(delegation) {
        let v = m.validators[delegation];
        match spec_coin_add(v.total_stake, amount) {
            Ok(total_stake) => if v.num_stakers == u64::MAX {
                Err(AccountError::InvalidCoinValue)
            } else {
                Ok(
                    with_validator(
                        m,
                        delegation,
                        Validator {
                            total_stake,
                            num_stakers: (v.num_stakers + 1) as u64,
                            ..v
                        },
                    ),
                )
            },
            Err(e) => Err(e),
        }
    } else {
        Err(AccountError::NonExistentAddress)
    }
}

/// Like [`staker_attached`], but used on revert: the prior delegation may by
/// now be a tombstone, or already gone, in which case the tombstone is
/// recreated.
pub open spec fn staker_reattached(m: StateModel, delegation: Address, amount: Coin) -> Result<
    StateModel,
    AccountError,
> {
    if m.validators.contains_key(delegation) {
        let v = m.validators[delegation];
        match spec_coin_add(v.total_stake, amount) {
            Ok(total_stake) => if v.num_stakers == u64::MAX {
                Err(AccountError::InvalidCoinValue)
            } else {
                Ok(
                    with_validator(
                        m,
                        delegation,
                        Validator {
                            total_stake,
                            num_stakers: (v.num_stakers + 1) as u64,
                            ..v
                        },
                    ),
                )
            },
            Err(e) => Err(e),
        }
    } else if m.tombstones.contains_key(delegation) {
        let t = m.tombstones[delegation];
        match spec_coin_add(t.total_stake, amount) {
            Ok(total_stake) => if t.num_remaining_stakers == u64::MAX {
                Err(AccountError::InvalidCoinValue)
            } else {
                Ok(
                    StateModel {
                        tombstones: m.tombstones.insert(
                            delegation,
                            Tombstone {
                                total_stake,
                                num_remaining_stakers: (t.num_remaining_stakers + 1) as u64,
                            },
                        ),
                        ..m
                    },
                )
            },
            Err(e) => Err(e),
        }
    } else {
        Ok(
            StateModel {
                tombstones: m.tombstones.insert(
                    delegation,
                    Tombstone { total_stake: amount, num_remaining_stakers: 1 },
                ),
                ..m
            },
        )
    }
}

/// Removes `amount` of delegated stake and one staker from `delegation`,
/// which may be a validator or a tombstone; a tombstone whose last staker
/// leaves is deleted.
pub open spec fn staker_detached(m: StateModel, delegation: Address, amount: Coin) -> Result<
    StateModel,
    AccountError,
> {
    if m.validators.contains_key(delegation) {
        let v = m.validators[delegation];
        match spec_coin_sub(v.total_stake, amount) {
            Ok(total_stake) => if v.num_stakers == 0 {
                Err(AccountError::InvalidCoinValue)
            } else {
                Ok(
                    with_validator(
                        m,
                        delegation,
                        Validator {
                            total_stake,
                            num_stakers: (v.num_stakers - 1) as u64,
                            ..v
                        },
                    ),
                )
            },
            Err(e) => Err(e),
        }
    } else if m.tombstones.contains_key(delegation) {
        let t = m.tombstones[delegation];
        match spec_coin_sub(t.total_stake, amount) {
            Ok(total_stake) => if t.num_remaining_stakers == 0 {
                Err(AccountError::InvalidCoinValue)
            } else if t.num_remaining_stakers == 1 {
                Ok(StateModel { tombstones: m.tombstones.remove(delegation), ..m })
            } else {
                Ok(
                    StateModel {
                        tombstones: m.tombstones.insert(
                            delegation,
                            Tombstone {
                                total_stake,
                                num_remaining_stakers: (t.num_remaining_stakers - 1) as u64,
                            },
                        ),
                        ..m
                    },
                )
            },
            Err(e) => Err(e),
        }
    } else {
        Err(AccountError::NonExistentAddress)
    }
}

/// Adds `amount` of stake to `delegation` (validator or tombstone) without
/// changing its staker count.
pub open spec fn stake_added(m: StateModel, delegation: Address, amount: Coin) -> Result<
    StateModel,
    AccountError,
> {
    if m.validators.contains_key(delegation) {
        let v = m.validators[delegation];
        match spec_coin_add(v.total_stake, amount) {
            Ok(total_stake) => Ok(
                with_validator(m, delegation, Validator { total_stake, ..v }),
            ),
            Err(e) => Err(e),
        }
    } else if m.tombstones.contains_key(delegation) {
        let t = m.tombstones[delegation];
        match spec_coin_add(t.total_stake, amount) {
            Ok(total_stake) => Ok(
                StateModel {
                    tombstones: m.tombstones.insert(delegation, Tombstone { total_stake, ..t }),
                    ..m
                },
            ),
            Err(e) => Err(e),
        }
    } else {
        Err(AccountError::NonExistentAddress)
    }
}

/// Removes `amount` of stake from `delegation` (validator or tombstone)
/// without changing its staker count.
pub open spec fn stake_removed(m: StateModel, delegation: Address, amount: Coin) -> Result<
    StateModel,
    AccountError,
> {
    if m.validators.contains_key(delegation) {
        let v = m.validators[delegation];
        match spec_coin_sub(v.total_stake, amount) {
            Ok(total_stake) => Ok(
                with_validator(m, delegation, Validator { total_stake, ..v }),
            ),
            Err(e) => Err(e),
        }
    } else if m.tombstones.contains_key(delegation) {
        let t = m.tombstones[delegation];
        match spec_coin_sub(t.total_stake, amount) {
            Ok(total_stake) => Ok(
                StateModel {
                    tombstones: m.tombstones.insert(delegation, Tombstone { total_stake, ..t }),
                    ..m
                },
            ),
            Err(e) => Err(e),
        }
    } else {
        Err(AccountError::NonExistentAddress)
    }
}

// ---------------------------------------------------------------------------
// Validator transactions
// ---------------------------------------------------------------------------

/// Creating a validator: the address must be free, the value must be the
/// protocol deposit, and the new validator starts active.
pub open spec fn create_validator_act(
    m: StateModel,
    validator_address: Address,
    signing_key: Address,
    voting_key: u64,
    reward_address: Address,
    signal_data: Option<u64>,
    value: Coin,
) -> Result<StateModel, AccountError> {
    if value != VALIDATOR_DEPOSIT {
        Err(AccountError::InvalidCoinValue)
    } else if m.validators.contains_key(validator_address) || m.tombstones.contains_key(
        validator_address,
    ) {
        Err(AccountError::AlreadyExistentAddress)
    } else {
        match spec_coin_add(m.balance, value) {
            Ok(balance) => {
                let v = Validator {
                    signing_key,
                    voting_key,
                    reward_address,
                    signal_data,
                    deposit: value,
                    total_stake: value,
                    num_stakers: 0,
                    inactive_from: None,
                    jailed_from: None,
                    retired: false,
                    retired_from: None,
                };
                Ok(StateModel { balance, ..with_validator(m, validator_address, v) })
            },
            Err(e) => Err(e),
        }
    }
}

/// Reverting a validator creation removes the record and the deposit.
pub open spec fn revert_create_validator_act(
    m: StateModel,
    validator_address: Address,
    value: Coin,
) -> Result<StateModel, AccountError> {
    if !m.validators.contains_key(validator_address) {
        Err(AccountError::NonExistentAddress)
    } else {
        match spec_coin_sub(m.balance, value) {
            Ok(balance) => Ok(
                StateModel {
                    balance,
                    validators: m.validators.remove(validator_address),
                    active_validators: m.active_validators.remove(validator_address),
                    ..m
                },
            ),
            Err(e) => Err(e),
        }
    }
}

/// Updating a validator overwrites exactly the provided fields and reports
/// the prior values in the receipt.
pub open spec fn update_validator_act(
    m: StateModel,
    validator_address: Address,
    new_signing_key: Option<Address>,
    new_voting_key: Option<u64>,
    new_reward_address: Option<Address>,
    new_signal_data: Option<Option<u64>>,
) -> Result<(StateModel, ReceiptModel), AccountError> {
    if !m.validators.contains_key(validator_address) {
        Err(AccountError::NonExistentAddress)
    } else {
        let v = m.validators[validator_address];
        let receipt = ReceiptModel::UpdateValidator {
            old_signing_key: v.signing_key,
            old_voting_key: v.voting_key,
            old_reward_address: v.reward_address,
            old_signal_data: v.signal_data,
        };
        let v2 = Validator {
            signing_key: match new_signing_key {
                Some(k) => k,
                None => v.signing_key,
            },
            voting_key: match new_voting_key {
                Some(k) => k,
                None => v.voting_key,
            },
            reward_address: match new_reward_address {
                Some(a) => a,
                None => v.reward_address,
            },
            signal_data: match new_signal_data {
                Some(d) => d,
                None => v.signal_data,
            },
            ..v
        };
        Ok((with_validator(m, validator_address, v2), receipt))
    }
}

/// Reverting an update restores the prior field values from the receipt.
pub open spec fn revert_update_validator_act(
    m: StateModel,
    validator_address: Address,
    old_signing_key: Address,
    old_voting_key: u64,
    old_reward_address: Address,
    old_signal_data: Option<u64>,
) -> Result<StateModel, AccountError> {
    if !m.validators.contains_key(validator_address) {
        Err(AccountError::NonExistentAddress)
    } else {
        let v = m.validators[validator_address];
        let v2 = Validator {
            signing_key: old_signing_key,
            voting_key: old_voting_key,
            reward_address: old_reward_address,
            signal_data: old_signal_data,
            ..v
        };
        Ok(with_validator(m, validator_address, v2))
    }
}

/// Deactivating a validator: only the signing key holder may, and only from
/// the active state.
pub open spec fn deactivate_validator_act(
    m: StateModel,
    validator_address: Address,
    signer: Address,
    block_number: u32,
) -> Result<StateModel, AccountError> {
    if !m.validators.contains_key(validator_address) {
        Err(AccountError::NonExistentAddress)
    } else {
        let v = m.validators[validator_address];
        if signer != v.signing_key {
            Err(AccountError::InvalidForSender)
        } else if !v.active() {
            Err(AccountError::InvalidForState)
        } else {
            Ok(
                with_validator(
                    m,
                    validator_address,
                    Validator { inactive_from: Some(block_number), ..v },
                ),
            )
        }
    }
}

/// Reverting a deactivation clears the inactivity mark again.
pub open spec fn revert_deactivate_validator_act(
    m: StateModel,
    validator_address: Address,
) -> Result<StateModel, AccountError> {
    if !m.validators.contains_key(validator_address) {
        Err(AccountError::NonExistentAddress)
    } else {
        let v = m.validators[validator_address];
        Ok(with_validator(m, validator_address, Validator { inactive_from: None, ..v }))
    }
}

/// Reactivating a validator clears the inactivity mark; it rejoins the
/// active set only when it is neither jailed nor retired.
pub open spec fn reactivate_validator_act(
    m: StateModel,
    validator_address: Address,
    signer: Address,
) -> Result<(StateModel, ReceiptModel), AccountError> {
    if !m.validators.contains_key(validator_address) {
        Err(AccountError::NonExistentAddress)
    } else {
        let v = m.validators[validator_address];
        if signer != v.signing_key {
            Err(AccountError::InvalidForSender)
        } else if v.inactive_from is None {
            Err(AccountError::InvalidForState)
        } else {
            let receipt = ReceiptModel::ReactivateValidator { old_inactive_from: v.inactive_from };
            Ok(
                (
                    with_validator(m, validator_address, Validator { inactive_from: None, ..v }),
                    receipt,
                ),
            )
        }
    }
}

/// Reverting a reactivation restores the prior inactivity mark.
pub open spec fn revert_reactivate_validator_act(
    m: StateModel,
    validator_address: Address,
    old_inactive_from: Option<u32>,
) -> Result<StateModel, AccountError> {
    if !m.validators.contains_key(validator_address) {
        Err(AccountError::NonExistentAddress)
    } else {
        let v = m.validators[validator_address];
        Ok(
            with_validator(
                m,
                validator_address,
                Validator { inactive_from: old_inactive_from, ..v },
            ),
        )
    }
}

/// Retiring a validator: it must be inactive and not yet retired; the
/// inactivity mark is absorbed into the retirement.
pub open spec fn retire_validator_act(
    m: StateModel,
    validator_address: Address,
    block_number: u32,
) -> Result<(StateModel, ReceiptModel), AccountError> {
    if !m.validators.contains_key(validator_address) {
        Err(AccountError::NonExistentAddress)
    } else {
        let v = m.validators[validator_address];
        if v.inactive_from is None || v.retired {
            Err(AccountError::InvalidForState)
        } else {
            let receipt = ReceiptModel::RetireValidator { old_inactive_from: v.inactive_from };
            let v2 = Validator {
                retired: true,
                retired_from: Some(block_number),
                inactive_from: None,
                ..v
            };
            Ok((with_validator(m, validator_address, v2), receipt))
        }
    }
}

/// Reverting a retirement restores the inactivity mark from the receipt.
pub open spec fn revert_retire_validator_act(
    m: StateModel,
    validator_address: Address,
    old_inactive_from: Option<u32>,
) -> Result<StateModel, AccountError> {
    if !m.validators.contains_key(validator_address) {
        Err(AccountError::NonExistentAddress)
    } else {
        let v = m.validators[validator_address];
        let v2 = Validator {
            retired: false,
            retired_from: None,
            inactive_from: old_inactive_from,
            ..v
        };
        Ok(with_validator(m, validator_address, v2))
    }
}

/// Deleting a validator: it must be released and the drained value must be
/// the deposit; remaining stakers are parked under a tombstone.
pub open spec fn delete_validator_act(
    m: StateModel,
    validator_address: Address,
    block_number: u32,
    total_value: Coin,
) -> Result<(StateModel, ReceiptModel), AccountError> {
    if !m.validators.contains_key(validator_address) {
        Err(AccountError::NonExistentAddress)
    } else {
        let v = m.validators[validator_address];
        match v.spec_can_delete(total_value, block_number) {
            Err(e) => Err(e),
            Ok(()) => match spec_coin_sub(m.balance, total_value) {
                Err(e) => Err(e),
                Ok(balance) => match spec_coin_sub(v.total_stake, v.deposit) {
                    Err(e) => Err(e),
                    Ok(remaining_stake) => {
                        let receipt = ReceiptModel::DeleteValidator { validator: v };
                        let m2 = StateModel {
                            balance,
                            validators: m.validators.remove(validator_address),
                            active_validators: m.active_validators.remove(validator_address),
                            ..m
                        };
                        let m3 = if v.num_stakers > 0 {
                            StateModel {
                                tombstones: m2.tombstones.insert(
                                    validator_address,
                                    Tombstone {
                                        total_stake: remaining_stake,
                                        num_remaining_stakers: v.num_stakers,
                                    },
                                ),
                                ..m2
                            }
                        } else {
                            m2
                        };
                        Ok((m3, receipt))
                    },
                },
            },
        }
    }
}

/// Reverting a deletion restores the stored record, drops the tombstone the
/// deletion left, and returns the drained value.
pub open spec fn revert_delete_validator_act(
    m: StateModel,
    validator_address: Address,
    total_value: Coin,
    validator: Validator,
) -> Result<StateModel, AccountError> {
    match spec_coin_add(m.balance, total_value) {
        Err(e) => Err(e),
        Ok(balance) => {
            let m2 = StateModel { balance, ..with_validator(m, validator_address, validator) };
            Ok(
                if validator.num_stakers > 0 {
                    StateModel { tombstones: m2.tombstones.remove(validator_address), ..m2 }
                } else {
                    m2
                },
            )
        },
    }
}

// ---------------------------------------------------------------------------
// Staker transactions
// ---------------------------------------------------------------------------

/// Creating a staker: the address must be free, the stake must reach the
/// minimum, and it must delegate (funds of an undelegated staker could only
/// be retired ones).
pub open spec fn create_staker_act(
    m: StateModel,
    staker_address: Address,
    value: Coin,
    delegation: Option<Address>,
) -> Result<StateModel, AccountError> {
    if m.stakers.contains_key(staker_address) {
        Err(AccountError::AlreadyExistentAddress)
    } else if value == 0 || !min_stake_ok(value, 0, 0) {
        Err(AccountError::InvalidCoinValue)
    } else {
        match delegation {
            None => Err(AccountError::InvalidForState),
            Some(d) => match spec_coin_add(m.balance, value) {
                Err(e) => Err(e),
                Ok(balance) => match staker_attached(m, d, value) {
                    Err(e) => Err(e),
                    Ok(m2) => {
                        let s = Staker {
                            active_balance: value,
                            inactive_balance: 0,
                            retired_balance: 0,
                            delegation,
                            inactive_from: None,
                        };
                        Ok(
                            StateModel {
                                balance,
                                stakers: m2.stakers.insert(staker_address, s),
                                ..m2
                            },
                        )
                    },
                },
            },
        }
    }
}

/// Reverting a staker creation removes the record and uncredits the
/// delegation.
pub open spec fn revert_create_staker_act(
    m: StateModel,
    staker_address: Address,
    value: Coin,
) -> Result<StateModel, AccountError> {
    if !m.stakers.contains_key(staker_address) {
        Err(AccountError::NonExistentAddress)
    } else {
        let s = m.stakers[staker_address];
        match spec_coin_sub(m.balance, value) {
            Err(e) => Err(e),
            Ok(balance) => {
                let detached = match s.delegation {
                    Some(d) => staker_detached(m, d, value),
                    None => Ok(m),
                };
                match detached {
                    Err(e) => Err(e),
                    Ok(m2) => Ok(
                        StateModel {
                            balance,
                            stakers: m2.stakers.remove(staker_address),
                            ..m2
                        },
                    ),
                }
            },
        }
    }
}

/// Adding stake raises the active balance and the delegated target's total
/// stake. The staker must be delegated, and the raised balance must still
/// satisfy the minimum stake.
pub open spec fn add_stake_act(m: StateModel, staker_address: Address, value: Coin) -> Result<
    StateModel,
    AccountError,
> {
    if !m.stakers.contains_key(staker_address) {
        Err(AccountError::NonExistentAddress)
    } else if value == 0 {
        Err(AccountError::InvalidCoinValue)
    } else {
        let s = m.stakers[staker_address];
        match s.delegation {
            None => Err(AccountError::InvalidForState),
            Some(d) => match spec_coin_add(s.active_balance, value) {
                Err(e) => Err(e),
                Ok(active_balance) => if !min_stake_ok(
                    active_balance,
                    s.inactive_balance,
                    s.retired_balance,
                ) {
                    Err(AccountError::InvalidCoinValue)
                } else {
                    match spec_coin_add(m.balance, value) {
                        Err(e) => Err(e),
                        Ok(balance) => match stake_added(m, d, value) {
                            Err(e) => Err(e),
                            Ok(m2) => Ok(
                                StateModel {
                                    balance,
                                    stakers: m2.stakers.insert(
                                        staker_address,
                                        Staker { active_balance, ..s },
                                    ),
                                    ..m2
                                },
                            ),
                        },
                    }
                },
            },
        }
    }
}

/// Reverting an added stake lowers the balances again.
pub open spec fn revert_add_stake_act(
    m: StateModel,
    staker_address: Address,
    value: Coin,
) -> Result<StateModel, AccountError> {
    if !m.stakers.contains_key(staker_address) {
        Err(AccountError::NonExistentAddress)
    } else {
        let s = m.stakers[staker_address];
        match spec_coin_sub(s.active_balance, value) {
            Err(e) => Err(e),
            Ok(active_balance) => match spec_coin_sub(m.balance, value) {
                Err(e) => Err(e),
                Ok(balance) => {
                    let removed = match s.delegation {
                        Some(d) => stake_removed(m, d, value),
                        None => Ok(m),
                    };
                    match removed {
                        Err(e) => Err(e),
                        Ok(m2) => Ok(
                            StateModel {
                                balance,
                                stakers: m2.stakers.insert(
                                    staker_address,
                                    Staker { active_balance, ..s },
                                ),
                                ..m2
                            },
                        ),
                    }
                },
            },
        }
    }
}

/// Changing a staker's delegation, optionally reactivating all inactive
/// stake. Dropping the delegation is only allowed once active and inactive
/// balances are zero.
pub open spec fn update_staker_act(
    m: StateModel,
    staker_address: Address,
    new_delegation: Option<Address>,
    reactivate_all_stake: bool,
) -> Result<(StateModel, ReceiptModel), AccountError> {
    if !m.stakers.contains_key(staker_address) {
        Err(AccountError::NonExistentAddress)
    } else {
        let s = m.stakers[staker_address];
        let receipt = ReceiptModel::UpdateStaker {
            old_delegation: s.delegation,
            old_active_balance: s.active_balance,
            old_inactive_from: s.inactive_from,
        };
        let merged = if reactivate_all_stake {
            spec_coin_add(s.active_balance, s.inactive_balance)
        } else {
            Ok(s.active_balance)
        };
        match merged {
            Err(e) => Err(e),
            Ok(active_balance) => {
                let inactive_balance: Coin = if reactivate_all_stake {
                    0
                } else {
                    s.inactive_balance
                };
                let inactive_from = if reactivate_all_stake {
                    None
                } else {
                    s.inactive_from
                };
                let target_ok = match new_delegation {
                    None => if active_balance == 0 && inactive_balance == 0 {
                        Ok(())
                    } else {
                        Err(AccountError::InvalidForState)
                    },
                    Some(d) => if m.validators.contains_key(d) {
                        Ok(())
                    } else {
                        Err(AccountError::NonExistentAddress)
                    },
                };
                match target_ok {
                    Err(e) => Err(e),
                    Ok(()) => {
                        let detached = match s.delegation {
                            Some(d) => staker_detached(m, d, s.active_balance),
                            None => Ok(m),
                        };
                        match detached {
                            Err(e) => Err(e),
                            Ok(m2) => {
                                let s2 = Staker {
                                    active_balance,
                                    inactive_balance,
                                    inactive_from,
                                    delegation: new_delegation,
                                    ..s
                                };
                                let m3 = StateModel {
                                    stakers: m2.stakers.insert(staker_address, s2),
                                    ..m2
                                };
                                let attached = match new_delegation {
                                    Some(d) => staker_attached(m3, d, active_balance),
                                    None => Ok(m3),
                                };
                                match attached {
                                    Err(e) => Err(e),
                                    Ok(m4) => Ok((m4, receipt)),
                                }
                            },
                        }
                    },
                }
            },
        }
    }
}

/// Reverting a delegation change: uncredit the new target, restore the prior
/// balance split from the receipt, and recredit the prior target, recreating
/// its tombstone if the change deleted it.
pub open spec fn revert_update_staker_act(
    m: StateModel,
    staker_address: Address,
    old_delegation: Option<Address>,
    old_active_balance: Coin,
    old_inactive_from: Option<u32>,
) -> Result<StateModel, AccountError> {
    if !m.stakers.contains_key(staker_address) {
        Err(AccountError::NonExistentAddress)
    } else {
        let s = m.stakers[staker_address];
        match spec_coin_add(s.active_balance, s.inactive_balance) {
            Err(e) => Err(e),
            Ok(total) => match spec_coin_sub(total, old_active_balance) {
                Err(e) => Err(e),
                Ok(old_inactive_balance) => {
                    let detached = match s.delegation {
                        Some(d) => staker_detached(m, d, s.active_balance),
                        None => Ok(m),
                    };
                    match detached {
                        Err(e) => Err(e),
                        Ok(m2) => {
                            let s2 = Staker {
                                active_balance: old_active_balance,
                                inactive_balance: old_inactive_balance,
                                inactive_from: old_inactive_from,
                                delegation: old_delegation,
                                ..s
                            };
                            let m3 = StateModel {
                                stakers: m2.stakers.insert(staker_address, s2),
                                ..m2
                            };
                            let attached = match old_delegation {
                                Some(d) => staker_reattached(m3, d, old_active_balance),
                                None => Ok(m3),
                            };
                            match attached {
                                Err(e) => Err(e),
                                Ok(m4) => Ok(m4),
                            }
                        },
                    }
                },
            },
        }
    }
}

/// Rebalancing a staker's funds between active and inactive to reach
/// `new_active_balance`; the delegated target's total stake follows the
/// active balance.
pub open spec fn set_active_stake_act(
    m: StateModel,
    staker_address: Address,
    new_active_balance: Coin,
    block_number: u32,
) -> Result<(StateModel, ReceiptModel), AccountError> {
    if !m.stakers.contains_key(staker_address) {
        Err(AccountError::NonExistentAddress)
    } else {
        let s = m.stakers[staker_address];
        match spec_coin_add(s.active_balance, s.inactive_balance) {
            Err(e) => Err(e),
            Ok(total) => if new_active_balance > total {
                Err(AccountError::InsufficientFunds { needed: new_active_balance, balance: total })
            } else {
                let new_inactive_balance = (total - new_active_balance) as u64;
                if !min_stake_ok(new_active_balance, new_inactive_balance, s.retired_balance) {
                    Err(AccountError::InvalidCoinValue)
                } else {
                    let receipt = ReceiptModel::SetActiveStake {
                        old_active_balance: s.active_balance,
                        old_inactive_from: s.inactive_from,
                    };
                    let s2 = Staker {
                        active_balance: new_active_balance,
                        inactive_balance: new_inactive_balance,
                        inactive_from: if new_inactive_balance == 0 {
                            None
                        } else {
                            Some(block_number)
                        },
                        ..s
                    };
                    let adjusted = match s.delegation {
                        Some(d) => if new_active_balance >= s.active_balance {
                            stake_added(m, d, (new_active_balance - s.active_balance) as u64)
                        } else {
                            stake_removed(m, d, (s.active_balance - new_active_balance) as u64)
                        },
                        None => Ok(m),
                    };
                    match adjusted {
                        Err(e) => Err(e),
                        Ok(m2) => Ok(
                            (
                                StateModel {
                                    stakers: m2.stakers.insert(staker_address, s2),
                                    ..m2
                                },
                                receipt,
                            ),
                        ),
                    }
                }
            },
        }
    }
}

/// Reverting a rebalance restores the prior split from the receipt.
pub open spec fn revert_set_active_stake_act(
    m: StateModel,
    staker_address: Address,
    old_active_balance: Coin,
    old_inactive_from: Option<u32>,
) -> Result<StateModel, AccountError> {
    if !m.stakers.contains_key(staker_address) {
        Err(AccountError::NonExistentAddress)
    } else {
        let s = m.stakers[staker_address];
        match spec_coin_add(s.active_balance, s.inactive_balance) {
            Err(e) => Err(e),
            Ok(total) => match spec_coin_sub(total, old_active_balance) {
                Err(e) => Err(e),
                Ok(old_inactive_balance) => {
                    let s2 = Staker {
                        active_balance: old_active_balance,
                        inactive_balance: old_inactive_balance,
                        inactive_from: old_inactive_from,
                        ..s
                    };
                    let adjusted = match s.delegation {
                        Some(d) => if old_active_balance >= s.active_balance {
                            stake_added(m, d, (old_active_balance - s.active_balance) as u64)
                        } else {
                            stake_removed(m, d, (s.active_balance - old_active_balance) as u64)
                        },
                        None => Ok(m),
                    };
                    match adjusted {
                        Err(e) => Err(e),
                        Ok(m2) => Ok(
                            StateModel { stakers: m2.stakers.insert(staker_address, s2), ..m2 },
                        ),
                    }
                },
            },
        }
    }
}

/// Retiring stake moves a released inactive amount into the withdrawal
/// queue. The inactive funds must be past the release window.
pub open spec fn retire_stake_act(
    m: StateModel,
    staker_address: Address,
    retire_stake: Coin,
    block_number: u32,
) -> Result<(StateModel, ReceiptModel), AccountError> {
    if !m.stakers.contains_key(staker_address) {
        Err(AccountError::NonExistentAddress)
    } else if retire_stake == 0 {
        Err(AccountError::InvalidCoinValue)
    } else {
        let s = m.stakers[staker_address];
        let released = match s.inactive_from {
            Some(inactive_from) => inactive_from + RELEASE_WINDOW_BLOCKS <= block_number,
            None => false,
        };
        if !released {
            Err(AccountError::InvalidForState)
        } else {
            match spec_coin_sub(s.inactive_balance, retire_stake) {
                Err(e) => Err(e),
                Ok(inactive_balance) => match spec_coin_add(s.retired_balance, retire_stake) {
                    Err(e) => Err(e),
                    Ok(retired_balance) => if !min_stake_ok(
                        s.active_balance,
                        inactive_balance,
                        retired_balance,
                    ) {
                        Err(AccountError::InvalidCoinValue)
                    } else {
                        let receipt = ReceiptModel::RetireStake {
                            old_inactive_from: s.inactive_from,
                        };
                        let s2 = Staker {
                            inactive_balance,
                            retired_balance,
                            inactive_from: if inactive_balance == 0 {
                                None
                            } else {
                                s.inactive_from
                            },
                            ..s
                        };
                        Ok(
                            (
                                StateModel { stakers: m.stakers.insert(staker_address, s2), ..m },
                                receipt,
                            ),
                        )
                    },
                },
            }
        }
    }
}

/// Reverting a retirement moves the amount back and restores the prior
/// inactivity mark.
pub open spec fn revert_retire_stake_act(
    m: StateModel,
    staker_address: Address,
    retire_stake: Coin,
    old_inactive_from: Option<u32>,
) -> Result<StateModel, AccountError> {
    if !m.stakers.contains_key(staker_address) {
        Err(AccountError::NonExistentAddress)
    } else {
        let s = m.stakers[staker_address];
        match spec_coin_add(s.inactive_balance, retire_stake) {
            Err(e) => Err(e),
            Ok(inactive_balance) => match spec_coin_sub(s.retired_balance, retire_stake) {
                Err(e) => Err(e),
                Ok(retired_balance) => {
                    let s2 = Staker {
                        inactive_balance,
                        retired_balance,
                        inactive_from: old_inactive_from,
                        ..s
                    };
                    Ok(StateModel { stakers: m.stakers.insert(staker_address, s2), ..m })
                },
            },
        }
    }
}

/// Removing retired stake: drains `amount` from the retired balance; when
/// the staker's last funds leave, the record is deleted and the deletion is
/// reported as the staker's delegation (`Some` outer value).
pub open spec fn remove_stake_act(m: StateModel, staker_address: Address, amount: Coin) -> Result<
    (StateModel, Option<Option<Address>>),
    AccountError,
> {
    if !m.stakers.contains_key(staker_address) {
        Err(AccountError::NonExistentAddress)
    } else {
        let s = m.stakers[staker_address];
        match spec_coin_sub(s.retired_balance, amount) {
            Err(e) => Err(e),
            Ok(retired_balance) => if !min_stake_ok(
                s.active_balance,
                s.inactive_balance,
                retired_balance,
            ) {
                Err(AccountError::InvalidCoinValue)
            } else {
                match spec_coin_sub(m.balance, amount) {
                    Err(e) => Err(e),
                    Ok(balance) => if s.active_balance == 0 && s.inactive_balance == 0
                        && retired_balance == 0 {
                        let detached = match s.delegation {
                            Some(d) => staker_detached(m, d, 0),
                            None => Ok(m),
                        };
                        match detached {
                            Err(e) => Err(e),
                            Ok(m2) => Ok(
                                (
                                    StateModel {
                                        balance,
                                        stakers: m2.stakers.remove(staker_address),
                                        ..m2
                                    },
                                    Some(s.delegation),
                                ),
                            ),
                        }
                    } else {
                        Ok(
                            (
                                StateModel {
                                    balance,
                                    stakers: m.stakers.insert(
                                        staker_address,
                                        Staker { retired_balance, ..s },
                                    ),
                                    ..m
                                },
                                None,
                            ),
                        )
                    },
                }
            },
        }
    }
}

// ---------------------------------------------------------------------------
// Inherents
// ---------------------------------------------------------------------------

/// Jailing a validator: deactivates it if it was active, marks it jailed,
/// punishes its whole slot range in both batches and records the jailed
/// range for the epoch.
pub open spec fn jail_act(
    m: StateModel,
    validator_address: Address,
    offense_event_block: u32,
    slot_range: SlotRange,
    block_number: u32,
) -> Result<(StateModel, ReceiptModel), AccountError> {
    if !slot_range.wf() {
        Err(AccountError::InvalidForTarget)
    } else if !m.validators.contains_key(validator_address) {
        Err(AccountError::NonExistentAddress)
    } else {
        let v = m.validators[validator_address];
        let newly_deactivated = v.active();
        let receipt = ReceiptModel::Jail {
            newly_deactivated,
            old_previous_batch_punished_slots: m.punished.previous_batch,
            old_current_batch_punished_slots: m.punished.current_batch,
            old_jail_range: map_get(m.punished.jail_ranges, validator_address),
            old_jailed_from: v.jailed_from,
        };
        let v2 = Validator {
            inactive_from: if newly_deactivated {
                Some(block_number)
            } else {
                v.inactive_from
            },
            jailed_from: Some(block_number),
            ..v
        };
        let m2 = with_validator(m, validator_address, v2);
        let m3 = StateModel {
            punished: PunishedModel {
                previous_batch: with_range(m.punished.previous_batch, slot_range),
                current_batch: with_range(m.punished.current_batch, slot_range),
                jail_ranges: m.punished.jail_ranges.insert(validator_address, slot_range),
            },
            ..m2
        };
        Ok((m3, receipt))
    }
}

/// Reverting a jail restores both punishment bitsets, the epoch jail range
/// and the validator's prior jail and inactivity marks.
pub open spec fn revert_jail_act(
    m: StateModel,
    validator_address: Address,
    newly_deactivated: bool,
    old_previous_batch: Seq<bool>,
    old_current_batch: Seq<bool>,
    old_jail_range: Option<SlotRange>,
    old_jailed_from: Option<u32>,
) -> Result<StateModel, AccountError> {
    if old_previous_batch.len() != SLOTS_PER_EPOCH as nat || old_current_batch.len()
        != SLOTS_PER_EPOCH as nat {
        Err(AccountError::InvalidReceipt)
    } else if !m.validators.contains_key(validator_address) {
        Err(AccountError::NonExistentAddress)
    } else {
        let v = m.validators[validator_address];
        let v2 = Validator {
            jailed_from: old_jailed_from,
            inactive_from: if newly_deactivated {
                None
            } else {
                v.inactive_from
            },
            ..v
        };
        let m2 = with_validator(m, validator_address, v2);
        Ok(
            StateModel {
                punished: PunishedModel {
                    previous_batch: old_previous_batch,
                    current_batch: old_current_batch,
                    jail_ranges: match old_jail_range {
                        Some(range) => m.punished.jail_ranges.insert(validator_address, range),
                        None => m.punished.jail_ranges.remove(validator_address),
                    },
                },
                ..m2
            },
        )
    }
}

/// Penalizing one slot: deactivates the validator if it was active and
/// punishes the slot in the batch the offense belongs to.
pub open spec fn penalize_act(
    m: StateModel,
    validator_address: Address,
    slot: u16,
    offense_event_block: u32,
    block_number: u32,
) -> Result<(StateModel, ReceiptModel), AccountError> {
    if slot >= SLOTS_PER_EPOCH {
        Err(AccountError::InvalidForTarget)
    } else if !m.validators.contains_key(validator_address) {
        Err(AccountError::NonExistentAddress)
    } else {
        let v = m.validators[validator_address];
        let newly_deactivated = v.active();
        let m2 = if newly_deactivated {
            with_validator(
                m,
                validator_address,
                Validator { inactive_from: Some(block_number), ..v },
            )
        } else {
            m
        };
        let stepped = register_penalty_model(m.punished, slot, offense_event_block, block_number);
        let receipt = ReceiptModel::Penalize {
            newly_deactivated,
            newly_punished_previous_batch: stepped.1,
            newly_punished_current_batch: stepped.2,
        };
        Ok((StateModel { punished: stepped.0, ..m2 }, receipt))
    }
}

/// Reverting a penalty clears the newly set bits and undoes the
/// deactivation when the penalty caused it.
pub open spec fn revert_penalize_act(
    m: StateModel,
    validator_address: Address,
    slot: u16,
    newly_deactivated: bool,
    newly_punished_previous_batch: bool,
    newly_punished_current_batch: bool,
) -> Result<StateModel, AccountError> {
    if slot >= SLOTS_PER_EPOCH {
        Err(AccountError::InvalidForTarget)
    } else {
        let punished = PunishedModel {
            previous_batch: if newly_punished_previous_batch {
                m.punished.previous_batch.update(slot as int, false)
            } else {
                m.punished.previous_batch
            },
            current_batch: if newly_punished_current_batch {
                m.punished.current_batch.update(slot as int, false)
            } else {
                m.punished.current_batch
            },
            ..m.punished
        };
        let m2 = StateModel { punished, ..m };
        if newly_deactivated {
            revert_deactivate_validator_act(m2, validator_address)
        } else {
            Ok(m2)
        }
    }
}

/// The transition of one committed inherent.
pub open spec fn commit_inherent_act(
    m: StateModel,
    inherent: Inherent,
    block_number: u32,
) -> Result<(StateModel, Option<ReceiptModel>), AccountError> {
    match inherent {
        Inherent::Jail { validator_address, offense_event_block, slot_range } => match jail_act(
            m,
            validator_address,
            offense_event_block,
            slot_range,
            block_number,
        ) {
            Ok((m2, receipt)) => Ok((m2, Some(receipt))),
            Err(e) => Err(e),
        },
        Inherent::Penalize { validator_address, slot, offense_event_block } => match penalize_act(
            m,
            validator_address,
            slot,
            offense_event_block,
            block_number,
        ) {
            Ok((m2, receipt)) => Ok((m2, Some(receipt))),
            Err(e) => Err(e),
        },
        Inherent::FinalizeBatch => Ok(
            (
                StateModel {
                    punished: PunishedModel {
                        previous_batch: m.punished.current_batch,
                        current_batch: empty_slots(),
                        ..m.punished
                    },
                    ..m
                },
                None,
            ),
        ),
        Inherent::FinalizeEpoch => Ok(
            (
                StateModel {
                    punished: PunishedModel {
                        jail_ranges: Map::<Address, SlotRange>::empty(),
                        ..m.punished
                    },
                    ..m
                },
                None,
            ),
        ),
        Inherent::Reward { .. } => Err(AccountError::InvalidForTarget),
    }
}

/// The transition of one reverted inherent. Finalizations and rewards can
/// never be reverted.
pub open spec fn revert_inherent_act(
    m: StateModel,
    inherent: Inherent,
    receipt: Option<ReceiptModel>,
) -> Result<StateModel, AccountError> {
    match inherent {
        Inherent::Jail { validator_address, .. } => match receipt {
            Some(
                ReceiptModel::Jail {
                    newly_deactivated,
                    old_previous_batch_punished_slots,
                    old_current_batch_punished_slots,
                    old_jail_range,
                    old_jailed_from,
                },
            ) => revert_jail_act(
                m,
                validator_address,
                newly_deactivated,
                old_previous_batch_punished_slots,
                old_current_batch_punished_slots,
                old_jail_range,
                old_jailed_from,
            ),
            _ => Err(AccountError::InvalidReceipt),
        },
        Inherent::Penalize { validator_address, slot, .. } => match receipt {
            Some(
                ReceiptModel::Penalize {
                    newly_deactivated,
                    newly_punished_previous_batch,
                    newly_punished_current_batch,
                },
            ) => revert_penalize_act(
                m,
                validator_address,
                slot,
                newly_deactivated,
                newly_punished_previous_batch,
                newly_punished_current_batch,
            ),
            _ => Err(AccountError::InvalidReceipt),
        },
        Inherent::FinalizeBatch => Err(AccountError::InvalidForTarget),
        Inherent::FinalizeEpoch => Err(AccountError::InvalidForTarget),
        Inherent::Reward { .. } => Err(AccountError::InvalidForTarget),
    }
}

// ---------------------------------------------------------------------------
// Transaction dispatch
// ---------------------------------------------------------------------------

/// The transition of one committed incoming transaction.
pub open spec fn commit_incoming_act(
    m: StateModel,
    data: IncomingStakingTransactionData,
    value: Coin,
    block_number: u32,
) -> Result<(StateModel, Option<ReceiptModel>), AccountError> {
    match data {
        IncomingStakingTransactionData::CreateValidator {
            validator_address,
            signing_key,
            voting_key,
            reward_address,
            signal_data,
        } => match create_validator_act(
            m,
            validator_address,
            signing_key,
            voting_key,
            reward_address,
            signal_data,
            value,
        ) {
            Ok(m2) => Ok((m2, None)),
            Err(e) => Err(e),
        },
        IncomingStakingTransactionData::UpdateValidator {
            validator_address,
            new_signing_key,
            new_voting_key,
            new_reward_address,
            new_signal_data,
        } => match update_validator_act(
            m,
            validator_address,
            new_signing_key,
            new_voting_key,
            new_reward_address,
            new_signal_data,
        ) {
            Ok((m2, receipt)) => Ok((m2, Some(receipt))),
            Err(e) => Err(e),
        },
        IncomingStakingTransactionData::DeactivateValidator { validator_address, signer } => match deactivate_validator_act(
            m,
            validator_address,
            signer,
            block_number,
        ) {
            Ok(m2) => Ok((m2, None)),
            Err(e) => Err(e),
        },
        IncomingStakingTransactionData::ReactivateValidator { validator_address, signer } => match reactivate_validator_act(
            m,
            validator_address,
            signer,
        ) {
            Ok((m2, receipt)) => Ok((m2, Some(receipt))),
            Err(e) => Err(e),
        },
        IncomingStakingTransactionData::RetireValidator { validator_address } => match retire_validator_act(
            m,
            validator_address,
            block_number,
        ) {
            Ok((m2, receipt)) => Ok((m2, Some(receipt))),
            Err(e) => Err(e),
        },
        IncomingStakingTransactionData::CreateStaker { staker_address, delegation } => match create_staker_act(
            m,
            staker_address,
            value,
            delegation,
        ) {
            Ok(m2) => Ok((m2, None)),
            Err(e) => Err(e),
        },
        IncomingStakingTransactionData::AddStake { staker_address } => match add_stake_act(
            m,
            staker_address,
            value,
        ) {
            Ok(m2) => Ok((m2, None)),
            Err(e) => Err(e),
        },
        IncomingStakingTransactionData::UpdateStaker {
            staker_address,
            new_delegation,
            reactivate_all_stake,
        } => match update_staker_act(m, staker_address, new_delegation, reactivate_all_stake) {
            Ok((m2, receipt)) => Ok((m2, Some(receipt))),
            Err(e) => Err(e),
        },
        IncomingStakingTransactionData::SetActiveStake { staker_address, new_active_balance } => match set_active_stake_act(
            m,
            staker_address,
            new_active_balance,
            block_number,
        ) {
            Ok((m2, receipt)) => Ok((m2, Some(receipt))),
            Err(e) => Err(e),
        },
        IncomingStakingTransactionData::RetireStake { staker_address, retire_stake } => match retire_stake_act(
            m,
            staker_address,
            retire_stake,
            block_number,
        ) {
            Ok((m2, receipt)) => Ok((m2, Some(receipt))),
            Err(e) => Err(e),
        },
    }
}

/// The transition of one reverted incoming transaction. Variants that commit
/// without a receipt ignore the receipt argument; the others reject a
/// missing or mismatching receipt with `InvalidReceipt`.
pub open spec fn revert_incoming_act(
    m: StateModel,
    data: IncomingStakingTransactionData,
    value: Coin,
    receipt: Option<ReceiptModel>,
) -> Result<StateModel, AccountError> {
    match data {
        IncomingStakingTransactionData::CreateValidator { validator_address, .. } => revert_create_validator_act(
            m,
            validator_address,
            value,
        ),
        IncomingStakingTransactionData::UpdateValidator { validator_address, .. } => match receipt {
            Some(
                ReceiptModel::UpdateValidator {
                    old_signing_key,
                    old_voting_key,
                    old_reward_address,
                    old_signal_data,
                },
            ) => revert_update_validator_act(
                m,
                validator_address,
                old_signing_key,
                old_voting_key,
                old_reward_address,
                old_signal_data,
            ),
            _ => Err(AccountError::InvalidReceipt),
        },
        IncomingStakingTransactionData::DeactivateValidator { validator_address, .. } => revert_deactivate_validator_act(
            m,
            validator_address,
        ),
        IncomingStakingTransactionData::ReactivateValidator { validator_address, .. } => match receipt {
            Some(ReceiptModel::ReactivateValidator { old_inactive_from }) => revert_reactivate_validator_act(
                m,
                validator_address,
                old_inactive_from,
            ),
            _ => Err(AccountError::InvalidReceipt),
        },
        IncomingStakingTransactionData::RetireValidator { validator_address } => match receipt {
            Some(ReceiptModel::RetireValidator { old_inactive_from }) => revert_retire_validator_act(
                m,
                validator_address,
                old_inactive_from,
            ),
            _ => Err(AccountError::InvalidReceipt),
        },
        IncomingStakingTransactionData::CreateStaker { staker_address, .. } => revert_create_staker_act(
            m,
            staker_address,
            value,
        ),
        IncomingStakingTransactionData::AddStake { staker_address } => revert_add_stake_act(
            m,
            staker_address,
            value,
        ),
        IncomingStakingTransactionData::UpdateStaker { staker_address, .. } => match receipt {
            Some(
                ReceiptModel::UpdateStaker {
                    old_delegation,
                    old_active_balance,
                    old_inactive_from,
                },
            ) => revert_update_staker_act(
                m,
                staker_address,
                old_delegation,
                old_active_balance,
                old_inactive_from,
            ),
            _ => Err(AccountError::InvalidReceipt),
        },
        IncomingStakingTransactionData::SetActiveStake { staker_address, .. } => match receipt {
            Some(ReceiptModel::SetActiveStake { old_active_balance, old_inactive_from }) => revert_set_active_stake_act(
                m,
                staker_address,
                old_active_balance,
                old_inactive_from,
            ),
            _ => Err(AccountError::InvalidReceipt),
        },
        IncomingStakingTransactionData::RetireStake { staker_address, retire_stake } => match receipt {
            Some(ReceiptModel::RetireStake { old_inactive_from }) => revert_retire_stake_act(
                m,
                staker_address,
                retire_stake,
                old_inactive_from,
            ),
            _ => Err(AccountError::InvalidReceipt),
        },
    }
}

/// The transition of one committed outgoing transaction, draining
/// `total_value` out of the contract.
pub open spec fn commit_outgoing_act(
    m: StateModel,
    data: OutgoingStakingTransactionData,
    total_value: Coin,
    block_number: u32,
) -> Result<(StateModel, Option<ReceiptModel>), AccountError> {
    match data {
        OutgoingStakingTransactionData::DeleteValidator { validator_address } => match delete_validator_act(
            m,
            validator_address,
            block_number,
            total_value,
        ) {
            Ok((m2, receipt)) => Ok((m2, Some(receipt))),
            Err(e) => Err(e),
        },
        OutgoingStakingTransactionData::RemoveStake { staker_address } => {
            if !m.stakers.contains_key(staker_address) {
                Err(AccountError::NonExistentAddress)
            } else {
                match m.stakers[staker_address].spec_can_remove_stake(total_value) {
                    Err(e) => Err(e),
                    Ok(()) => match remove_stake_act(m, staker_address, total_value) {
                        Err(e) => Err(e),
                        Ok((m2, deleted)) => Ok(
                            (
                                m2,
                                match deleted {
                                    Some(delegation) => Some(
                                        ReceiptModel::DeleteStaker { delegation },
                                    ),
                                    None => None,
                                },
                            ),
                        ),
                    },
                }
            }
        },
    }
}

/// The transition of one reverted outgoing transaction.
pub open spec fn revert_outgoing_act(
    m: StateModel,
    data: OutgoingStakingTransactionData,
    total_value: Coin,
    receipt: Option<ReceiptModel>,
) -> Result<StateModel, AccountError> {
    match data {
        OutgoingStakingTransactionData::DeleteValidator { validator_address } => match receipt {
            Some(ReceiptModel::DeleteValidator { validator }) => revert_delete_validator_act(
                m,
                validator_address,
                total_value,
                validator,
            ),
            _ => Err(AccountError::InvalidReceipt),
        },
        OutgoingStakingTransactionData::RemoveStake { staker_address } => match receipt {
            None => revert_remove_stake_act(m, staker_address, total_value, None),
            Some(ReceiptModel::DeleteStaker { delegation }) => revert_remove_stake_act(
                m,
                staker_address,
                total_value,
                Some(delegation),
            ),
            Some(_) => Err(AccountError::InvalidReceipt),
        },
    }
}

/// The transition of one failed transaction: the fee is still charged, from
/// the same funds that backed the transaction, and the record is deleted when
/// that empties it.
pub open spec fn commit_failed_act(
    m: StateModel,
    data: OutgoingStakingTransactionData,
    fee: Coin,
    block_number: u32,
) -> Result<(StateModel, Option<ReceiptModel>), AccountError> {
    match data {
        OutgoingStakingTransactionData::DeleteValidator { validator_address } => {
            if !m.validators.contains_key(validator_address) {
                Err(AccountError::NonExistentAddress)
            } else {
                let v = m.validators[validator_address];
                match spec_coin_sub(v.deposit, fee) {
                    Err(e) => Err(e),
                    Ok(new_deposit) => match v.spec_retire_and_release(block_number) {
                        Err(e) => Err(e),
                        Ok(()) => if new_deposit == 0 {
                            match delete_validator_act(m, validator_address, block_number, fee) {
                                Ok((m2, receipt)) => Ok((m2, Some(receipt))),
                                Err(e) => Err(e),
                            }
                        } else {
                            match spec_coin_sub(v.total_stake, fee) {
                                Err(e) => Err(e),
                                Ok(total_stake) => match spec_coin_sub(m.balance, fee) {
                                    Err(e) => Err(e),
                                    Ok(balance) => Ok(
                                        (
                                            StateModel {
                                                balance,
                                                ..with_validator(
                                                    m,
                                                    validator_address,
                                                    Validator {
                                                        deposit: new_deposit,
                                                        total_stake,
                                                        ..v
                                                    },
                                                )
                                            },
                                            None,
                                        ),
                                    ),
                                },
                            }
                        },
                    },
                }
            }
        },
        OutgoingStakingTransactionData::RemoveStake { staker_address } => match remove_stake_act(
            m,
            staker_address,
            fee,
        ) {
            Err(e) => Err(e),
            Ok((m2, deleted)) => Ok(
                (
                    m2,
                    match deleted {
                        Some(delegation) => Some(ReceiptModel::DeleteStaker { delegation }),
                        None => None,
                    },
                ),
            ),
        },
    }
}

/// The transition of one reverted failed transaction.
pub open spec fn revert_failed_act(
    m: StateModel,
    data: OutgoingStakingTransactionData,
    fee: Coin,
    receipt: Option<ReceiptModel>,
) -> Result<StateModel, AccountError> {
    match data {
        OutgoingStakingTransactionData::DeleteValidator { validator_address } => {
            if m.validators.contains_key(validator_address) {
                let v = m.validators[validator_address];
                match spec_coin_add(v.deposit, fee) {
                    Err(e) => Err(e),
                    Ok(deposit) => match spec_coin_add(v.total_stake, fee) {
                        Err(e) => Err(e),
                        Ok(total_stake) => match spec_coin_add(m.balance, fee) {
                            Err(e) => Err(e),
                            Ok(balance) => Ok(
                                StateModel {
                                    balance,
                                    ..with_validator(
                                        m,
                                        validator_address,
                                        Validator { deposit, total_stake, ..v },
                                    )
                                },
                            ),
                        },
                    },
                }
            } else {
                // The fee emptied the deposit and the validator was deleted;
                // its receipt carries the pre-fee record, so restoring it
                // while returning the fee to the balance undoes everything.
                match receipt {
                    Some(ReceiptModel::DeleteValidator { validator }) => revert_delete_validator_act(
                        m,
                        validator_address,
                        fee,
                        validator,
                    ),
                    _ => Err(AccountError::InvalidReceipt),
                }
            }
        },
        OutgoingStakingTransactionData::RemoveStake { staker_address } => match receipt {
            None => revert_remove_stake_act(m, staker_address, fee, None),
            Some(ReceiptModel::DeleteStaker { delegation }) => revert_remove_stake_act(
                m,
                staker_address,
                fee,
                Some(delegation),
            ),
            Some(_) => Err(AccountError::InvalidReceipt),
        },
    }
}

// ---------------------------------------------------------------------------
// Reservation
// ---------------------------------------------------------------------------

/// Reserving `amount` for `address` under the cap `cap`: the cumulative
/// reservation must stay within the cap.
pub open spec fn reserve_for_act(
    reserved: Map<Address, Coin>,
    address: Address,
    cap: Coin,
    amount: Coin,
) -> Result<Map<Address, Coin>, AccountError> {
    if amount == 0 {
        Ok(reserved)
    } else {
        let current: Coin = if reserved.contains_key(address) {
            reserved[address]
        } else {
            0
        };
        match spec_coin_add(current, amount) {
            Err(e) => Err(e),
            Ok(total) => if total <= cap {
                Ok(reserved.insert(address, total))
            } else {
                Err(AccountError::InsufficientFunds { needed: total, balance: cap })
            },
        }
    }
}

/// Releasing `amount` of the reservation for `address`; the exact inverse of
/// a reservation of the same amount.
pub open spec fn release_for_act(
    reserved: Map<Address, Coin>,
    address: Address,
    amount: Coin,
) -> Map<Address, Coin> {
    let current: Coin = if reserved.contains_key(address) {
        reserved[address]
    } else {
        0
    };
    if amount >= current {
        reserved.remove(address)
    } else {
        reserved.insert(address, (current - amount) as u64)
    }
}

/// The reservation made before an outgoing transaction enters a block:
/// `DeleteValidator` reserves against the deposit, `RemoveStake` against the
/// retired balance, after checking that the fee alone would not violate the
/// minimum stake.
pub open spec fn reserve_balance_act(
    m: StateModel,
    data: OutgoingStakingTransactionData,
    total_value: Coin,
    fee: Coin,
    reserved: Map<Address, Coin>,
    block_number: u32,
) -> Result<Map<Address, Coin>, AccountError> {
    match data {
        OutgoingStakingTransactionData::DeleteValidator { validator_address } => {
            if !m.validators.contains_key(validator_address) {
                Err(AccountError::NonExistentAddress)
            } else {
                let v = m.validators[validator_address];
                match v.spec_can_delete(total_value, block_number) {
                    Err(e) => Err(e),
                    Ok(()) => reserve_for_act(reserved, validator_address, v.deposit, total_value),
                }
            }
        },
        OutgoingStakingTransactionData::RemoveStake { staker_address } => {
            if !m.stakers.contains_key(staker_address) {
                Err(AccountError::NonExistentAddress)
            } else {
                let s = m.stakers[staker_address];
                match s.spec_can_remove_stake(total_value) {
                    Err(e) => Err(e),
                    Ok(()) => match spec_coin_sub(s.retired_balance, fee) {
                        Err(e) => Err(e),
                        Ok(after_fee) => if !min_stake_ok(
                            s.active_balance,
                            s.inactive_balance,
                            after_fee,
                        ) {
                            Err(AccountError::InvalidCoinValue)
                        } else {
                            reserve_for_act(
                                reserved,
                                staker_address,
                                s.retired_balance,
                                total_value,
                            )
                        },
                    },
                }
            }
        },
    }
}

/// Releasing the reservation an outgoing transaction held.
pub open spec fn release_balance_act(
    data: OutgoingStakingTransactionData,
    total_value: Coin,
    reserved: Map<Address, Coin>,
) -> Map<Address, Coin> {
    match data {
        OutgoingStakingTransactionData::DeleteValidator { validator_address } => release_for_act(
            reserved,
            validator_address,
            total_value,
        ),
        OutgoingStakingTransactionData::RemoveStake { staker_address } => release_for_act(
            reserved,
            staker_address,
            total_value,
        ),
    }
}

// ---------------------------------------------------------------------------
// Log sequences
// ---------------------------------------------------------------------------

/// The events a committed incoming transaction appends.
pub open spec fn incoming_logs(data: IncomingStakingTransactionData, value: Coin) -> Seq<Log> {
    match data {
        IncomingStakingTransactionData::CreateValidator { validator_address, .. } => seq![
            Log::CreateValidator { validator_address },
        ],
        IncomingStakingTransactionData::UpdateValidator { validator_address, .. } => seq![
            Log::UpdateValidator { validator_address },
        ],
        IncomingStakingTransactionData::DeactivateValidator { validator_address, .. } => seq![
            Log::DeactivateValidator { validator_address },
        ],
        IncomingStakingTransactionData::ReactivateValidator { validator_address, .. } => seq![
            Log::ReactivateValidator { validator_address },
        ],
        IncomingStakingTransactionData::RetireValidator { validator_address } => seq![
            Log::RetireValidator { validator_address },
        ],
        IncomingStakingTransactionData::CreateStaker { staker_address, .. } => seq![
            Log::CreateStaker { staker_address, value },
        ],
        IncomingStakingTransactionData::AddStake { staker_address } => seq![
            Log::AddStake { staker_address, value },
        ],
        IncomingStakingTransactionData::UpdateStaker { staker_address, .. } => seq![
            Log::UpdateStaker { staker_address },
        ],
        IncomingStakingTransactionData::SetActiveStake { staker_address, new_active_balance } => seq![
            Log::SetActiveStake { staker_address, new_active_balance },
        ],
        IncomingStakingTransactionData::RetireStake { staker_address, retire_stake } => seq![
            Log::RetireStake { staker_address, value: retire_stake },
        ],
    }
}

/// The events a committed outgoing transaction appends: fee, transfer, then
/// the body-specific events.
pub open spec fn outgoing_logs(
    data: OutgoingStakingTransactionData,
    total_value: Coin,
    fee: Coin,
    receipt: Option<ReceiptModel>,
) -> Seq<Log> {
    let prefix = seq![Log::PayFee { fee }, Log::Transfer { amount: total_value }];
    match data {
        OutgoingStakingTransactionData::DeleteValidator { validator_address } => prefix.push(
            Log::DeleteValidator { validator_address },
        ),
        OutgoingStakingTransactionData::RemoveStake { staker_address } => {
            let body = prefix.push(Log::RemoveStake { staker_address, value: total_value });
            match receipt {
                Some(ReceiptModel::DeleteStaker { delegation }) => body.push(
                    Log::DeleteStaker { staker_address, validator_address: delegation },
                ),
                _ => body,
            }
        },
    }
}

/// The events a committed failed transaction appends: the fee and its
/// deduction, then a deletion when the fee emptied the record.
pub open spec fn failed_logs(
    data: OutgoingStakingTransactionData,
    fee: Coin,
    receipt: Option<ReceiptModel>,
) -> Seq<Log> {
    match data {
        OutgoingStakingTransactionData::DeleteValidator { validator_address } => {
            let body = seq![
                Log::PayFee { fee },
                Log::ValidatorFeeDeduction { validator_address, fee },
            ];
            match receipt {
                Some(ReceiptModel::DeleteValidator { .. }) => body.push(
                    Log::DeleteValidator { validator_address },
                ),
                _ => body,
            }
        },
        OutgoingStakingTransactionData::RemoveStake { staker_address } => {
            let body = seq![Log::PayFee { fee }, Log::StakerFeeDeduction { staker_address, fee }];
            match receipt {
                Some(ReceiptModel::DeleteStaker { delegation }) => body.push(
                    Log::DeleteStaker { staker_address, validator_address: delegation },
                ),
                _ => body,
            }
        },
    }
}

/// The events a committed inherent appends.
pub open spec fn inherent_logs(inherent: Inherent, receipt: Option<ReceiptModel>) -> Seq<Log> {
    match inherent {
        Inherent::Jail { validator_address, offense_event_block, .. } => match receipt {
            Some(ReceiptModel::Jail { newly_deactivated, old_jailed_from, .. }) => {
                let jail = Log::Jail {
                    validator_address,
                    event_block: offense_event_block,
                    newly_jailed: old_jailed_from is None,
                };
                if newly_deactivated {
                    seq![Log::DeactivateValidator { validator_address }, jail]
                } else {
                    seq![jail]
                }
            },
            _ => Seq::<Log>::empty(),
        },
        Inherent::Penalize { validator_address, slot, offense_event_block } => match receipt {
            Some(ReceiptModel::Penalize { newly_deactivated, .. }) => {
                let penalize = Log::Penalize {
                    validator_address,
                    offense_event_block,
                    slot,
                    newly_deactivated,
                };
                if newly_deactivated {
                    seq![Log::DeactivateValidator { validator_address }, penalize]
                } else {
                    seq![penalize]
                }
            },
            _ => Seq::<Log>::empty(),
        },
        Inherent::FinalizeBatch => Seq::<Log>::empty(),
        Inherent::FinalizeEpoch => Seq::<Log>::empty(),
        Inherent::Reward { .. } => Seq::<Log>::empty(),
    }
}

/// Reverting a stake removal returns the amount; a deleted staker is
/// recreated from the receipt and counted at its prior delegation again.
pub open spec fn revert_remove_stake_act(
    m: StateModel,
    staker_address: Address,
    amount: Coin,
    receipt: Option<Option<Address>>,
) -> Result<StateModel, AccountError> {
    match spec_coin_add(m.balance, amount) {
        Err(e) => Err(e),
        Ok(balance) => match receipt {
            Some(delegation) => {
                let s = Staker {
                    active_balance: 0,
                    inactive_balance: 0,
                    retired_balance: amount,
                    delegation,
                    inactive_from: None,
                };
                let m2 = StateModel { stakers: m.stakers.insert(staker_address, s), ..m };
                let attached = match delegation {
                    Some(d) => staker_reattached(m2, d, 0),
                    None => Ok(m2),
                };
                match attached {
                    Err(e) => Err(e),
                    Ok(m3) => Ok(StateModel { balance, ..m3 }),
                }
            },
            None => if !m.stakers.contains_key(staker_address) {
                Err(AccountError::NonExistentAddress)
            } else {
                let s = m.stakers[staker_address];
                match spec_coin_add(s.retired_balance, amount) {
                    Err(e) => Err(e),
                    Ok(retired_balance) => Ok(
                        StateModel {
                            balance,
                            stakers: m.stakers.insert(
                                staker_address,
                                Staker { retired_balance, ..s },
                            ),
                            ..m
                        },
                    ),
                }
            },
        },
    }
}

} // verus!
