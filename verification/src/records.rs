//! Entity records of the staking contract: validators, stakers and the
//! tombstone left behind when a validator is deleted while stakers still
//! delegate to it.

use vstd::prelude::*;

use crate::primitives::{AccountError, Address, Coin, MIN_STAKE, RELEASE_WINDOW_BLOCKS};

verus! {

/// A registered validator. `total_stake` is the deposit plus the active
/// balance of every staker delegating to it; inactive and retired staker
/// balances are not part of it.
#[derive(Clone, Copy, PartialEq, Eq, Debug)]
pub struct Validator {
    /// Address form of the warm key that signs consensus messages.
    pub signing_key: Address,
    /// Opaque identifier of the voting key.
    pub voting_key: u64,
    /// Address that receives this validator's rewards.
    pub reward_address: Address,
    /// Optional signalling payload.
    pub signal_data: Option<u64>,
    /// The mandatory bond.
    pub deposit: Coin,
    /// Deposit plus the delegated active stake.
    pub total_stake: Coin,
    /// Number of stakers currently delegating to this validator.
    pub num_stakers: u64,
    /// Block from which the validator is inactive, if any.
    pub inactive_from: Option<u32>,
    /// Block from which the validator is jailed, if any.
    pub jailed_from: Option<u32>,
    /// Whether the validator has been retired.
    pub retired: bool,
    /// Block at which the validator was retired, if it was.
    pub retired_from: Option<u32>,
}

/// A staker. Funds are decomposed into an active part (delegated and counted
/// in the validator's `total_stake`), an inactive part (waiting for release)
/// and a retired part (in the withdrawal queue).
#[derive(Clone, Copy, PartialEq, Eq, Debug)]
pub struct Staker {
    /// Delegated stake, counted in the target's `total_stake`.
    pub active_balance: Coin,
    /// Stake withdrawn from delegation, waiting out the release window.
    pub inactive_balance: Coin,
    /// Stake in the final withdrawal queue.
    pub retired_balance: Coin,
    /// The validator delegated to, if any.
    pub delegation: Option<Address>,
    /// Block at which the inactive balance was last changed, if it is
    /// non-zero.
    pub inactive_from: Option<u32>,
}

/// Residual record for a deleted validator that still has delegating stakers,
/// so that those stakers can still unbind.
#[derive(Clone, Copy, PartialEq, Eq, Debug)]
pub struct Tombstone {
    /// Sum of the active balances of the remaining delegating stakers.
    pub total_stake: Coin,
    /// Number of stakers still delegating to the deleted validator.
    pub num_remaining_stakers: u64,
}

/// A half-open range `start..end` of slot numbers.
#[derive(Clone, Copy, PartialEq, Eq, Debug)]
pub struct SlotRange {
    /// First slot of the range.
    pub start: u16,
    /// One past the last slot of the range.
    pub end: u16,
}

impl Validator {
    /// A validator is active when it is neither inactive, jailed nor retired.
    pub open spec fn active(self) -> bool {
        self.inactive_from is None && self.jailed_from is None && !self.retired
    }

    /// Exec form of [`Validator::active`].
    pub fn is_active(&self) -> (r: bool)
        ensures
            r == self.active(),
    {
        self.inactive_from.is_none() && self.jailed_from.is_none() && !self.retired
    }

    /// Whether the validator is retired and the release window has elapsed at
    /// `block_number`; otherwise the state error.
    pub open spec fn spec_retire_and_release(self, block_number: u32) -> Result<
        (),
        AccountError,
    > {
        match self.retired_from {
            Some(retired_from) => if self.retired && retired_from + RELEASE_WINDOW_BLOCKS
                <= block_number {
                Ok(())
            } else {
                Err(AccountError::InvalidForState)
            },
            None => Err(AccountError::InvalidForState),
        }
    }

    /// Fails with `InvalidForState` unless the validator is retired and the
    /// release window has elapsed.
    pub fn enforce_retire_and_release(&self, block_number: u32) -> (r: Result<(), AccountError>)
        ensures
            r == self.spec_retire_and_release(block_number),
    {
        match self.retired_from {
            Some(retired_from) => {
                if self.retired && (retired_from as u64) + (RELEASE_WINDOW_BLOCKS as u64)
                    <= block_number as u64 {
                    Ok(())
                } else {
                    Err(AccountError::InvalidForState)
                }
            },
            None => Err(AccountError::InvalidForState),
        }
    }

    /// Whether the validator may be deleted at `block_number` by draining
    /// `total_value`: it must be released and the drained value must equal
    /// the deposit.
    pub open spec fn spec_can_delete(self, total_value: Coin, block_number: u32) -> Result<
        (),
        AccountError,
    > {
        match self.spec_retire_and_release(block_number) {
            Ok(()) => if total_value == self.deposit {
                Ok(())
            } else {
                Err(AccountError::InvalidCoinValue)
            },
            Err(e) => Err(e),
        }
    }

    /// Exec form of [`Validator::spec_can_delete`].
    pub fn can_delete_validator(&self, total_value: Coin, block_number: u32) -> (r: Result<
        (),
        AccountError,
    >)
        ensures
            r == self.spec_can_delete(total_value, block_number),
    {
        match self.enforce_retire_and_release(block_number) {
            Ok(()) => {
                if total_value == self.deposit {
                    Ok(())
                } else {
                    Err(AccountError::InvalidCoinValue)
                }
            },
            Err(e) => Err(e),
        }
    }
}

/// Whether each non-zero component of a three-way staker balance reaches the
/// minimum stake.
pub open spec fn min_stake_ok(active: Coin, inactive: Coin, retired: Coin) -> bool {
    &&& (active == 0 || active >= MIN_STAKE)
    &&& (inactive == 0 || inactive >= MIN_STAKE)
    &&& (retired == 0 || retired >= MIN_STAKE)
}

/// The minimum-stake rule as a `Result`: `InvalidCoinValue` when some
/// non-zero component stays below `MIN_STAKE`.
pub open spec fn spec_enforce_min_stake(active: Coin, inactive: Coin, retired: Coin) -> Result<
    (),
    AccountError,
> {
    if min_stake_ok(active, inactive, retired) {
        Ok(())
    } else {
        Err(AccountError::InvalidCoinValue)
    }
}

impl Staker {
    /// Whether removing `amount` of retired stake is allowed: the whole
    /// retired balance must be drained at once.
    pub open spec fn spec_can_remove_stake(self, amount: Coin) -> Result<(), AccountError> {
        if amount == self.retired_balance {
            Ok(())
        } else {
            Err(AccountError::InsufficientFunds { needed: amount, balance: self.retired_balance })
        }
    }

    /// Exec form of [`Staker::spec_can_remove_stake`].
    pub fn can_remove_stake(&self, amount: Coin) -> (r: Result<(), AccountError>)
        ensures
            r == self.spec_can_remove_stake(amount),
    {
        if amount == self.retired_balance {
            Ok(())
        } else {
            Err(AccountError::InsufficientFunds { needed: amount, balance: self.retired_balance })
        }
    }

    /// Exec form of [`spec_enforce_min_stake`].
    pub fn enforce_min_stake(active: Coin, inactive: Coin, retired: Coin) -> (r: Result<
        (),
        AccountError,
    >)
        ensures
            r == spec_enforce_min_stake(active, inactive, retired),
    {
        if (active == 0 || active >= MIN_STAKE) && (inactive == 0 || inactive >= MIN_STAKE) && (
        retired == 0 || retired >= MIN_STAKE) {
            Ok(())
        } else {
            Err(AccountError::InvalidCoinValue)
        }
    }
}

impl SlotRange {
    /// A range is well formed when it is ordered and stays within the slots
    /// of one epoch.
    pub open spec fn wf(self) -> bool {
        self.start <= self.end && self.end <= crate::primitives::SLOTS_PER_EPOCH
    }

    /// Exec form of [`SlotRange::wf`].
    pub fn is_wf(&self) -> (r: bool)
        ensures
            r == self.wf(),
    {
        self.start <= self.end && self.end <= crate::primitives::SLOTS_PER_EPOCH
    }

}

} // verus!
