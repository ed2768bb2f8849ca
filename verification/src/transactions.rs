//! Payloads handed to the engine: pre-parsed staking transactions and
//! inherents, the receipts commits hand back for revert, and the structured
//! log of semantic events.

use vstd::prelude::*;

use crate::bitset::BitSet;
use crate::primitives::{Address, Coin};
use crate::records::{SlotRange, Validator};

verus! {

/// Position of a block inside the chain.
#[derive(Clone, Copy, PartialEq, Eq, Debug)]
pub struct BlockState {
    /// The block number.
    pub number: u32,
    /// The epoch the block belongs to.
    pub epoch: u32,
    /// The batch the block belongs to.
    pub batch: u32,
}

/// A staking transaction whose recipient is the staking contract, pre-parsed
/// and with the signer already derived from the proof.
#[derive(Clone, Copy, PartialEq, Eq, Debug)]
pub enum IncomingStakingTransactionData {
    /// Registers a new validator; the transaction value is the deposit.
    CreateValidator {
        /// Address of the new validator (the signer).
        validator_address: Address,
        /// Warm key, in address form.
        signing_key: Address,
        /// Voting key identifier.
        voting_key: u64,
        /// Where rewards go.
        reward_address: Address,
        /// Optional signalling payload.
        signal_data: Option<u64>,
    },
    /// Overwrites the provided validator fields; absent fields are unchanged.
    UpdateValidator {
        /// Address of the validator (the signer).
        validator_address: Address,
        /// New warm key, if given.
        new_signing_key: Option<Address>,
        /// New voting key, if given.
        new_voting_key: Option<u64>,
        /// New reward address, if given.
        new_reward_address: Option<Address>,
        /// New signalling payload, if given.
        new_signal_data: Option<Option<u64>>,
    },
    /// Takes an active validator out of the active set.
    DeactivateValidator {
        /// Address of the validator to deactivate.
        validator_address: Address,
        /// The signer; must match the validator's signing key.
        signer: Address,
    },
    /// Puts an inactive validator back into the active set.
    ReactivateValidator {
        /// Address of the validator to reactivate.
        validator_address: Address,
        /// The signer; must match the validator's signing key.
        signer: Address,
    },
    /// Marks an inactive validator as retired.
    RetireValidator {
        /// Address of the validator (the signer).
        validator_address: Address,
    },
    /// Creates a staker; the transaction value is the initial active balance.
    CreateStaker {
        /// Address of the new staker (the signer).
        staker_address: Address,
        /// The validator delegated to, if any.
        delegation: Option<Address>,
    },
    /// Adds the transaction value to a staker's active balance.
    AddStake {
        /// Address of the staker.
        staker_address: Address,
    },
    /// Changes a staker's delegation, optionally reactivating all stake.
    UpdateStaker {
        /// Address of the staker (the signer).
        staker_address: Address,
        /// The new delegation, if any.
        new_delegation: Option<Address>,
        /// Whether the inactive balance moves back into the active balance.
        reactivate_all_stake: bool,
    },
    /// Rebalances a staker's funds between active and inactive.
    SetActiveStake {
        /// Address of the staker (the signer).
        staker_address: Address,
        /// The active balance to reach.
        new_active_balance: Coin,
    },
    /// Moves released inactive stake into the withdrawal queue.
    RetireStake {
        /// Address of the staker (the signer).
        staker_address: Address,
        /// The amount to retire.
        retire_stake: Coin,
    },
}

/// A staking transaction that drains funds out of the contract, pre-parsed
/// and with the signer already derived from the proof.
#[derive(Clone, Copy, PartialEq, Eq, Debug)]
pub enum OutgoingStakingTransactionData {
    /// Withdraws a released validator's deposit and deletes the validator.
    DeleteValidator {
        /// Address of the validator (the signer).
        validator_address: Address,
    },
    /// Withdraws a staker's whole retired balance.
    RemoveStake {
        /// Address of the staker (the signer).
        staker_address: Address,
    },
}

/// A consensus-injected operation.
#[derive(Clone, Copy, PartialEq, Eq, Debug)]
pub enum Inherent {
    /// Jails a validator and punishes a whole slot range.
    Jail {
        /// The jailed validator.
        validator_address: Address,
        /// Block at which the offense happened.
        offense_event_block: u32,
        /// The validator's slots, all registered as punished.
        slot_range: SlotRange,
    },
    /// Punishes a single slot and deactivates its validator.
    Penalize {
        /// The penalized validator.
        validator_address: Address,
        /// The slot that loses its reward.
        slot: u16,
        /// Block at which the offense happened.
        offense_event_block: u32,
    },
    /// Ends the current batch; never reverted.
    FinalizeBatch,
    /// Ends the current epoch; never reverted.
    FinalizeEpoch,
    /// A block reward; rejected, rewards never target the staking contract.
    Reward {
        /// The rewarded address.
        target: Address,
        /// The reward amount.
        value: Coin,
    },
}

/// What a commit hands back so the matching revert can restore the prior
/// state exactly. A tagged sum type: a revert that is given the wrong tag
/// fails with `InvalidReceipt`.
#[derive(Clone, PartialEq, Eq, Debug)]
pub enum Receipt {
    /// Prior values of the fields an update may overwrite.
    UpdateValidator {
        /// Prior warm key.
        old_signing_key: Address,
        /// Prior voting key.
        old_voting_key: u64,
        /// Prior reward address.
        old_reward_address: Address,
        /// Prior signalling payload.
        old_signal_data: Option<u64>,
    },
    /// Prior inactivity mark of a reactivated validator.
    ReactivateValidator {
        /// Prior `inactive_from`.
        old_inactive_from: Option<u32>,
    },
    /// Prior inactivity mark of a retired validator.
    RetireValidator {
        /// Prior `inactive_from`.
        old_inactive_from: Option<u32>,
    },
    /// Prior delegation and balance split of an updated staker.
    UpdateStaker {
        /// Prior delegation.
        old_delegation: Option<Address>,
        /// Prior active balance, needed to undo a stake reactivation.
        old_active_balance: Coin,
        /// Prior `inactive_from`.
        old_inactive_from: Option<u32>,
    },
    /// Prior balance split of a staker whose active stake was set.
    SetActiveStake {
        /// Prior active balance.
        old_active_balance: Coin,
        /// Prior `inactive_from`.
        old_inactive_from: Option<u32>,
    },
    /// Prior inactivity mark of a staker whose stake was retired.
    RetireStake {
        /// Prior `inactive_from`.
        old_inactive_from: Option<u32>,
    },
    /// The full record of a deleted validator.
    DeleteValidator {
        /// The deleted record.
        validator: Validator,
    },
    /// The delegation of a deleted staker.
    DeleteStaker {
        /// The deleted staker's delegation.
        delegation: Option<Address>,
    },
    /// Prior punishment state of a jailed validator.
    Jail {
        /// Whether the jail deactivated the validator.
        newly_deactivated: bool,
        /// Prior previous-batch bitset.
        old_previous_batch_punished_slots: BitSet,
        /// Prior current-batch bitset.
        old_current_batch_punished_slots: BitSet,
        /// Prior jailed range of the validator this epoch.
        old_jail_range: Option<SlotRange>,
        /// Prior `jailed_from`, for an idempotent re-jail.
        old_jailed_from: Option<u32>,
    },
    /// Which flags a penalty newly set.
    Penalize {
        /// Whether the penalty deactivated the validator.
        newly_deactivated: bool,
        /// Whether the previous-batch bit was newly set.
        newly_punished_previous_batch: bool,
        /// Whether the current-batch bit was newly set.
        newly_punished_current_batch: bool,
    },
}

/// Mathematical value of a [`Receipt`]; bitsets appear as their sequences.
pub enum ReceiptModel {
    /// See [`Receipt::UpdateValidator`].
    UpdateValidator {
        /// Prior warm key.
        old_signing_key: Address,
        /// Prior voting key.
        old_voting_key: u64,
        /// Prior reward address.
        old_reward_address: Address,
        /// Prior signalling payload.
        old_signal_data: Option<u64>,
    },
    /// See [`Receipt::ReactivateValidator`].
    ReactivateValidator {
        /// Prior `inactive_from`.
        old_inactive_from: Option<u32>,
    },
    /// See [`Receipt::RetireValidator`].
    RetireValidator {
        /// Prior `inactive_from`.
        old_inactive_from: Option<u32>,
    },
    /// See [`Receipt::UpdateStaker`].
    UpdateStaker {
        /// Prior delegation.
        old_delegation: Option<Address>,
        /// Prior active balance.
        old_active_balance: Coin,
        /// Prior `inactive_from`.
        old_inactive_from: Option<u32>,
    },
    /// See [`Receipt::SetActiveStake`].
    SetActiveStake {
        /// Prior active balance.
        old_active_balance: Coin,
        /// Prior `inactive_from`.
        old_inactive_from: Option<u32>,
    },
    /// See [`Receipt::RetireStake`].
    RetireStake {
        /// Prior `inactive_from`.
        old_inactive_from: Option<u32>,
    },
    /// See [`Receipt::DeleteValidator`].
    DeleteValidator {
        /// The deleted record.
        validator: Validator,
    },
    /// See [`Receipt::DeleteStaker`].
    DeleteStaker {
        /// The deleted staker's delegation.
        delegation: Option<Address>,
    },
    /// See [`Receipt::Jail`].
    Jail {
        /// Whether the jail deactivated the validator.
        newly_deactivated: bool,
        /// Prior previous-batch bitset.
        old_previous_batch_punished_slots: Seq<bool>,
        /// Prior current-batch bitset.
        old_current_batch_punished_slots: Seq<bool>,
        /// Prior jailed range of the validator this epoch.
        old_jail_range: Option<SlotRange>,
        /// Prior `jailed_from`.
        old_jailed_from: Option<u32>,
    },
    /// See [`Receipt::Penalize`].
    Penalize {
        /// Whether the penalty deactivated the validator.
        newly_deactivated: bool,
        /// Whether the previous-batch bit was newly set.
        newly_punished_previous_batch: bool,
        /// Whether the current-batch bit was newly set.
        newly_punished_current_batch: bool,
    },
}

impl View for Receipt {
    type V = ReceiptModel;

    open spec fn view(&self) -> ReceiptModel {
        match *self {
            Receipt::UpdateValidator {
                old_signing_key,
                old_voting_key,
                old_reward_address,
                old_signal_data,
            } => ReceiptModel::UpdateValidator {
                old_signing_key,
                old_voting_key,
                old_reward_address,
                old_signal_data,
            },
            Receipt::ReactivateValidator { old_inactive_from } => ReceiptModel::ReactivateValidator {
                old_inactive_from,
            },
            Receipt::RetireValidator { old_inactive_from } => ReceiptModel::RetireValidator {
                old_inactive_from,
            },
            Receipt::UpdateStaker {
                old_delegation,
                old_active_balance,
                old_inactive_from,
            } => ReceiptModel::UpdateStaker {
                old_delegation,
                old_active_balance,
                old_inactive_from,
            },
            Receipt::SetActiveStake { old_active_balance, old_inactive_from } => ReceiptModel::SetActiveStake {
                old_active_balance,
                old_inactive_from,
            },
            Receipt::RetireStake { old_inactive_from } => ReceiptModel::RetireStake {
                old_inactive_from,
            },
            Receipt::DeleteValidator { validator } => ReceiptModel::DeleteValidator { validator },
            Receipt::DeleteStaker { delegation } => ReceiptModel::DeleteStaker { delegation },
            Receipt::Jail {
                newly_deactivated,
                ref old_previous_batch_punished_slots,
                ref old_current_batch_punished_slots,
                old_jail_range,
                old_jailed_from,
            } => ReceiptModel::Jail {
                newly_deactivated,
                old_previous_batch_punished_slots: old_previous_batch_punished_slots@,
                old_current_batch_punished_slots: old_current_batch_punished_slots@,
                old_jail_range,
                old_jailed_from,
            },
            Receipt::Penalize {
                newly_deactivated,
                newly_punished_previous_batch,
                newly_punished_current_batch,
            } => ReceiptModel::Penalize {
                newly_deactivated,
                newly_punished_previous_batch,
                newly_punished_current_batch,
            },
        }
    }
}

/// The view of an optional receipt.
pub open spec fn opt_receipt_view(r: Option<Receipt>) -> Option<ReceiptModel> {
    match r {
        Some(receipt) => Some(receipt@),
        None => None,
    }
}

/// One semantic event of a commit or revert.
#[derive(Clone, Copy, PartialEq, Eq, Debug)]
pub enum Log {
    /// The transaction fee was paid.
    PayFee {
        /// The fee.
        fee: Coin,
    },
    /// The transaction value moved.
    Transfer {
        /// The moved amount.
        amount: Coin,
    },
    /// A validator was created.
    CreateValidator {
        /// The validator.
        validator_address: Address,
    },
    /// A validator's fields were updated.
    UpdateValidator {
        /// The validator.
        validator_address: Address,
    },
    /// A validator was deactivated.
    DeactivateValidator {
        /// The validator.
        validator_address: Address,
    },
    /// A validator was reactivated.
    ReactivateValidator {
        /// The validator.
        validator_address: Address,
    },
    /// A validator was retired.
    RetireValidator {
        /// The validator.
        validator_address: Address,
    },
    /// A staker was created.
    CreateStaker {
        /// The staker.
        staker_address: Address,
        /// The initial active balance.
        value: Coin,
    },
    /// Stake was added to a staker.
    AddStake {
        /// The staker.
        staker_address: Address,
        /// The added amount.
        value: Coin,
    },
    /// A staker's delegation changed.
    UpdateStaker {
        /// The staker.
        staker_address: Address,
    },
    /// A staker's active balance was set.
    SetActiveStake {
        /// The staker.
        staker_address: Address,
        /// The new active balance.
        new_active_balance: Coin,
    },
    /// Inactive stake was retired.
    RetireStake {
        /// The staker.
        staker_address: Address,
        /// The retired amount.
        value: Coin,
    },
    /// A validator was deleted.
    DeleteValidator {
        /// The validator.
        validator_address: Address,
    },
    /// Retired stake was withdrawn.
    RemoveStake {
        /// The staker.
        staker_address: Address,
        /// The withdrawn amount.
        value: Coin,
    },
    /// A fee was deducted from a validator's deposit.
    ValidatorFeeDeduction {
        /// The validator.
        validator_address: Address,
        /// The fee.
        fee: Coin,
    },
    /// A fee was deducted from a staker's retired balance.
    StakerFeeDeduction {
        /// The staker.
        staker_address: Address,
        /// The fee.
        fee: Coin,
    },
    /// A staker was deleted.
    DeleteStaker {
        /// The staker.
        staker_address: Address,
        /// The staker's delegation at deletion.
        validator_address: Option<Address>,
    },
    /// A validator was jailed.
    Jail {
        /// The validator.
        validator_address: Address,
        /// Block at which the offense happened.
        event_block: u32,
        /// Whether the validator was not jailed before.
        newly_jailed: bool,
    },
    /// A slot was penalized.
    Penalize {
        /// The validator.
        validator_address: Address,
        /// Block at which the offense happened.
        offense_event_block: u32,
        /// The penalized slot.
        slot: u16,
        /// Whether the penalty deactivated the validator.
        newly_deactivated: bool,
    },
}

/// Append-only structured log of semantic events. No state depends on it.
pub struct TransactionLog {
    entries: Vec<Log>,
}

impl View for TransactionLog {
    type V = Seq<Log>;

    closed spec fn view(&self) -> Seq<Log> {
        self.entries@
    }
}

impl TransactionLog {
    /// An empty log.
    pub fn empty() -> (r: TransactionLog)
        ensures
            r@ == Seq::<Log>::empty(),
    {
        TransactionLog { entries: Vec::new() }
    }

    /// Appends one event.
    pub fn push(&mut self, log: Log)
        ensures
            final(self)@ == old(self)@.push(log),
    {
        self.entries.push(log);
    }

    /// The number of events.
    pub fn len(&self) -> (r: usize)
        ensures
            r == self@.len(),
    {
        self.entries.len()
    }

    /// The event at `index`.
    pub fn entry(&self, index: usize) -> (r: Log)
        requires
            index < self@.len(),
        ensures
            r == self@[index as int],
    {
        self.entries[index]
    }
}

} // verus!
