use staking_engine::contract::StakingContract;
use staking_engine::primitives::AccountError;
use staking_engine::records::SlotRange;
use staking_engine::reserved::ReservedBalance;
use staking_engine::store::StakingStore;
use staking_engine::transactions::{
    BlockState, IncomingStakingTransactionData, Inherent, Log, OutgoingStakingTransactionData,
    Receipt, TransactionLog,
};

fn block(number: u32) -> BlockState {
    BlockState { number, epoch: number / 1024, batch: number / 32 }
}

fn create_validator_data(addr: u64) -> IncomingStakingTransactionData {
    IncomingStakingTransactionData::CreateValidator {
        validator_address: addr,
        signing_key: addr + 1000,
        voting_key: addr + 2000,
        reward_address: addr + 3000,
        signal_data: None,
    }
}

fn setup_validator(
    contract: &mut StakingContract,
    store: &mut StakingStore,
    addr: u64,
    number: u32,
) {
    let mut log = TransactionLog::empty();
    contract
        .commit_incoming_transaction(
            &create_validator_data(addr),
            10_000,
            &block(number),
            store,
            &mut log,
        )
        .unwrap();
}

#[test]
fn validator_lifecycle() {
    let mut contract = StakingContract::new();
    let mut store = StakingStore::new();
    let mut log = TransactionLog::empty();

    setup_validator(&mut contract, &mut store, 7, 100);
    assert_eq!(contract.balance(), 10_000);
    let v = store.get_validator(7).unwrap();
    assert_eq!(v.deposit, 10_000);
    assert_eq!(v.total_stake, 10_000);
    assert_eq!(contract.active_stake(7), Some(10_000));

    // Deactivate at 200.
    let deactivate = IncomingStakingTransactionData::DeactivateValidator {
        validator_address: 7,
        signer: 1007,
    };
    contract
        .commit_incoming_transaction(&deactivate, 0, &block(200), &mut store, &mut log)
        .unwrap();
    let v = store.get_validator(7).unwrap();
    assert_eq!(v.inactive_from, Some(200));
    assert_eq!(contract.active_stake(7), None);

    // Retire at 300.
    let retire = IncomingStakingTransactionData::RetireValidator { validator_address: 7 };
    contract
        .commit_incoming_transaction(&retire, 0, &block(300), &mut store, &mut log)
        .unwrap();
    let v = store.get_validator(7).unwrap();
    assert!(v.retired);
    assert_eq!(v.retired_from, Some(300));

    // Deleting before the release window fails.
    let delete = OutgoingStakingTransactionData::DeleteValidator { validator_address: 7 };
    let err = contract
        .commit_outgoing_transaction(&delete, 10_000, 0, &block(301), &mut store, &mut log)
        .unwrap_err();
    assert_eq!(err, AccountError::InvalidForState);

    // At 400 the window (2 batches of 32 blocks) has elapsed.
    contract
        .commit_outgoing_transaction(&delete, 10_000, 0, &block(400), &mut store, &mut log)
        .unwrap();
    assert_eq!(contract.balance(), 0);
    assert!(store.get_validator(7).is_none());
}

#[test]
fn staker_min_stake_rebalance() {
    let mut contract = StakingContract::new();
    let mut store = StakingStore::new();
    let mut log = TransactionLog::empty();
    setup_validator(&mut contract, &mut store, 1, 100);

    let create = IncomingStakingTransactionData::CreateStaker {
        staker_address: 9,
        delegation: Some(1),
    };
    contract
        .commit_incoming_transaction(&create, 500, &block(100), &mut store, &mut log)
        .unwrap();

    // Lowering the active balance to 50 leaves a non-zero component below
    // the minimum stake.
    let bad = IncomingStakingTransactionData::SetActiveStake {
        staker_address: 9,
        new_active_balance: 50,
    };
    let err = contract
        .commit_incoming_transaction(&bad, 0, &block(110), &mut store, &mut log)
        .unwrap_err();
    assert_eq!(err, AccountError::InvalidCoinValue);

    let good = IncomingStakingTransactionData::SetActiveStake {
        staker_address: 9,
        new_active_balance: 100,
    };
    contract
        .commit_incoming_transaction(&good, 0, &block(110), &mut store, &mut log)
        .unwrap();
    let s = store.get_staker(9).unwrap();
    assert_eq!(s.active_balance, 100);
    assert_eq!(s.inactive_balance, 400);
    assert_eq!(s.inactive_from, Some(110));
    // The delegated validator's stake followed the active balance down.
    assert_eq!(store.get_validator(1).unwrap().total_stake, 10_100);
}

#[test]
fn update_staker_round_trip() {
    let mut contract = StakingContract::new();
    let mut store = StakingStore::new();
    let mut log = TransactionLog::empty();
    setup_validator(&mut contract, &mut store, 1, 100);
    setup_validator(&mut contract, &mut store, 2, 100);

    let create = IncomingStakingTransactionData::CreateStaker {
        staker_address: 9,
        delegation: Some(1),
    };
    contract
        .commit_incoming_transaction(&create, 1_000, &block(100), &mut store, &mut log)
        .unwrap();
    let staker_before = store.get_staker(9).unwrap();
    let v1_before = store.get_validator(1).unwrap();
    let v2_before = store.get_validator(2).unwrap();
    assert_eq!(v1_before.total_stake, 11_000);

    let update = IncomingStakingTransactionData::UpdateStaker {
        staker_address: 9,
        new_delegation: Some(2),
        reactivate_all_stake: false,
    };
    let receipt = contract
        .commit_incoming_transaction(&update, 0, &block(150), &mut store, &mut log)
        .unwrap();
    assert_eq!(store.get_validator(1).unwrap().total_stake, 10_000);
    assert_eq!(store.get_validator(2).unwrap().total_stake, 11_000);
    assert_eq!(store.get_staker(9).unwrap().delegation, Some(2));

    contract
        .revert_incoming_transaction(&update, 0, &block(150), receipt, &mut store, &mut log)
        .unwrap();
    assert_eq!(store.get_validator(1).unwrap(), v1_before);
    assert_eq!(store.get_validator(2).unwrap(), v2_before);
    assert_eq!(store.get_staker(9).unwrap(), staker_before);
}

#[test]
fn jail_then_penalize_same_slot() {
    let mut contract = StakingContract::new();
    let mut store = StakingStore::new();
    let mut log = TransactionLog::empty();
    setup_validator(&mut contract, &mut store, 4, 100);

    let jail = Inherent::Jail {
        validator_address: 4,
        offense_event_block: 500,
        slot_range: SlotRange { start: 10, end: 20 },
    };
    let jail_receipt = contract
        .commit_inherent(&jail, &block(500), &mut store, &mut log)
        .unwrap();
    for slot in 10..20 {
        assert!(contract.previous_batch_punished(slot));
        assert!(contract.current_batch_punished(slot));
    }
    assert!(!contract.current_batch_punished(20));
    let v = store.get_validator(4).unwrap();
    assert_eq!(v.jailed_from, Some(500));
    assert_eq!(v.inactive_from, Some(500));
    assert_eq!(contract.active_stake(4), None);

    let penalize = Inherent::Penalize {
        validator_address: 4,
        slot: 15,
        offense_event_block: 501,
    };
    let penalize_receipt = contract
        .commit_inherent(&penalize, &block(501), &mut store, &mut log)
        .unwrap();
    match penalize_receipt.clone() {
        Some(Receipt::Penalize {
            newly_deactivated,
            newly_punished_previous_batch,
            newly_punished_current_batch,
        }) => {
            assert!(!newly_deactivated);
            assert!(!newly_punished_previous_batch);
            assert!(!newly_punished_current_batch);
        }
        other => panic!("unexpected receipt: {:?}", other),
    }

    // Reverting the penalty leaves the bitsets unchanged.
    contract
        .revert_inherent(&penalize, &block(501), penalize_receipt, &mut store, &mut log)
        .unwrap();
    for slot in 10..20 {
        assert!(contract.current_batch_punished(slot));
    }

    // Reverting the jail clears everything and reactivates the validator.
    contract
        .revert_inherent(&jail, &block(500), jail_receipt, &mut store, &mut log)
        .unwrap();
    for slot in 0..30 {
        assert!(!contract.previous_batch_punished(slot));
        assert!(!contract.current_batch_punished(slot));
    }
    let v = store.get_validator(4).unwrap();
    assert_eq!(v.jailed_from, None);
    assert_eq!(v.inactive_from, None);
    assert_eq!(contract.active_stake(4), Some(10_000));
}

#[test]
fn failed_delete_validator_zeroing() {
    let mut contract = StakingContract::new();
    let mut store = StakingStore::new();
    let mut log = TransactionLog::empty();
    setup_validator(&mut contract, &mut store, 3, 100);
    let deactivate = IncomingStakingTransactionData::DeactivateValidator {
        validator_address: 3,
        signer: 1003,
    };
    contract
        .commit_incoming_transaction(&deactivate, 0, &block(200), &mut store, &mut log)
        .unwrap();
    let retire = IncomingStakingTransactionData::RetireValidator { validator_address: 3 };
    contract
        .commit_incoming_transaction(&retire, 0, &block(300), &mut store, &mut log)
        .unwrap();
    let before = store.get_validator(3).unwrap();

    let data = OutgoingStakingTransactionData::DeleteValidator { validator_address: 3 };
    let receipt = contract
        .commit_failed_transaction(&data, 10_000, &block(400), &mut store, &mut log)
        .unwrap();
    assert!(store.get_validator(3).is_none());
    assert!(matches!(receipt, Some(Receipt::DeleteValidator { .. })));
    assert_eq!(contract.balance(), 0);

    contract
        .revert_failed_transaction(&data, 10_000, &block(400), receipt, &mut store, &mut log)
        .unwrap();
    let restored = store.get_validator(3).unwrap();
    assert_eq!(restored, before);
    assert_eq!(restored.deposit, 10_000);
    assert_eq!(restored.total_stake, 10_000);
    assert_eq!(contract.balance(), 10_000);
}

#[test]
fn finalize_batch_rotation() {
    let mut contract = StakingContract::new();
    let mut store = StakingStore::new();
    let mut log = TransactionLog::empty();
    setup_validator(&mut contract, &mut store, 5, 10);

    // Punish slot 1, rotate it into the previous batch, then punish 3 and 7.
    for (slot, number) in [(1u16, 40u32), (3, 70), (7, 71)] {
        let penalize = Inherent::Penalize {
            validator_address: 5,
            slot,
            offense_event_block: number,
        };
        contract
            .commit_inherent(&penalize, &block(number), &mut store, &mut log)
            .unwrap();
        if slot == 1 {
            contract
                .commit_inherent(&Inherent::FinalizeBatch, &block(63), &mut store, &mut log)
                .unwrap();
        }
    }
    assert!(contract.previous_batch_punished(1));
    assert!(!contract.previous_batch_punished(3));
    assert!(contract.current_batch_punished(3));
    assert!(contract.current_batch_punished(7));
    assert!(!contract.current_batch_punished(1));

    // FinalizeBatch rotates: previous becomes {3, 7}, current clears.
    contract
        .commit_inherent(&Inherent::FinalizeBatch, &block(95), &mut store, &mut log)
        .unwrap();
    assert!(contract.previous_batch_punished(3));
    assert!(contract.previous_batch_punished(7));
    assert!(!contract.previous_batch_punished(1));
    assert!(!contract.current_batch_punished(3));
    assert!(!contract.current_batch_punished(7));

    // Finalizations are irrevocable.
    let err = contract
        .revert_inherent(&Inherent::FinalizeBatch, &block(95), None, &mut store, &mut log)
        .unwrap_err();
    assert_eq!(err, AccountError::InvalidForTarget);
    let err = contract
        .revert_inherent(&Inherent::FinalizeEpoch, &block(95), None, &mut store, &mut log)
        .unwrap_err();
    assert_eq!(err, AccountError::InvalidForTarget);
}

#[test]
fn reservation_round_trip() {
    let mut contract = StakingContract::new();
    let mut store = StakingStore::new();
    let mut log = TransactionLog::empty();
    setup_validator(&mut contract, &mut store, 2, 100);
    let deactivate = IncomingStakingTransactionData::DeactivateValidator {
        validator_address: 2,
        signer: 1002,
    };
    contract
        .commit_incoming_transaction(&deactivate, 0, &block(200), &mut store, &mut log)
        .unwrap();
    let retire = IncomingStakingTransactionData::RetireValidator { validator_address: 2 };
    contract
        .commit_incoming_transaction(&retire, 0, &block(300), &mut store, &mut log)
        .unwrap();

    let data = OutgoingStakingTransactionData::DeleteValidator { validator_address: 2 };
    let mut reserved = ReservedBalance::new();
    contract
        .reserve_balance(&data, 10_000, 0, &mut reserved, &block(400), &store)
        .unwrap();
    assert_eq!(reserved.reserved_for(2), 10_000);

    // The same funds cannot back a second transaction in the same block.
    let err = contract
        .reserve_balance(&data, 10_000, 0, &mut reserved, &block(400), &store)
        .unwrap_err();
    assert_eq!(
        err,
        AccountError::InsufficientFunds { needed: 20_000, balance: 10_000 }
    );

    // A successful reservation guarantees the commit succeeds.
    contract
        .commit_outgoing_transaction(&data, 10_000, 0, &block(400), &mut store, &mut log)
        .unwrap();

    // Releasing is the exact inverse.
    contract
        .release_balance(&data, 10_000, &mut reserved, &store)
        .unwrap();
    assert_eq!(reserved.reserved_for(2), 0);
}

#[test]
fn remove_stake_full_drain_only() {
    let mut contract = StakingContract::new();
    let mut store = StakingStore::new();
    let mut log = TransactionLog::empty();
    setup_validator(&mut contract, &mut store, 1, 0);
    let create = IncomingStakingTransactionData::CreateStaker {
        staker_address: 8,
        delegation: Some(1),
    };
    contract
        .commit_incoming_transaction(&create, 1_000, &block(0), &mut store, &mut log)
        .unwrap();
    // Move everything through inactive into the retired queue.
    let set = IncomingStakingTransactionData::SetActiveStake {
        staker_address: 8,
        new_active_balance: 0,
    };
    contract
        .commit_incoming_transaction(&set, 0, &block(10), &mut store, &mut log)
        .unwrap();
    let retire = IncomingStakingTransactionData::RetireStake {
        staker_address: 8,
        retire_stake: 1_000,
    };
    contract
        .commit_incoming_transaction(&retire, 0, &block(100), &mut store, &mut log)
        .unwrap();
    assert_eq!(store.get_staker(8).unwrap().retired_balance, 1_000);

    // Only a full drain of the retired balance is allowed.
    let data = OutgoingStakingTransactionData::RemoveStake { staker_address: 8 };
    let err = contract
        .commit_outgoing_transaction(&data, 400, 0, &block(200), &mut store, &mut log)
        .unwrap_err();
    assert_eq!(err, AccountError::InsufficientFunds { needed: 400, balance: 1_000 });

    let receipt = contract
        .commit_outgoing_transaction(&data, 1_000, 0, &block(200), &mut store, &mut log)
        .unwrap();
    // The emptied staker was deleted and its delegation recorded.
    assert_eq!(receipt, Some(Receipt::DeleteStaker { delegation: Some(1) }));
    assert!(store.get_staker(8).is_none());
    assert_eq!(store.get_validator(1).unwrap().num_stakers, 0);
    assert_eq!(contract.balance(), 10_000);

    // Reverting recreates the staker and counts it again.
    contract
        .revert_outgoing_transaction(&data, 1_000, 0, &block(200), receipt, &mut store, &mut log)
        .unwrap();
    let s = store.get_staker(8).unwrap();
    assert_eq!(s.retired_balance, 1_000);
    assert_eq!(s.delegation, Some(1));
    assert_eq!(store.get_validator(1).unwrap().num_stakers, 1);
}

#[test]
fn error_variants() {
    let mut contract = StakingContract::new();
    let mut store = StakingStore::new();
    let mut log = TransactionLog::empty();

    // Creation with the wrong deposit.
    let err = contract
        .commit_incoming_transaction(&create_validator_data(1), 9_999, &block(0), &mut store, &mut log)
        .unwrap_err();
    assert_eq!(err, AccountError::InvalidCoinValue);

    setup_validator(&mut contract, &mut store, 1, 0);

    // Creation at an occupied address.
    let err = contract
        .commit_incoming_transaction(&create_validator_data(1), 10_000, &block(0), &mut store, &mut log)
        .unwrap_err();
    assert_eq!(err, AccountError::AlreadyExistentAddress);

    // Wrong signer for a deactivation.
    let bad_signer = IncomingStakingTransactionData::DeactivateValidator {
        validator_address: 1,
        signer: 42,
    };
    let err = contract
        .commit_incoming_transaction(&bad_signer, 0, &block(1), &mut store, &mut log)
        .unwrap_err();
    assert_eq!(err, AccountError::InvalidForSender);

    // Reactivating an active validator.
    let reactivate = IncomingStakingTransactionData::ReactivateValidator {
        validator_address: 1,
        signer: 1001,
    };
    let err = contract
        .commit_incoming_transaction(&reactivate, 0, &block(1), &mut store, &mut log)
        .unwrap_err();
    assert_eq!(err, AccountError::InvalidForState);

    // Adding stake to a missing staker.
    let add = IncomingStakingTransactionData::AddStake { staker_address: 99 };
    let err = contract
        .commit_incoming_transaction(&add, 500, &block(1), &mut store, &mut log)
        .unwrap_err();
    assert_eq!(err, AccountError::NonExistentAddress);

    // Creating a staker below the minimum stake.
    let small = IncomingStakingTransactionData::CreateStaker {
        staker_address: 9,
        delegation: Some(1),
    };
    let err = contract
        .commit_incoming_transaction(&small, 50, &block(1), &mut store, &mut log)
        .unwrap_err();
    assert_eq!(err, AccountError::InvalidCoinValue);

    // Reverting an update without its receipt.
    let update = IncomingStakingTransactionData::UpdateValidator {
        validator_address: 1,
        new_signing_key: Some(7),
        new_voting_key: None,
        new_reward_address: None,
        new_signal_data: None,
    };
    let err = contract
        .revert_incoming_transaction(&update, 0, &block(1), None, &mut store, &mut log)
        .unwrap_err();
    assert_eq!(err, AccountError::InvalidReceipt);

    // Rewards never target the staking contract.
    let reward = Inherent::Reward { target: 1, value: 5 };
    let err = contract
        .commit_inherent(&reward, &block(1), &mut store, &mut log)
        .unwrap_err();
    assert_eq!(err, AccountError::InvalidForTarget);

    // The contract itself is never created by a transaction, nor pruned.
    match StakingContract::create_new_contract() {
        Err(e) => assert_eq!(e, AccountError::InvalidForRecipient),
        Ok(_) => panic!("the staking contract must not be creatable"),
    }
    assert_eq!(contract.revert_new_contract().unwrap_err(), AccountError::InvalidForRecipient);
    assert!(!contract.can_be_pruned());
}

#[test]
fn outgoing_log_order_mirrors_on_revert() {
    let mut contract = StakingContract::new();
    let mut store = StakingStore::new();
    let mut commit_log = TransactionLog::empty();
    setup_validator(&mut contract, &mut store, 6, 0);
    let deactivate = IncomingStakingTransactionData::DeactivateValidator {
        validator_address: 6,
        signer: 1006,
    };
    contract
        .commit_incoming_transaction(&deactivate, 0, &block(10), &mut store, &mut commit_log)
        .unwrap();
    let retire = IncomingStakingTransactionData::RetireValidator { validator_address: 6 };
    contract
        .commit_incoming_transaction(&retire, 0, &block(20), &mut store, &mut commit_log)
        .unwrap();

    let data = OutgoingStakingTransactionData::DeleteValidator { validator_address: 6 };
    let mut log = TransactionLog::empty();
    let receipt = contract
        .commit_outgoing_transaction(&data, 10_000, 3, &block(100), &mut store, &mut log)
        .unwrap();
    assert_eq!(log.len(), 3);
    assert_eq!(log.entry(0), Log::PayFee { fee: 3 });
    assert_eq!(log.entry(1), Log::Transfer { amount: 10_000 });
    assert_eq!(log.entry(2), Log::DeleteValidator { validator_address: 6 });

    let mut revert_log = TransactionLog::empty();
    contract
        .revert_outgoing_transaction(&data, 10_000, 3, &block(100), receipt, &mut store, &mut revert_log)
        .unwrap();
    assert_eq!(revert_log.len(), 3);
    assert_eq!(revert_log.entry(0), Log::DeleteValidator { validator_address: 6 });
    assert_eq!(revert_log.entry(1), Log::Transfer { amount: 10_000 });
    assert_eq!(revert_log.entry(2), Log::PayFee { fee: 3 });
}

#[test]
fn balance_conservation_across_commits() {
    let mut contract = StakingContract::new();
    let mut store = StakingStore::new();
    let mut log = TransactionLog::empty();
    setup_validator(&mut contract, &mut store, 1, 0);
    assert_eq!(contract.balance(), 10_000);

    let create = IncomingStakingTransactionData::CreateStaker {
        staker_address: 9,
        delegation: Some(1),
    };
    contract
        .commit_incoming_transaction(&create, 700, &block(0), &mut store, &mut log)
        .unwrap();
    assert_eq!(contract.balance(), 10_700);

    let add = IncomingStakingTransactionData::AddStake { staker_address: 9 };
    contract
        .commit_incoming_transaction(&add, 300, &block(1), &mut store, &mut log)
        .unwrap();
    assert_eq!(contract.balance(), 11_000);

    // Signalling transactions move no funds.
    let deactivate = IncomingStakingTransactionData::DeactivateValidator {
        validator_address: 1,
        signer: 1001,
    };
    contract
        .commit_incoming_transaction(&deactivate, 0, &block(2), &mut store, &mut log)
        .unwrap();
    assert_eq!(contract.balance(), 11_000);

    // Jail and penalize move no funds either.
    let jail = Inherent::Jail {
        validator_address: 1,
        offense_event_block: 3,
        slot_range: SlotRange { start: 0, end: 4 },
    };
    contract
        .commit_inherent(&jail, &block(3), &mut store, &mut log)
        .unwrap();
    assert_eq!(contract.balance(), 11_000);
}

#[test]
fn reactivate_all_stake_round_trip() {
    let mut contract = StakingContract::new();
    let mut store = StakingStore::new();
    let mut log = TransactionLog::empty();
    setup_validator(&mut contract, &mut store, 1, 0);
    setup_validator(&mut contract, &mut store, 2, 0);
    let create = IncomingStakingTransactionData::CreateStaker {
        staker_address: 9,
        delegation: Some(1),
    };
    contract
        .commit_incoming_transaction(&create, 1_000, &block(0), &mut store, &mut log)
        .unwrap();
    let set = IncomingStakingTransactionData::SetActiveStake {
        staker_address: 9,
        new_active_balance: 300,
    };
    contract
        .commit_incoming_transaction(&set, 0, &block(5), &mut store, &mut log)
        .unwrap();
    let before = store.get_staker(9).unwrap();
    assert_eq!(before.active_balance, 300);
    assert_eq!(before.inactive_balance, 700);

    // Re-delegate and reactivate everything at once.
    let update = IncomingStakingTransactionData::UpdateStaker {
        staker_address: 9,
        new_delegation: Some(2),
        reactivate_all_stake: true,
    };
    let receipt = contract
        .commit_incoming_transaction(&update, 0, &block(10), &mut store, &mut log)
        .unwrap();
    let s = store.get_staker(9).unwrap();
    assert_eq!(s.active_balance, 1_000);
    assert_eq!(s.inactive_balance, 0);
    assert_eq!(s.inactive_from, None);
    assert_eq!(store.get_validator(1).unwrap().total_stake, 10_000);
    assert_eq!(store.get_validator(2).unwrap().total_stake, 11_000);

    // The receipt carries enough to restore the exact prior split.
    contract
        .revert_incoming_transaction(&update, 0, &block(10), receipt, &mut store, &mut log)
        .unwrap();
    assert_eq!(store.get_staker(9).unwrap(), before);
    assert_eq!(store.get_validator(1).unwrap().total_stake, 10_300);
    assert_eq!(store.get_validator(2).unwrap().total_stake, 10_000);
}

#[test]
fn retire_stake_waits_for_release() {
    let mut contract = StakingContract::new();
    let mut store = StakingStore::new();
    let mut log = TransactionLog::empty();
    setup_validator(&mut contract, &mut store, 1, 0);
    let create = IncomingStakingTransactionData::CreateStaker {
        staker_address: 9,
        delegation: Some(1),
    };
    contract
        .commit_incoming_transaction(&create, 1_000, &block(0), &mut store, &mut log)
        .unwrap();
    let set = IncomingStakingTransactionData::SetActiveStake {
        staker_address: 9,
        new_active_balance: 0,
    };
    contract
        .commit_incoming_transaction(&set, 0, &block(10), &mut store, &mut log)
        .unwrap();

    // Before the release window (2 batches of 32 blocks) has passed.
    let retire = IncomingStakingTransactionData::RetireStake {
        staker_address: 9,
        retire_stake: 1_000,
    };
    let err = contract
        .commit_incoming_transaction(&retire, 0, &block(73), &mut store, &mut log)
        .unwrap_err();
    assert_eq!(err, AccountError::InvalidForState);

    // From block 74 on the inactive funds are released.
    contract
        .commit_incoming_transaction(&retire, 0, &block(74), &mut store, &mut log)
        .unwrap();
    let s = store.get_staker(9).unwrap();
    assert_eq!(s.inactive_balance, 0);
    assert_eq!(s.retired_balance, 1_000);
    assert_eq!(s.inactive_from, None);
}

#[test]
fn failed_remove_stake_charges_fee_from_retired_funds() {
    let mut contract = StakingContract::new();
    let mut store = StakingStore::new();
    let mut log = TransactionLog::empty();
    setup_validator(&mut contract, &mut store, 1, 0);
    let create = IncomingStakingTransactionData::CreateStaker {
        staker_address: 9,
        delegation: Some(1),
    };
    contract
        .commit_incoming_transaction(&create, 1_000, &block(0), &mut store, &mut log)
        .unwrap();
    let set = IncomingStakingTransactionData::SetActiveStake {
        staker_address: 9,
        new_active_balance: 0,
    };
    contract
        .commit_incoming_transaction(&set, 0, &block(10), &mut store, &mut log)
        .unwrap();
    let retire = IncomingStakingTransactionData::RetireStake {
        staker_address: 9,
        retire_stake: 1_000,
    };
    contract
        .commit_incoming_transaction(&retire, 0, &block(80), &mut store, &mut log)
        .unwrap();
    assert_eq!(contract.balance(), 11_000);

    // A fee that would leave a residue below the minimum stake is rejected.
    let data = OutgoingStakingTransactionData::RemoveStake { staker_address: 9 };
    let err = contract
        .commit_failed_transaction(&data, 950, &block(90), &mut store, &mut log)
        .unwrap_err();
    assert_eq!(err, AccountError::InvalidCoinValue);

    // An acceptable fee is charged from the retired balance.
    let receipt = contract
        .commit_failed_transaction(&data, 900, &block(90), &mut store, &mut log)
        .unwrap();
    assert_eq!(receipt, None);
    assert_eq!(store.get_staker(9).unwrap().retired_balance, 100);
    assert_eq!(contract.balance(), 10_100);

    // Reverting returns the fee.
    contract
        .revert_failed_transaction(&data, 900, &block(90), None, &mut store, &mut log)
        .unwrap();
    assert_eq!(store.get_staker(9).unwrap().retired_balance, 1_000);
    assert_eq!(contract.balance(), 11_000);
}

#[test]
fn staker_must_delegate_while_funds_are_at_stake() {
    let mut contract = StakingContract::new();
    let mut store = StakingStore::new();
    let mut log = TransactionLog::empty();
    setup_validator(&mut contract, &mut store, 1, 0);

    // An undelegated staker could only hold retired funds, so creating one
    // with a fresh active balance is rejected.
    let undelegated = IncomingStakingTransactionData::CreateStaker {
        staker_address: 9,
        delegation: None,
    };
    let err = contract
        .commit_incoming_transaction(&undelegated, 1_000, &block(0), &mut store, &mut log)
        .unwrap_err();
    assert_eq!(err, AccountError::InvalidForState);

    // Dropping the delegation is likewise only allowed once active and
    // inactive balances are zero.
    let create = IncomingStakingTransactionData::CreateStaker {
        staker_address: 9,
        delegation: Some(1),
    };
    contract
        .commit_incoming_transaction(&create, 1_000, &block(0), &mut store, &mut log)
        .unwrap();
    let drop_delegation = IncomingStakingTransactionData::UpdateStaker {
        staker_address: 9,
        new_delegation: None,
        reactivate_all_stake: false,
    };
    let err = contract
        .commit_incoming_transaction(&drop_delegation, 0, &block(5), &mut store, &mut log)
        .unwrap_err();
    assert_eq!(err, AccountError::InvalidForState);
}

#[test]
fn tombstone_parks_stakers_of_deleted_validator() {
    let mut contract = StakingContract::new();
    let mut store = StakingStore::new();
    let mut log = TransactionLog::empty();
    setup_validator(&mut contract, &mut store, 1, 0);
    let create = IncomingStakingTransactionData::CreateStaker {
        staker_address: 9,
        delegation: Some(1),
    };
    contract
        .commit_incoming_transaction(&create, 1_000, &block(0), &mut store, &mut log)
        .unwrap();
    let deactivate = IncomingStakingTransactionData::DeactivateValidator {
        validator_address: 1,
        signer: 1001,
    };
    contract
        .commit_incoming_transaction(&deactivate, 0, &block(10), &mut store, &mut log)
        .unwrap();
    let retire = IncomingStakingTransactionData::RetireValidator { validator_address: 1 };
    contract
        .commit_incoming_transaction(&retire, 0, &block(20), &mut store, &mut log)
        .unwrap();

    let delete = OutgoingStakingTransactionData::DeleteValidator { validator_address: 1 };
    let receipt = contract
        .commit_outgoing_transaction(&delete, 10_000, 0, &block(100), &mut store, &mut log)
        .unwrap();
    // The staker's active funds stay parked under a tombstone.
    let t = store.get_tombstone(1).unwrap();
    assert_eq!(t.total_stake, 1_000);
    assert_eq!(t.num_remaining_stakers, 1);
    assert_eq!(contract.balance(), 1_000);

    // The parked staker can still move to a live validator.
    setup_validator(&mut contract, &mut store, 2, 100);
    let update = IncomingStakingTransactionData::UpdateStaker {
        staker_address: 9,
        new_delegation: Some(2),
        reactivate_all_stake: false,
    };
    contract
        .commit_incoming_transaction(&update, 0, &block(110), &mut store, &mut log)
        .unwrap();
    // The tombstone's last staker left, so it is gone.
    assert!(store.get_tombstone(1).is_none());
    assert_eq!(store.get_validator(2).unwrap().total_stake, 11_000);
    assert!(matches!(receipt, Some(Receipt::DeleteValidator { .. })));
}
