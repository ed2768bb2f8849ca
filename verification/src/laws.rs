//! The laws of the staking contract: the invariant every reachable state
//! satisfies, its preservation by every commit and revert, revert symmetry,
//! balance conservation, and the soundness of the reservation system.

use vstd::prelude::*;

use crate::model::StateModel;
use crate::primitives::{AccountError, Address, Coin, SLOTS_PER_EPOCH};
use crate::records::{min_stake_ok, Staker, Validator};
use crate::sums::{
    lemma_map_sum_insert, lemma_map_sum_lower, lemma_map_sum_nonneg, lemma_map_sum_remove,
    lemma_map_sum_update, lemma_map_sum_zero, map_sum,
};
use crate::transactions::{
    IncomingStakingTransactionData, Inherent, OutgoingStakingTransactionData, ReceiptModel,
};

verus! {

broadcast use vstd::set::group_set_axioms, vstd::map::group_map_axioms;

/// The active balance a staker entry contributes to delegation target `d`.
pub open spec fn stake_to(d: Address) -> spec_fn(Address, Staker) -> int {
    |a: Address, s: Staker|
        if s.delegation == Some(d) {
            s.active_balance as int
        } else {
            0
        }
}

/// One for each staker entry delegating to `d`.
pub open spec fn count_to(d: Address) -> spec_fn(Address, Staker) -> int {
    |a: Address, s: Staker|
        if s.delegation == Some(d) {
            1int
        } else {
            0
        }
}

/// The funds a staker entry holds outside any validator's total stake.
pub open spec fn locked_of() -> spec_fn(Address, Staker) -> int {
    |a: Address, s: Staker| s.inactive_balance + s.retired_balance
}

/// The total stake a validator entry contributes to the contract balance.
pub open spec fn total_of() -> spec_fn(Address, Validator) -> int {
    |a: Address, v: Validator| v.total_stake as int
}

/// The stake a tombstone entry still parks in the contract.
pub open spec fn tomb_total_of() -> spec_fn(Address, crate::records::Tombstone) -> int {
    |a: Address, t: crate::records::Tombstone| t.total_stake as int
}

/// Sum of the active balances of all stakers delegating to `d`.
pub open spec fn delegated_stake(ss: Map<Address, Staker>, d: Address) -> int {
    map_sum(ss, stake_to(d))
}

/// Number of stakers delegating to `d`.
pub open spec fn delegated_count(ss: Map<Address, Staker>, d: Address) -> int {
    map_sum(ss, count_to(d))
}

/// Sum of all inactive and retired staker balances.
pub open spec fn locked_funds(ss: Map<Address, Staker>) -> int {
    map_sum(ss, locked_of())
}

/// Sum of all validator total stakes.
pub open spec fn validators_total(vs: Map<Address, Validator>) -> int {
    map_sum(vs, total_of())
}

/// Sum of all tombstone total stakes.
pub open spec fn tombstones_total(ts: Map<Address, crate::records::Tombstone>) -> int {
    map_sum(ts, tomb_total_of())
}

/// A staker record is sound: every non-zero component reaches the minimum
/// stake, an undelegated staker holds only retired funds, the inactivity
/// mark tracks the inactive balance, some funds remain, and the delegation
/// target exists.
pub open spec fn staker_ok(m: StateModel, a: Address) -> bool {
    let s = m.stakers[a];
    &&& min_stake_ok(s.active_balance, s.inactive_balance, s.retired_balance)
    &&& (s.inactive_from is Some <==> s.inactive_balance > 0)
    &&& s.active_balance + s.inactive_balance + s.retired_balance > 0
    &&& match s.delegation {
        Some(d) => m.validators.contains_key(d) || m.tombstones.contains_key(d),
        None => s.active_balance == 0 && s.inactive_balance == 0,
    }
}

/// A validator record is sound: its total stake is the deposit plus the
/// delegated active stake, its staker count matches, and the retirement
/// mark is consistent.
pub open spec fn validator_ok(m: StateModel, a: Address) -> bool {
    let v = m.validators[a];
    &&& v.total_stake == v.deposit + delegated_stake(m.stakers, a)
    &&& v.num_stakers == delegated_count(m.stakers, a)
    &&& (v.retired <==> v.retired_from is Some)
}

/// A tombstone is sound: it parks exactly its remaining stakers' active
/// stake and disappears with its last staker.
pub open spec fn tombstone_ok(m: StateModel, a: Address) -> bool {
    let t = m.tombstones[a];
    &&& t.total_stake == delegated_stake(m.stakers, a)
    &&& t.num_remaining_stakers == delegated_count(m.stakers, a)
    &&& t.num_remaining_stakers > 0
}

/// An active-set entry is sound: it belongs to an active validator and
/// carries its total stake.
pub open spec fn active_entry_ok(m: StateModel, a: Address) -> bool {
    &&& m.validators.contains_key(a)
    &&& m.validators[a].active()
    &&& m.active_validators[a] == m.validators[a].total_stake
}

/// The invariant of every reachable state: record soundness, the
/// active-set characterisation, the punishment bitset sizes, and
/// conservation of the contract balance.
pub open spec fn wf(m: StateModel) -> bool {
    &&& m.validators.dom().finite()
    &&& m.stakers.dom().finite()
    &&& m.tombstones.dom().finite()
    &&& m.active_validators.dom().finite()
    &&& forall|a: Address| #[trigger]
        m.validators.contains_key(a) ==> validator_ok(m, a) && !m.tombstones.contains_key(a)
    &&& forall|a: Address| #[trigger] m.stakers.contains_key(a) ==> staker_ok(m, a)
    &&& forall|a: Address| #[trigger] m.tombstones.contains_key(a) ==> tombstone_ok(m, a)
    &&& forall|a: Address| #[trigger] m.active_validators.contains_key(a) ==> active_entry_ok(m, a)
    &&& forall|a: Address| #[trigger]
        m.validators.contains_key(a) && m.validators[a].active()
            ==> m.active_validators.contains_key(a)
    &&& m.punished.previous_batch.len() == SLOTS_PER_EPOCH as nat
    &&& m.punished.current_batch.len() == SLOTS_PER_EPOCH as nat
    &&& m.balance as int == validators_total(m.validators) + tombstones_total(m.tombstones)
        + locked_funds(m.stakers)
}

/// Inserting a fresh staker shifts each delegation sum by exactly that
/// staker's contribution.
pub proof fn lemma_sums_insert_staker(ss: Map<Address, Staker>, a: Address, s: Staker)
    requires
        ss.dom().finite(),
        !ss.contains_key(a),
    ensures
        forall|d: Address| #[trigger]
            delegated_stake(ss.insert(a, s), d) == delegated_stake(ss, d) + (
            if s.delegation == Some(d) {
                s.active_balance as int
            } else {
                0
            }),
        forall|d: Address| #[trigger]
            delegated_count(ss.insert(a, s), d) == delegated_count(ss, d) + (
            if s.delegation == Some(d) {
                1int
            } else {
                0
            }),
        locked_funds(ss.insert(a, s)) == locked_funds(ss) + s.inactive_balance
            + s.retired_balance,
{
    assert forall|d: Address| #[trigger]
        delegated_stake(ss.insert(a, s), d) == delegated_stake(ss, d) + (
        if s.delegation == Some(d) {
            s.active_balance as int
        } else {
            0
        }) by {
        lemma_map_sum_insert(ss, stake_to(d), a, s);
    };
    assert forall|d: Address| #[trigger]
        delegated_count(ss.insert(a, s), d) == delegated_count(ss, d) + (
        if s.delegation == Some(d) {
            1int
        } else {
            0
        }) by {
        lemma_map_sum_insert(ss, count_to(d), a, s);
    };
    lemma_map_sum_insert(ss, locked_of(), a, s);
}

/// Overwriting a staker shifts each delegation sum by the difference of the
/// old and new contributions.
pub proof fn lemma_sums_update_staker(ss: Map<Address, Staker>, a: Address, s: Staker)
    requires
        ss.dom().finite(),
        ss.contains_key(a),
    ensures
        forall|d: Address| #[trigger]
            delegated_stake(ss.insert(a, s), d) == delegated_stake(ss, d) - (
            if ss[a].delegation == Some(d) {
                ss[a].active_balance as int
            } else {
                0
            }) + (
            if s.delegation == Some(d) {
                s.active_balance as int
            } else {
                0
            }),
        forall|d: Address| #[trigger]
            delegated_count(ss.insert(a, s), d) == delegated_count(ss, d) - (
            if ss[a].delegation == Some(d) {
                1int
            } else {
                0
            }) + (
            if s.delegation == Some(d) {
                1int
            } else {
                0
            }),
        locked_funds(ss.insert(a, s)) == locked_funds(ss) - ss[a].inactive_balance
            - ss[a].retired_balance + s.inactive_balance + s.retired_balance,
{
    assert forall|d: Address| #[trigger]
        delegated_stake(ss.insert(a, s), d) == delegated_stake(ss, d) - (
        if ss[a].delegation == Some(d) {
            ss[a].active_balance as int
        } else {
            0
        }) + (
        if s.delegation == Some(d) {
            s.active_balance as int
        } else {
            0
        }) by {
        lemma_map_sum_update(ss, stake_to(d), a, s);
    };
    assert forall|d: Address| #[trigger]
        delegated_count(ss.insert(a, s), d) == delegated_count(ss, d) - (
        if ss[a].delegation == Some(d) {
            1int
        } else {
            0
        }) + (
        if s.delegation == Some(d) {
            1int
        } else {
            0
        }) by {
        lemma_map_sum_update(ss, count_to(d), a, s);
    };
    lemma_map_sum_update(ss, locked_of(), a, s);
}

/// Removing a staker takes exactly its contribution out of each sum.
pub proof fn lemma_sums_remove_staker(ss: Map<Address, Staker>, a: Address)
    requires
        ss.dom().finite(),
        ss.contains_key(a),
    ensures
        forall|d: Address| #[trigger]
            delegated_stake(ss.remove(a), d) == delegated_stake(ss, d) - (
            if ss[a].delegation == Some(d) {
                ss[a].active_balance as int
            } else {
                0
            }),
        forall|d: Address| #[trigger]
            delegated_count(ss.remove(a), d) == delegated_count(ss, d) - (
            if ss[a].delegation == Some(d) {
                1int
            } else {
                0
            }),
        locked_funds(ss.remove(a)) == locked_funds(ss) - ss[a].inactive_balance
            - ss[a].retired_balance,
{
    assert forall|d: Address| #[trigger]
        delegated_stake(ss.remove(a), d) == delegated_stake(ss, d) - (
        if ss[a].delegation == Some(d) {
            ss[a].active_balance as int
        } else {
            0
        }) by {
        lemma_map_sum_remove(ss, stake_to(d), a);
    };
    assert forall|d: Address| #[trigger]
        delegated_count(ss.remove(a), d) == delegated_count(ss, d) - (
        if ss[a].delegation == Some(d) {
            1int
        } else {
            0
        }) by {
        lemma_map_sum_remove(ss, count_to(d), a);
    };
    lemma_map_sum_remove(ss, locked_of(), a);
}

/// No staker delegates to an address that is neither a validator nor a
/// tombstone, so such an address carries no delegated stake.
pub proof fn lemma_no_delegators(m: StateModel, d: Address)
    requires
        wf(m),
        !m.validators.contains_key(d),
        !m.tombstones.contains_key(d),
    ensures
        delegated_stake(m.stakers, d) == 0,
        delegated_count(m.stakers, d) == 0,
{
    assert forall|k: Address| m.stakers.contains_key(k) implies #[trigger] stake_to(d)(
        k,
        m.stakers[k],
    ) == 0 by {
        assert(staker_ok(m, k));
    };
    assert forall|k: Address| m.stakers.contains_key(k) implies #[trigger] count_to(d)(
        k,
        m.stakers[k],
    ) == 0 by {
        assert(staker_ok(m, k));
    };
    lemma_map_sum_zero(m.stakers, stake_to(d));
    lemma_map_sum_zero(m.stakers, count_to(d));
}

/// A staker that delegates to `d` witnesses at least its own contribution in
/// the sums for `d`.
pub proof fn lemma_delegator_bounds(ss: Map<Address, Staker>, a: Address, d: Address)
    requires
        ss.dom().finite(),
        ss.contains_key(a),
        ss[a].delegation == Some(d),
    ensures
        delegated_stake(ss, d) >= ss[a].active_balance,
        delegated_count(ss, d) >= 1,
{
    assert(stake_to(d)(a, ss[a]) == ss[a].active_balance as int);
    lemma_map_sum_lower(ss, stake_to(d), a);
    lemma_map_sum_lower(ss, count_to(d), a);
}

/// Every validator's total stake, every tombstone's parked stake and every
/// staker's locked funds are bounded by the contract balance.
pub proof fn lemma_balance_bounds(m: StateModel)
    requires
        wf(m),
    ensures
        forall|a: Address| #[trigger]
            m.validators.contains_key(a) ==> m.validators[a].total_stake <= m.balance,
        forall|a: Address| #[trigger]
            m.tombstones.contains_key(a) ==> m.tombstones[a].total_stake <= m.balance,
        forall|a: Address| #[trigger]
            m.stakers.contains_key(a) ==> m.stakers[a].inactive_balance
                + m.stakers[a].retired_balance <= m.balance,
{
    lemma_map_sum_nonneg(m.validators, total_of());
    lemma_map_sum_nonneg(m.tombstones, tomb_total_of());
    lemma_map_sum_nonneg(m.stakers, locked_of());
    assert forall|a: Address| #[trigger]
        m.validators.contains_key(a) implies m.validators[a].total_stake <= m.balance by {
        lemma_map_sum_lower(m.validators, total_of(), a);
    };
    assert forall|a: Address| #[trigger]
        m.tombstones.contains_key(a) implies m.tombstones[a].total_stake <= m.balance by {
        lemma_map_sum_lower(m.tombstones, tomb_total_of(), a);
    };
    assert forall|a: Address| #[trigger]
        m.stakers.contains_key(a) implies m.stakers[a].inactive_balance
        + m.stakers[a].retired_balance <= m.balance by {
        lemma_map_sum_lower(m.stakers, locked_of(), a);
    };
}

} // verus!

verus! {

/// Rewriting a validator record without touching its total stake or staker
/// count (and keeping the retirement mark consistent) preserves the
/// invariant.
pub proof fn lemma_wf_with_validator_same_totals(m: StateModel, a: Address, v2: Validator)
    requires
        wf(m),
        m.validators.contains_key(a),
        v2.deposit == m.validators[a].deposit,
        v2.total_stake == m.validators[a].total_stake,
        v2.num_stakers == m.validators[a].num_stakers,
        v2.retired <==> v2.retired_from is Some,
    ensures
        wf(crate::model::with_validator(m, a, v2)),
{
    let m2 = crate::model::with_validator(m, a, v2);
    lemma_map_sum_update(m.validators, total_of(), a, v2);
    assert forall|b: Address| #[trigger]
        m2.validators.contains_key(b) implies validator_ok(m2, b) && !m2.tombstones.contains_key(
        b,
    ) by {
        assert(m.validators.contains_key(b));
        assert(validator_ok(m, b));
    };
    assert forall|b: Address| #[trigger] m2.stakers.contains_key(b) implies staker_ok(m2, b) by {
        assert(staker_ok(m, b));
    };
    assert forall|b: Address| #[trigger]
        m2.active_validators.contains_key(b) implies active_entry_ok(m2, b) by {
        if b != a {
            assert(m.active_validators.contains_key(b));
            assert(active_entry_ok(m, b));
        }
    };
    assert forall|b: Address| #[trigger]
        m2.validators.contains_key(b) && m2.validators[b].active() implies m2.active_validators.contains_key(
        b,
    ) by {
        if b != a {
            assert(m.validators.contains_key(b) && m.validators[b].active());
        }
    };
}

/// Creating a validator preserves the invariant.
pub proof fn lemma_wf_create_validator(
    m: StateModel,
    m2: StateModel,
    validator_address: Address,
    signing_key: Address,
    voting_key: u64,
    reward_address: Address,
    signal_data: Option<u64>,
    value: Coin,
)
    requires
        wf(m),
        crate::model::create_validator_act(
            m,
            validator_address,
            signing_key,
            voting_key,
            reward_address,
            signal_data,
            value,
        ) == Ok::<StateModel, AccountError>(m2),
    ensures
        wf(m2),
{
    let a = validator_address;
    let v = Validator {
        signing_key,
        voting_key,
        reward_address,
        signal_data,
        deposit: value,
        total_stake: value,
        num_stakers: 0,
        inactive_from: None,
        jailed_from: None,
        retired: false,
        retired_from: None,
    };
    lemma_no_delegators(m, a);
    lemma_map_sum_insert(m.validators, total_of(), a, v);
    assert forall|b: Address| #[trigger]
        m2.validators.contains_key(b) implies validator_ok(m2, b) && !m2.tombstones.contains_key(
        b,
    ) by {
        if b == a {
            assert(m2.stakers == m.stakers);
            assert(delegated_stake(m2.stakers, a) == 0);
            assert(delegated_count(m2.stakers, a) == 0);
            assert(m2.validators[a] == v);
        } else {
            assert(m.validators.contains_key(b));
            assert(validator_ok(m, b));
        }
    };
    assert forall|b: Address| #[trigger] m2.stakers.contains_key(b) implies staker_ok(m2, b) by {
        assert(staker_ok(m, b));
    };
    assert forall|b: Address| #[trigger]
        m2.active_validators.contains_key(b) implies active_entry_ok(m2, b) by {
        if b != a {
            assert(m.active_validators.contains_key(b));
            assert(active_entry_ok(m, b));
        }
    };
    assert forall|b: Address| #[trigger]
        m2.validators.contains_key(b) && m2.validators[b].active() implies m2.active_validators.contains_key(
        b,
    ) by {
        if b != a {
            assert(m.validators.contains_key(b) && m.validators[b].active());
        }
    };
}

} // verus!

verus! {

/// Creating a staker preserves the invariant.
pub proof fn lemma_wf_create_staker(
    m: StateModel,
    m2: StateModel,
    staker_address: Address,
    value: Coin,
    delegation: Option<Address>,
)
    requires
        wf(m),
        crate::model::create_staker_act(m, staker_address, value, delegation)
            == Ok::<StateModel, AccountError>(m2),
    ensures
        wf(m2),
{
    let a = staker_address;
    let d = delegation->0;
    let v = m.validators[d];
    let s_new = Staker {
        active_balance: value,
        inactive_balance: 0,
        retired_balance: 0,
        delegation,
        inactive_from: None,
    };
    let v2 = Validator {
        total_stake: (v.total_stake + value) as u64,
        num_stakers: (v.num_stakers + 1) as u64,
        ..v
    };
    lemma_sums_insert_staker(m.stakers, a, s_new);
    lemma_map_sum_update(m.validators, total_of(), d, v2);
    assert(validator_ok(m, d));
    assert forall|b: Address| #[trigger]
        m2.validators.contains_key(b) implies validator_ok(m2, b) && !m2.tombstones.contains_key(
        b,
    ) by {
        assert(m.validators.contains_key(b));
        assert(validator_ok(m, b));
        assert(delegated_stake(m2.stakers, b) == delegated_stake(m.stakers, b) + (
        if b == d {
            value as int
        } else {
            0
        }));
        assert(delegated_count(m2.stakers, b) == delegated_count(m.stakers, b) + (
        if b == d {
            1int
        } else {
            0
        }));
    };
    assert forall|b: Address| #[trigger] m2.stakers.contains_key(b) implies staker_ok(m2, b) by {
        if b != a {
            assert(m.stakers.contains_key(b));
            assert(staker_ok(m, b));
        }
    };
    assert forall|b: Address| #[trigger]
        m2.tombstones.contains_key(b) implies tombstone_ok(m2, b) by {
        assert(m.tombstones.contains_key(b));
        assert(tombstone_ok(m, b));
        assert(b != d);
    };
    assert forall|b: Address| #[trigger]
        m2.active_validators.contains_key(b) implies active_entry_ok(m2, b) by {
        if b != d {
            assert(m.active_validators.contains_key(b));
            assert(active_entry_ok(m, b));
        }
    };
    assert forall|b: Address| #[trigger]
        m2.validators.contains_key(b) && m2.validators[b].active() implies m2.active_validators.contains_key(
        b,
    ) by {
        if b != d {
            assert(m.validators.contains_key(b) && m.validators[b].active());
        }
    };
}

/// Adding stake preserves the invariant.
pub proof fn lemma_wf_add_stake(
    m: StateModel,
    m2: StateModel,
    staker_address: Address,
    value: Coin,
)
    requires
        wf(m),
        crate::model::add_stake_act(m, staker_address, value) == Ok::<StateModel, AccountError>(
            m2,
        ),
    ensures
        wf(m2),
{
    let a = staker_address;
    let s = m.stakers[a];
    let d = s.delegation->0;
    let s2 = Staker { active_balance: (s.active_balance + value) as u64, ..s };
    assert(staker_ok(m, a));
    lemma_sums_update_staker(m.stakers, a, s2);
    if m.validators.contains_key(d) {
        let v = m.validators[d];
        let v2 = Validator { total_stake: (v.total_stake + value) as u64, ..v };
        lemma_map_sum_update(m.validators, total_of(), d, v2);
        assert(validator_ok(m, d));
    } else {
        let t = m.tombstones[d];
        let t2 = crate::records::Tombstone {
            total_stake: (t.total_stake + value) as u64,
            ..t
        };
        lemma_map_sum_update(m.tombstones, tomb_total_of(), d, t2);
        assert(tombstone_ok(m, d));
    }
    assert forall|b: Address| #[trigger]
        m2.validators.contains_key(b) implies validator_ok(m2, b) && !m2.tombstones.contains_key(
        b,
    ) by {
        assert(m.validators.contains_key(b));
        assert(validator_ok(m, b));
        assert(delegated_stake(m2.stakers, b) == delegated_stake(m.stakers, b) + (
        if b == d {
            value as int
        } else {
            0
        }));
        assert(delegated_count(m2.stakers, b) == delegated_count(m.stakers, b));
    };
    assert forall|b: Address| #[trigger] m2.stakers.contains_key(b) implies staker_ok(m2, b) by {
        assert(m.stakers.contains_key(b));
        assert(staker_ok(m, b));
    };
    assert forall|b: Address| #[trigger]
        m2.tombstones.contains_key(b) implies tombstone_ok(m2, b) by {
        assert(m.tombstones.contains_key(b));
        assert(tombstone_ok(m, b));
        assert(delegated_stake(m2.stakers, b) == delegated_stake(m.stakers, b) + (
        if b == d {
            value as int
        } else {
            0
        }));
        assert(delegated_count(m2.stakers, b) == delegated_count(m.stakers, b));
    };
    assert forall|b: Address| #[trigger]
        m2.active_validators.contains_key(b) implies active_entry_ok(m2, b) by {
        if b != d {
            assert(m.active_validators.contains_key(b));
            assert(active_entry_ok(m, b));
        } else {
            assert(m.validators.contains_key(d));
        }
    };
    assert forall|b: Address| #[trigger]
        m2.validators.contains_key(b) && m2.validators[b].active() implies m2.active_validators.contains_key(
        b,
    ) by {
        if b != d {
            assert(m.validators.contains_key(b) && m.validators[b].active());
        }
    };
}

} // verus!

verus! {

/// Rebalancing active against inactive stake preserves the invariant.
pub proof fn lemma_wf_set_active_stake(
    m: StateModel,
    m2: StateModel,
    rc: ReceiptModel,
    staker_address: Address,
    new_active_balance: Coin,
    block_number: u32,
)
    requires
        wf(m),
        crate::model::set_active_stake_act(m, staker_address, new_active_balance, block_number)
            == Ok::<(StateModel, ReceiptModel), AccountError>((m2, rc)),
    ensures
        wf(m2),
{
    let a = staker_address;
    let s = m.stakers[a];
    let total = s.active_balance + s.inactive_balance;
    let new_inactive = (total - new_active_balance) as u64;
    let s2 = Staker {
        active_balance: new_active_balance,
        inactive_balance: new_inactive,
        inactive_from: if new_inactive == 0 {
            None
        } else {
            Some(block_number)
        },
        ..s
    };
    assert(staker_ok(m, a));
    lemma_sums_update_staker(m.stakers, a, s2);
    match s.delegation {
        None => {},
        Some(d) => {
            if m.validators.contains_key(d) {
                let v = m.validators[d];
                let v2 = Validator {
                    total_stake: (v.total_stake - s.active_balance + new_active_balance) as u64,
                    ..v
                };
                lemma_map_sum_update(m.validators, total_of(), d, v2);
                assert(validator_ok(m, d));
            } else {
                let t = m.tombstones[d];
                let t2 = crate::records::Tombstone {
                    total_stake: (t.total_stake - s.active_balance + new_active_balance) as u64,
                    ..t
                };
                lemma_map_sum_update(m.tombstones, tomb_total_of(), d, t2);
                assert(tombstone_ok(m, d));
            }
        },
    }
    let dd = s.delegation;
    assert forall|b: Address| #[trigger]
        m2.validators.contains_key(b) implies validator_ok(m2, b) && !m2.tombstones.contains_key(
        b,
    ) by {
        assert(m.validators.contains_key(b));
        assert(validator_ok(m, b));
        assert(delegated_stake(m2.stakers, b) == delegated_stake(m.stakers, b) + (
        if dd == Some(b) {
            new_active_balance - s.active_balance
        } else {
            0
        }));
        assert(delegated_count(m2.stakers, b) == delegated_count(m.stakers, b));
    };
    assert forall|b: Address| #[trigger] m2.stakers.contains_key(b) implies staker_ok(m2, b) by {
        assert(m.stakers.contains_key(b));
        assert(staker_ok(m, b));
    };
    assert forall|b: Address| #[trigger]
        m2.tombstones.contains_key(b) implies tombstone_ok(m2, b) by {
        assert(m.tombstones.contains_key(b));
        assert(tombstone_ok(m, b));
        assert(delegated_stake(m2.stakers, b) == delegated_stake(m.stakers, b) + (
        if dd == Some(b) {
            new_active_balance - s.active_balance
        } else {
            0
        }));
        assert(delegated_count(m2.stakers, b) == delegated_count(m.stakers, b));
    };
    assert forall|b: Address| #[trigger]
        m2.active_validators.contains_key(b) implies active_entry_ok(m2, b) by {
        if dd != Some(b) {
            assert(m.active_validators.contains_key(b));
            assert(active_entry_ok(m, b));
        } else {
            assert(m.validators.contains_key(b) ==> validator_ok(m, b));
        }
    };
    assert forall|b: Address| #[trigger]
        m2.validators.contains_key(b) && m2.validators[b].active() implies m2.active_validators.contains_key(
        b,
    ) by {
        if dd != Some(b) {
            assert(m.validators.contains_key(b) && m.validators[b].active());
        }
    };
}

/// Retiring inactive stake preserves the invariant.
pub proof fn lemma_wf_retire_stake(
    m: StateModel,
    m2: StateModel,
    rc: ReceiptModel,
    staker_address: Address,
    retire_stake: Coin,
    block_number: u32,
)
    requires
        wf(m),
        crate::model::retire_stake_act(m, staker_address, retire_stake, block_number)
            == Ok::<(StateModel, ReceiptModel), AccountError>((m2, rc)),
    ensures
        wf(m2),
{
    let a = staker_address;
    let s = m.stakers[a];
    let s2 = Staker {
        inactive_balance: (s.inactive_balance - retire_stake) as u64,
        retired_balance: (s.retired_balance + retire_stake) as u64,
        inactive_from: if s.inactive_balance - retire_stake == 0 {
            None
        } else {
            s.inactive_from
        },
        ..s
    };
    assert(staker_ok(m, a));
    lemma_sums_update_staker(m.stakers, a, s2);
    assert forall|b: Address| #[trigger]
        m2.validators.contains_key(b) implies validator_ok(m2, b) && !m2.tombstones.contains_key(
        b,
    ) by {
        assert(m.validators.contains_key(b));
        assert(validator_ok(m, b));
        assert(delegated_stake(m2.stakers, b) == delegated_stake(m.stakers, b));
        assert(delegated_count(m2.stakers, b) == delegated_count(m.stakers, b));
    };
    assert forall|b: Address| #[trigger] m2.stakers.contains_key(b) implies staker_ok(m2, b) by {
        assert(m.stakers.contains_key(b));
        assert(staker_ok(m, b));
    };
    assert forall|b: Address| #[trigger]
        m2.tombstones.contains_key(b) implies tombstone_ok(m2, b) by {
        assert(m.tombstones.contains_key(b));
        assert(tombstone_ok(m, b));
        assert(delegated_stake(m2.stakers, b) == delegated_stake(m.stakers, b));
        assert(delegated_count(m2.stakers, b) == delegated_count(m.stakers, b));
    };
    assert forall|b: Address| #[trigger]
        m2.active_validators.contains_key(b) implies active_entry_ok(m2, b) by {
        assert(m.active_validators.contains_key(b));
        assert(active_entry_ok(m, b));
    };
    assert forall|b: Address| #[trigger]
        m2.validators.contains_key(b) && m2.validators[b].active() implies m2.active_validators.contains_key(
        b,
    ) by {
        assert(m.validators.contains_key(b) && m.validators[b].active());
    };
}

} // verus!

verus! {

/// A target without delegating stakers also carries no delegated stake, and
/// no staker points at it.
pub proof fn lemma_count_zero_stake_zero(ss: Map<Address, Staker>, d: Address)
    requires
        ss.dom().finite(),
        delegated_count(ss, d) == 0,
    ensures
        delegated_stake(ss, d) == 0,
        forall|k: Address| #[trigger] ss.contains_key(k) ==> ss[k].delegation != Some(d),
{
    assert forall|k: Address| #[trigger] ss.contains_key(k) implies ss[k].delegation != Some(
        d,
    ) by {
        lemma_map_sum_lower(ss, count_to(d), k);
    };
    assert forall|k: Address| ss.contains_key(k) implies #[trigger] stake_to(d)(k, ss[k])
        == 0 by {
        assert(ss[k].delegation != Some(d));
    };
    lemma_map_sum_zero(ss, stake_to(d));
}

/// Deleting a released validator preserves the invariant.
pub proof fn lemma_wf_delete_validator(
    m: StateModel,
    m2: StateModel,
    rc: ReceiptModel,
    validator_address: Address,
    block_number: u32,
    total_value: Coin,
)
    requires
        wf(m),
        crate::model::delete_validator_act(m, validator_address, block_number, total_value)
            == Ok::<(StateModel, ReceiptModel), AccountError>((m2, rc)),
    ensures
        wf(m2),
{
    let a = validator_address;
    let v = m.validators[a];
    assert(validator_ok(m, a));
    lemma_map_sum_remove(m.validators, total_of(), a);
    if v.num_stakers > 0 {
        let t = crate::records::Tombstone {
            total_stake: (v.total_stake - v.deposit) as u64,
            num_remaining_stakers: v.num_stakers,
        };
        lemma_map_sum_insert(m.tombstones, tomb_total_of(), a, t);
    } else {
        lemma_count_zero_stake_zero(m.stakers, a);
    }
    assert forall|b: Address| #[trigger]
        m2.validators.contains_key(b) implies validator_ok(m2, b) && !m2.tombstones.contains_key(
        b,
    ) by {
        assert(m.validators.contains_key(b));
        assert(validator_ok(m, b));
    };
    assert forall|b: Address| #[trigger] m2.stakers.contains_key(b) implies staker_ok(m2, b) by {
        assert(m.stakers.contains_key(b));
        assert(staker_ok(m, b));
        if v.num_stakers == 0 {
            assert(m.stakers[b].delegation != Some(a));
        }
    };
    assert forall|b: Address| #[trigger]
        m2.tombstones.contains_key(b) implies tombstone_ok(m2, b) by {
        if b != a {
            assert(m.tombstones.contains_key(b));
            assert(tombstone_ok(m, b));
        }
    };
    assert forall|b: Address| #[trigger]
        m2.active_validators.contains_key(b) implies active_entry_ok(m2, b) by {
        assert(m.active_validators.contains_key(b));
        assert(active_entry_ok(m, b));
    };
    assert forall|b: Address| #[trigger]
        m2.validators.contains_key(b) && m2.validators[b].active() implies m2.active_validators.contains_key(
        b,
    ) by {
        assert(m.validators.contains_key(b) && m.validators[b].active());
    };
}

/// Removing retired stake preserves the invariant.
pub proof fn lemma_wf_remove_stake(
    m: StateModel,
    m2: StateModel,
    deleted: Option<Option<Address>>,
    staker_address: Address,
    amount: Coin,
)
    requires
        wf(m),
        crate::model::remove_stake_act(m, staker_address, amount) == Ok::<
            (StateModel, Option<Option<Address>>),
            AccountError,
        >((m2, deleted)),
    ensures
        wf(m2),
{
    let a = staker_address;
    let s = m.stakers[a];
    let new_retired = (s.retired_balance - amount) as u64;
    assert(staker_ok(m, a));
    if s.active_balance == 0 && s.inactive_balance == 0 && new_retired == 0 {
        // The staker disappears; its delegation is uncounted.
        lemma_sums_remove_staker(m.stakers, a);
        match s.delegation {
            None => {},
            Some(d) => {
                if m.validators.contains_key(d) {
                    let v = m.validators[d];
                    let v2 = Validator { num_stakers: (v.num_stakers - 1) as u64, ..v };
                    lemma_map_sum_update(m.validators, total_of(), d, v2);
                    assert(validator_ok(m, d));
                } else {
                    let t = m.tombstones[d];
                    assert(tombstone_ok(m, d));
                    if t.num_remaining_stakers == 1 {
                        lemma_map_sum_remove(m.tombstones, tomb_total_of(), d);
                        lemma_count_zero_stake_zero(m2.stakers, d);
                        lemma_delegator_bounds(m.stakers, a, d);
                        assert(delegated_stake(m2.stakers, d) == 0);
                        assert(t.total_stake == 0);
                    } else {
                        let t2 = crate::records::Tombstone {
                            num_remaining_stakers: (t.num_remaining_stakers - 1) as u64,
                            ..t
                        };
                        lemma_map_sum_update(m.tombstones, tomb_total_of(), d, t2);
                    }
                }
            },
        }
        let dd = s.delegation;
        assert forall|b: Address| #[trigger]
            m2.validators.contains_key(b) implies validator_ok(m2, b)
            && !m2.tombstones.contains_key(b) by {
            assert(m.validators.contains_key(b));
            assert(validator_ok(m, b));
            assert(delegated_stake(m2.stakers, b) == delegated_stake(m.stakers, b));
            assert(delegated_count(m2.stakers, b) == delegated_count(m.stakers, b) - (
            if dd == Some(b) {
                1int
            } else {
                0
            }));
        };
        assert forall|b: Address| #[trigger]
            m2.stakers.contains_key(b) implies staker_ok(m2, b) by {
            assert(m.stakers.contains_key(b));
            assert(staker_ok(m, b));
            match m.stakers[b].delegation {
                Some(db) => {
                    if !m2.validators.contains_key(db) && !m2.tombstones.contains_key(db) {
                        lemma_delegator_bounds(m2.stakers, b, db);
                    }
                },
                None => {},
            }
        };
        assert forall|b: Address| #[trigger]
            m2.tombstones.contains_key(b) implies tombstone_ok(m2, b) by {
            assert(m.tombstones.contains_key(b));
            assert(tombstone_ok(m, b));
            assert(delegated_stake(m2.stakers, b) == delegated_stake(m.stakers, b));
            assert(delegated_count(m2.stakers, b) == delegated_count(m.stakers, b) - (
            if dd == Some(b) {
                1int
            } else {
                0
            }));
        };
        assert forall|b: Address| #[trigger]
            m2.active_validators.contains_key(b) implies active_entry_ok(m2, b) by {
            if dd != Some(b) {
                assert(m.active_validators.contains_key(b));
                assert(active_entry_ok(m, b));
            } else {
                assert(m.validators.contains_key(b) ==> validator_ok(m, b));
            }
        };
        assert forall|b: Address| #[trigger]
            m2.validators.contains_key(b) && m2.validators[b].active() implies m2.active_validators.contains_key(
            b,
        ) by {
            if dd != Some(b) {
                assert(m.validators.contains_key(b) && m.validators[b].active());
            }
        };
    } else {
        let s2 = Staker { retired_balance: new_retired, ..s };
        lemma_sums_update_staker(m.stakers, a, s2);
        assert forall|b: Address| #[trigger]
            m2.validators.contains_key(b) implies validator_ok(m2, b)
            && !m2.tombstones.contains_key(b) by {
            assert(m.validators.contains_key(b));
            assert(validator_ok(m, b));
            assert(delegated_stake(m2.stakers, b) == delegated_stake(m.stakers, b));
            assert(delegated_count(m2.stakers, b) == delegated_count(m.stakers, b));
        };
        assert forall|b: Address| #[trigger]
            m2.stakers.contains_key(b) implies staker_ok(m2, b) by {
            assert(m.stakers.contains_key(b));
            assert(staker_ok(m, b));
        };
        assert forall|b: Address| #[trigger]
            m2.tombstones.contains_key(b) implies tombstone_ok(m2, b) by {
            assert(m.tombstones.contains_key(b));
            assert(tombstone_ok(m, b));
            assert(delegated_stake(m2.stakers, b) == delegated_stake(m.stakers, b));
            assert(delegated_count(m2.stakers, b) == delegated_count(m.stakers, b));
        };
        assert forall|b: Address| #[trigger]
            m2.active_validators.contains_key(b) implies active_entry_ok(m2, b) by {
            assert(m.active_validators.contains_key(b));
            assert(active_entry_ok(m, b));
        };
        assert forall|b: Address| #[trigger]
            m2.validators.contains_key(b) && m2.validators[b].active() implies m2.active_validators.contains_key(
            b,
        ) by {
            assert(m.validators.contains_key(b) && m.validators[b].active());
        };
    }
}

} // verus!

verus! {

/// Changing a staker's delegation preserves the invariant.
pub proof fn lemma_wf_update_staker(
    m: StateModel,
    m2: StateModel,
    rc: ReceiptModel,
    staker_address: Address,
    new_delegation: Option<Address>,
    reactivate_all_stake: bool,
)
    requires
        wf(m),
        crate::model::update_staker_act(m, staker_address, new_delegation, reactivate_all_stake)
            == Ok::<(StateModel, ReceiptModel), AccountError>((m2, rc)),
    ensures
        wf(m2),
{
    let a = staker_address;
    let s = m.stakers[a];
    assert(staker_ok(m, a));
    let active2: Coin = if reactivate_all_stake {
        (s.active_balance + s.inactive_balance) as u64
    } else {
        s.active_balance
    };
    let inactive2: Coin = if reactivate_all_stake {
        0
    } else {
        s.inactive_balance
    };
    let if2 = if reactivate_all_stake {
        None
    } else {
        s.inactive_from
    };
    let s2 = Staker {
        active_balance: active2,
        inactive_balance: inactive2,
        inactive_from: if2,
        delegation: new_delegation,
        ..s
    };
    lemma_sums_update_staker(m.stakers, a, s2);
    // Account for the record rewrites on the detach and attach sides.
    match s.delegation {
        None => {
            assert(s.active_balance == 0 && s.inactive_balance == 0);
            match new_delegation {
                None => {},
                Some(d2) => {
                    let v = m.validators[d2];
                    assert(validator_ok(m, d2));
                    let v2 = Validator {
                        total_stake: (v.total_stake + active2) as u64,
                        num_stakers: (v.num_stakers + 1) as u64,
                        ..v
                    };
                    lemma_map_sum_update(m.validators, total_of(), d2, v2);
                },
            }
        },
        Some(d1) => {
            if m.validators.contains_key(d1) {
                let v1 = m.validators[d1];
                assert(validator_ok(m, d1));
                lemma_delegator_bounds(m.stakers, a, d1);
                let v1d = Validator {
                    total_stake: (v1.total_stake - s.active_balance) as u64,
                    num_stakers: (v1.num_stakers - 1) as u64,
                    ..v1
                };
                lemma_map_sum_update(m.validators, total_of(), d1, v1d);
                match new_delegation {
                    None => {},
                    Some(d2) => {
                        if d2 == d1 {
                            let v2 = Validator {
                                total_stake: (v1d.total_stake + active2) as u64,
                                num_stakers: (v1d.num_stakers + 1) as u64,
                                ..v1d
                            };
                            lemma_map_sum_update(
                                m.validators.insert(d1, v1d),
                                total_of(),
                                d1,
                                v2,
                            );
                        } else {
                            let vb = m.validators[d2];
                            assert(validator_ok(m, d2));
                            let v2 = Validator {
                                total_stake: (vb.total_stake + active2) as u64,
                                num_stakers: (vb.num_stakers + 1) as u64,
                                ..vb
                            };
                            lemma_map_sum_update(
                                m.validators.insert(d1, v1d),
                                total_of(),
                                d2,
                                v2,
                            );
                        }
                    },
                }
            } else {
                let t1 = m.tombstones[d1];
                assert(tombstone_ok(m, d1));
                lemma_delegator_bounds(m.stakers, a, d1);
                if t1.num_remaining_stakers == 1 {
                    lemma_map_sum_remove(m.tombstones, tomb_total_of(), d1);
                    lemma_sums_remove_staker(m.stakers, a);
                    lemma_count_zero_stake_zero(m.stakers.remove(a), d1);
                    assert(delegated_stake(m.stakers, d1) == s.active_balance as int);
                    assert(delegated_count(m2.stakers, d1) == 0) by {
                        assert(new_delegation != Some(d1));
                    };
                    lemma_count_zero_stake_zero(m2.stakers, d1);
                } else {
                    let t1d = crate::records::Tombstone {
                        total_stake: (t1.total_stake - s.active_balance) as u64,
                        num_remaining_stakers: (t1.num_remaining_stakers - 1) as u64,
                    };
                    lemma_map_sum_update(m.tombstones, tomb_total_of(), d1, t1d);
                }
                match new_delegation {
                    None => {},
                    Some(d2) => {
                        let vb = m.validators[d2];
                        assert(validator_ok(m, d2));
                        let v2 = Validator {
                            total_stake: (vb.total_stake + active2) as u64,
                            num_stakers: (vb.num_stakers + 1) as u64,
                            ..vb
                        };
                        lemma_map_sum_update(m.validators, total_of(), d2, v2);
                    },
                }
            }
        },
    }
    let d1o = s.delegation;
    assert forall|b: Address| #[trigger]
        m2.validators.contains_key(b) implies validator_ok(m2, b) && !m2.tombstones.contains_key(
        b,
    ) by {
        assert(m.validators.contains_key(b));
        assert(validator_ok(m, b));
        assert(delegated_stake(m2.stakers, b) == delegated_stake(m.stakers, b) - (
        if d1o == Some(b) {
            s.active_balance as int
        } else {
            0
        }) + (
        if new_delegation == Some(b) {
            active2 as int
        } else {
            0
        }));
        assert(delegated_count(m2.stakers, b) == delegated_count(m.stakers, b) - (
        if d1o == Some(b) {
            1int
        } else {
            0
        }) + (
        if new_delegation == Some(b) {
            1int
        } else {
            0
        }));
    };
    assert forall|b: Address| #[trigger] m2.stakers.contains_key(b) implies staker_ok(m2, b) by {
        if b == a {
        } else {
            assert(m.stakers.contains_key(b));
            assert(staker_ok(m, b));
            match m.stakers[b].delegation {
                Some(db) => {
                    if !m2.validators.contains_key(db) && !m2.tombstones.contains_key(db) {
                        lemma_delegator_bounds(m2.stakers, b, db);
                    }
                },
                None => {},
            }
        }
    };
    assert forall|b: Address| #[trigger]
        m2.tombstones.contains_key(b) implies tombstone_ok(m2, b) by {
        assert(m.tombstones.contains_key(b));
        assert(tombstone_ok(m, b));
        assert(new_delegation != Some(b));
        assert(delegated_stake(m2.stakers, b) == delegated_stake(m.stakers, b) - (
        if d1o == Some(b) {
            s.active_balance as int
        } else {
            0
        }));
        assert(delegated_count(m2.stakers, b) == delegated_count(m.stakers, b) - (
        if d1o == Some(b) {
            1int
        } else {
            0
        }));
    };
    assert forall|b: Address| #[trigger]
        m2.active_validators.contains_key(b) implies active_entry_ok(m2, b) by {
        if d1o != Some(b) && new_delegation != Some(b) {
            assert(m.active_validators.contains_key(b));
            assert(active_entry_ok(m, b));
        } else {
            assert(m.validators.contains_key(b) ==> validator_ok(m, b));
        }
    };
    assert forall|b: Address| #[trigger]
        m2.validators.contains_key(b) && m2.validators[b].active() implies m2.active_validators.contains_key(
        b,
    ) by {
        if d1o != Some(b) && new_delegation != Some(b) {
            assert(m.validators.contains_key(b) && m.validators[b].active());
        }
    };
}

} // verus!

verus! {

/// Jailing preserves the invariant.
pub proof fn lemma_wf_jail(
    m: StateModel,
    m2: StateModel,
    rc: ReceiptModel,
    validator_address: Address,
    offense_event_block: u32,
    slot_range: crate::records::SlotRange,
    block_number: u32,
)
    requires
        wf(m),
        crate::model::jail_act(m, validator_address, offense_event_block, slot_range, block_number)
            == Ok::<(StateModel, ReceiptModel), AccountError>((m2, rc)),
    ensures
        wf(m2),
{
    let v = m.validators[validator_address];
    let newly_deactivated = v.active();
    let v2 = Validator {
        inactive_from: if newly_deactivated {
            Some(block_number)
        } else {
            v.inactive_from
        },
        jailed_from: Some(block_number),
        ..v
    };
    assert(validator_ok(m, validator_address));
    lemma_wf_with_validator_same_totals(m, validator_address, v2);
}

/// Penalizing preserves the invariant.
pub proof fn lemma_wf_penalize(
    m: StateModel,
    m2: StateModel,
    rc: ReceiptModel,
    validator_address: Address,
    slot: u16,
    offense_event_block: u32,
    block_number: u32,
)
    requires
        wf(m),
        crate::model::penalize_act(m, validator_address, slot, offense_event_block, block_number)
            == Ok::<(StateModel, ReceiptModel), AccountError>((m2, rc)),
    ensures
        wf(m2),
{
    let v = m.validators[validator_address];
    assert(validator_ok(m, validator_address));
    if v.active() {
        let v2 = Validator { inactive_from: Some(block_number), ..v };
        lemma_wf_with_validator_same_totals(m, validator_address, v2);
    }
}

/// Every committed inherent preserves the invariant.
pub proof fn lemma_commit_inherent_wf(
    m: StateModel,
    m2: StateModel,
    rc: Option<ReceiptModel>,
    inherent: Inherent,
    block_number: u32,
)
    requires
        wf(m),
        crate::model::commit_inherent_act(m, inherent, block_number) == Ok::<
            (StateModel, Option<ReceiptModel>),
            AccountError,
        >((m2, rc)),
    ensures
        wf(m2),
{
    match inherent {
        Inherent::Jail { validator_address, offense_event_block, slot_range } => {
            lemma_wf_jail(
                m,
                m2,
                rc->0,
                validator_address,
                offense_event_block,
                slot_range,
                block_number,
            );
        },
        Inherent::Penalize { validator_address, slot, offense_event_block } => {
            lemma_wf_penalize(
                m,
                m2,
                rc->0,
                validator_address,
                slot,
                offense_event_block,
                block_number,
            );
        },
        Inherent::FinalizeBatch => {},
        Inherent::FinalizeEpoch => {},
        Inherent::Reward { .. } => {},
    }
}

/// Every committed incoming transaction preserves the invariant.
pub proof fn lemma_commit_incoming_wf(
    m: StateModel,
    m2: StateModel,
    rc: Option<ReceiptModel>,
    data: IncomingStakingTransactionData,
    value: Coin,
    block_number: u32,
)
    requires
        wf(m),
        crate::model::commit_incoming_act(m, data, value, block_number) == Ok::<
            (StateModel, Option<ReceiptModel>),
            AccountError,
        >((m2, rc)),
    ensures
        wf(m2),
{
    match data {
        IncomingStakingTransactionData::CreateValidator {
            validator_address,
            signing_key,
            voting_key,
            reward_address,
            signal_data,
        } => {
            lemma_wf_create_validator(
                m,
                m2,
                validator_address,
                signing_key,
                voting_key,
                reward_address,
                signal_data,
                value,
            );
        },
        IncomingStakingTransactionData::UpdateValidator {
            validator_address,
            new_signing_key,
            new_voting_key,
            new_reward_address,
            new_signal_data,
        } => {
            let v = m.validators[validator_address];
            let v2 = Validator {
                signing_key: match new_signing_key {
                    Some(k) => k,
                    None => v.signing_key,
                },
                voting_key: match new_voting_key {
                    Some(k) => k,
                    None => v.voting_key,
                },
                reward_address: match new_reward_address {
                    Some(x) => x,
                    None => v.reward_address,
                },
                signal_data: match new_signal_data {
                    Some(x) => x,
                    None => v.signal_data,
                },
                ..v
            };
            assert(validator_ok(m, validator_address));
            lemma_wf_with_validator_same_totals(m, validator_address, v2);
        },
        IncomingStakingTransactionData::DeactivateValidator { validator_address, .. } => {
            let v = m.validators[validator_address];
            assert(validator_ok(m, validator_address));
            lemma_wf_with_validator_same_totals(
                m,
                validator_address,
                Validator { inactive_from: Some(block_number), ..v },
            );
        },
        IncomingStakingTransactionData::ReactivateValidator { validator_address, .. } => {
            let v = m.validators[validator_address];
            assert(validator_ok(m, validator_address));
            lemma_wf_with_validator_same_totals(
                m,
                validator_address,
                Validator { inactive_from: None, ..v },
            );
        },
        IncomingStakingTransactionData::RetireValidator { validator_address } => {
            let v = m.validators[validator_address];
            assert(validator_ok(m, validator_address));
            lemma_wf_with_validator_same_totals(
                m,
                validator_address,
                Validator {
                    retired: true,
                    retired_from: Some(block_number),
                    inactive_from: None,
                    ..v
                },
            );
        },
        IncomingStakingTransactionData::CreateStaker { staker_address, delegation } => {
            lemma_wf_create_staker(m, m2, staker_address, value, delegation);
        },
        IncomingStakingTransactionData::AddStake { staker_address } => {
            lemma_wf_add_stake(m, m2, staker_address, value);
        },
        IncomingStakingTransactionData::UpdateStaker {
            staker_address,
            new_delegation,
            reactivate_all_stake,
        } => {
            lemma_wf_update_staker(
                m,
                m2,
                rc->0,
                staker_address,
                new_delegation,
                reactivate_all_stake,
            );
        },
        IncomingStakingTransactionData::SetActiveStake { staker_address, new_active_balance } => {
            lemma_wf_set_active_stake(
                m,
                m2,
                rc->0,
                staker_address,
                new_active_balance,
                block_number,
            );
        },
        IncomingStakingTransactionData::RetireStake { staker_address, retire_stake } => {
            lemma_wf_retire_stake(m, m2, rc->0, staker_address, retire_stake, block_number);
        },
    }
}

/// Every committed outgoing transaction preserves the invariant.
pub proof fn lemma_commit_outgoing_wf(
    m: StateModel,
    m2: StateModel,
    rc: Option<ReceiptModel>,
    data: OutgoingStakingTransactionData,
    total_value: Coin,
    block_number: u32,
)
    requires
        wf(m),
        crate::model::commit_outgoing_act(m, data, total_value, block_number) == Ok::<
            (StateModel, Option<ReceiptModel>),
            AccountError,
        >((m2, rc)),
    ensures
        wf(m2),
{
    match data {
        OutgoingStakingTransactionData::DeleteValidator { validator_address } => {
            lemma_wf_delete_validator(
                m,
                m2,
                rc->0,
                validator_address,
                block_number,
                total_value,
            );
        },
        OutgoingStakingTransactionData::RemoveStake { staker_address } => {
            let deleted = match rc {
                Some(ReceiptModel::DeleteStaker { delegation }) => Some(delegation),
                _ => None,
            };
            lemma_wf_remove_stake(m, m2, deleted, staker_address, total_value);
        },
    }
}

/// Every committed failed transaction preserves the invariant.
pub proof fn lemma_commit_failed_wf(
    m: StateModel,
    m2: StateModel,
    rc: Option<ReceiptModel>,
    data: OutgoingStakingTransactionData,
    fee: Coin,
    block_number: u32,
)
    requires
        wf(m),
        crate::model::commit_failed_act(m, data, fee, block_number) == Ok::<
            (StateModel, Option<ReceiptModel>),
            AccountError,
        >((m2, rc)),
    ensures
        wf(m2),
{
    match data {
        OutgoingStakingTransactionData::DeleteValidator { validator_address } => {
            let v = m.validators[validator_address];
            assert(validator_ok(m, validator_address));
            if v.deposit - fee == 0 {
                lemma_wf_delete_validator(m, m2, rc->0, validator_address, block_number, fee);
            } else {
                let v2 = Validator {
                    deposit: (v.deposit - fee) as u64,
                    total_stake: (v.total_stake - fee) as u64,
                    ..v
                };
                lemma_map_sum_update(m.validators, total_of(), validator_address, v2);
                assert forall|b: Address| #[trigger]
                    m2.validators.contains_key(b) implies validator_ok(m2, b)
                    && !m2.tombstones.contains_key(b) by {
                    assert(m.validators.contains_key(b));
                    assert(validator_ok(m, b));
                };
                assert forall|b: Address| #[trigger]
                    m2.stakers.contains_key(b) implies staker_ok(m2, b) by {
                    assert(m.stakers.contains_key(b));
                    assert(staker_ok(m, b));
                };
                assert forall|b: Address| #[trigger]
                    m2.active_validators.contains_key(b) implies active_entry_ok(m2, b) by {
                    if b != validator_address {
                        assert(m.active_validators.contains_key(b));
                        assert(active_entry_ok(m, b));
                    } else {
                        assert(active_entry_ok(m, b));
                    }
                };
                assert forall|b: Address| #[trigger]
                    m2.validators.contains_key(b) && m2.validators[b].active() implies m2.active_validators.contains_key(
                    b,
                ) by {
                    if b != validator_address {
                        assert(m.validators.contains_key(b) && m.validators[b].active());
                    }
                };
            }
        },
        OutgoingStakingTransactionData::RemoveStake { staker_address } => {
            let deleted = match rc {
                Some(ReceiptModel::DeleteStaker { delegation }) => Some(delegation),
                _ => None,
            };
            lemma_wf_remove_stake(m, m2, deleted, staker_address, fee);
        },
    }
}

} // verus!

verus! {

/// Writing back the original record after any rewrite of the same validator
/// restores the state exactly.
pub proof fn lemma_restore_validator(m: StateModel, a: Address, v2: Validator)
    requires
        wf(m),
        m.validators.contains_key(a),
    ensures
        crate::model::with_validator(crate::model::with_validator(m, a, v2), a, m.validators[a])
            == m,
{
    let v = m.validators[a];
    let mx = crate::model::with_validator(m, a, v2);
    assert(mx.validators.insert(a, v) =~= m.validators);
    if v.active() {
        assert(m.active_validators.contains_key(a));
        assert(active_entry_ok(m, a));
        assert(crate::model::refreshed_active(mx.active_validators, a, v)
            =~= m.active_validators);
    } else {
        if m.active_validators.contains_key(a) {
            assert(active_entry_ok(m, a));
            assert(false);
        }
        assert(crate::model::refreshed_active(mx.active_validators, a, v)
            =~= m.active_validators);
    }
    assert(crate::model::with_validator(mx, a, v) =~= m);
}

/// Reverting a committed incoming transaction with the receipt it returned
/// restores the pre-commit state exactly.
#[verifier::rlimit(60)]
pub proof fn lemma_commit_revert_incoming(
    m: StateModel,
    m2: StateModel,
    rc: Option<ReceiptModel>,
    data: IncomingStakingTransactionData,
    value: Coin,
    block_number: u32,
)
    requires
        wf(m),
        crate::model::commit_incoming_act(m, data, value, block_number) == Ok::<
            (StateModel, Option<ReceiptModel>),
            AccountError,
        >((m2, rc)),
    ensures
        crate::model::revert_incoming_act(m2, data, value, rc) == Ok::<StateModel, AccountError>(
            m,
        ),
{
    match data {
        IncomingStakingTransactionData::CreateValidator { validator_address, .. } => {
            let a = validator_address;
            assert(m2.validators.remove(a) =~= m.validators);
            assert(!m.active_validators.contains_key(a));
            assert(m2.active_validators.remove(a) =~= m.active_validators);
            assert(crate::model::revert_create_validator_act(m2, a, value) matches Ok(mr)
                ==> mr =~= m);
        },
        IncomingStakingTransactionData::UpdateValidator { validator_address, .. } => {
            let a = validator_address;
            let v = m.validators[a];
            assert(validator_ok(m, a));
            let v2 = m2.validators[a];
            lemma_restore_validator(m, a, v2);
            assert(crate::model::revert_update_validator_act(
                m2,
                a,
                v.signing_key,
                v.voting_key,
                v.reward_address,
                v.signal_data,
            ) matches Ok(mr) ==> mr == crate::model::with_validator(m2, a, v));
        },
        IncomingStakingTransactionData::DeactivateValidator { validator_address, .. } => {
            let a = validator_address;
            let v = m.validators[a];
            let v2 = m2.validators[a];
            lemma_restore_validator(m, a, v2);
            assert(Validator { inactive_from: None, ..v2 } == v);
        },
        IncomingStakingTransactionData::ReactivateValidator { validator_address, .. } => {
            let a = validator_address;
            let v = m.validators[a];
            let v2 = m2.validators[a];
            lemma_restore_validator(m, a, v2);
            assert(Validator { inactive_from: v.inactive_from, ..v2 } == v);
        },
        IncomingStakingTransactionData::RetireValidator { validator_address } => {
            let a = validator_address;
            let v = m.validators[a];
            assert(validator_ok(m, a));
            let v2 = m2.validators[a];
            lemma_restore_validator(m, a, v2);
            assert(Validator {
                retired: false,
                retired_from: None,
                inactive_from: v.inactive_from,
                ..v2
            } == v);
        },
        IncomingStakingTransactionData::CreateStaker { staker_address, delegation } => {
            let a = staker_address;
            let d = delegation->0;
            let v = m.validators[d];
            let v2 = m2.validators[d];
            assert(v2 == Validator {
                total_stake: (v.total_stake + value) as u64,
                num_stakers: (v.num_stakers + 1) as u64,
                ..v
            });
            lemma_restore_validator(m, d, v2);
            let md = crate::model::with_validator(m2, d, v);
            assert(Validator {
                total_stake: (v2.total_stake - value) as u64,
                num_stakers: (v2.num_stakers - 1) as u64,
                ..v2
            } == v);
            assert(md.stakers.remove(a) =~= m.stakers);
            assert(crate::model::revert_create_staker_act(m2, a, value) matches Ok(mr) ==> mr =~= m);
        },
        IncomingStakingTransactionData::AddStake { staker_address } => {
            let a = staker_address;
            let s = m.stakers[a];
            assert(staker_ok(m, a));
            let d = s.delegation->0;
            if m.validators.contains_key(d) {
                let v = m.validators[d];
                let v2 = m2.validators[d];
                assert(v2 == Validator { total_stake: (v.total_stake + value) as u64, ..v });
                lemma_restore_validator(m, d, v2);
                let md = crate::model::with_validator(m2, d, v);
                assert(md.stakers.insert(a, s) =~= m.stakers);
            } else {
                let t = m.tombstones[d];
                let t2 = m2.tombstones[d];
                assert(t2 == crate::records::Tombstone {
                    total_stake: (t.total_stake + value) as u64,
                    ..t
                });
                assert(m2.tombstones.insert(d, t) =~= m.tombstones);
                assert(m2.stakers.insert(a, s) =~= m.stakers);
            }
            assert(crate::model::revert_add_stake_act(m2, a, value) matches Ok(mr) ==> mr =~= m);
        },
        IncomingStakingTransactionData::UpdateStaker { .. } => {
            lemma_commit_revert_update_staker(m, m2, rc, data, value, block_number);
        },
        IncomingStakingTransactionData::SetActiveStake { staker_address, .. } => {
            let a = staker_address;
            let s = m.stakers[a];
            assert(staker_ok(m, a));
            let s2 = m2.stakers[a];
            match s.delegation {
                None => {
                    assert(m2.stakers.insert(a, s) =~= m.stakers);
                },
                Some(d) => {
                    if m.validators.contains_key(d) {
                        let v = m.validators[d];
                        let v2 = m2.validators[d];
                        lemma_restore_validator(m, d, v2);
                        let md = crate::model::with_validator(m2, d, v);
                        assert(md.stakers.insert(a, s) =~= m.stakers);
                    } else {
                        let t = m.tombstones[d];
                        assert(m2.tombstones.insert(d, t) =~= m.tombstones);
                        assert(m2.stakers.insert(a, s) =~= m.stakers);
                    }
                },
            }
            assert(crate::model::revert_set_active_stake_act(
                m2,
                a,
                s.active_balance,
                s.inactive_from,
            ) matches Ok(mr) ==> mr =~= m);
        },
        IncomingStakingTransactionData::RetireStake { staker_address, retire_stake } => {
            let a = staker_address;
            let s = m.stakers[a];
            assert(staker_ok(m, a));
            assert(m2.stakers.insert(a, s) =~= m.stakers);
            assert(crate::model::revert_retire_stake_act(
                m2,
                a,
                retire_stake,
                s.inactive_from,
            ) matches Ok(mr) ==> mr =~= m);
        },
    }
}

/// Round trip of a delegation change, split out for proof size.
pub proof fn lemma_commit_revert_update_staker(
    m: StateModel,
    m2: StateModel,
    rc: Option<ReceiptModel>,
    data: IncomingStakingTransactionData,
    value: Coin,
    block_number: u32,
)
    requires
        wf(m),
        data is UpdateStaker,
        crate::model::commit_incoming_act(m, data, value, block_number) == Ok::<
            (StateModel, Option<ReceiptModel>),
            AccountError,
        >((m2, rc)),
    ensures
        crate::model::revert_incoming_act(m2, data, value, rc) == Ok::<StateModel, AccountError>(
            m,
        ),
{
    let a = data->UpdateStaker_staker_address;
    let new_delegation = data->UpdateStaker_new_delegation;
    let reactivate = data->UpdateStaker_reactivate_all_stake;
    let s = m.stakers[a];
    assert(staker_ok(m, a));
    let active2: Coin = if reactivate {
        (s.active_balance + s.inactive_balance) as u64
    } else {
        s.active_balance
    };
    let inactive2: Coin = if reactivate {
        0
    } else {
        s.inactive_balance
    };
    let s2 = m2.stakers[a];
    assert(s2.active_balance == active2 && s2.inactive_balance == inactive2);
    assert(s2.delegation == new_delegation);
    // The revert recomputes the old split from the receipt.
    assert(active2 + inactive2 == s.active_balance + s.inactive_balance);
    match s.delegation {
        None => {
            assert(s.active_balance == 0 && s.inactive_balance == 0);
            match new_delegation {
                None => {
                    assert(m2.stakers.insert(a, s) =~= m.stakers);
                },
                Some(d2) => {
                    let vb = m.validators[d2];
                    let v2 = m2.validators[d2];
                    assert(v2 == Validator {
                        total_stake: (vb.total_stake + active2) as u64,
                        num_stakers: (vb.num_stakers + 1) as u64,
                        ..vb
                    });
                    lemma_restore_validator(m, d2, vb);
                    lemma_restore_validator(m, d2, v2);
                    let md = crate::model::with_validator(m2, d2, vb);
                    assert(md.stakers.insert(a, s) =~= m.stakers);
                },
            }
        },
        Some(d1) => {
            if m.validators.contains_key(d1) {
                lemma_commit_revert_update_staker_from_validator(
                    m,
                    m2,
                    rc,
                    a,
                    new_delegation,
                    reactivate,
                );
            } else {
                lemma_commit_revert_update_staker_from_tombstone(
                    m,
                    m2,
                    rc,
                    a,
                    new_delegation,
                    reactivate,
                );
            }
        },
    }
}

/// A staker's three balances together never exceed the contract balance.
pub proof fn lemma_staker_funds_bound(m: StateModel, a: Address)
    requires
        wf(m),
        m.stakers.contains_key(a),
    ensures
        m.stakers[a].active_balance + m.stakers[a].inactive_balance
            + m.stakers[a].retired_balance <= m.balance,
{
    let s = m.stakers[a];
    assert(staker_ok(m, a));
    lemma_map_sum_lower(m.stakers, locked_of(), a);
    lemma_map_sum_nonneg(m.validators, total_of());
    lemma_map_sum_nonneg(m.tombstones, tomb_total_of());
    match s.delegation {
        None => {},
        Some(d) => {
            lemma_delegator_bounds(m.stakers, a, d);
            if m.validators.contains_key(d) {
                assert(validator_ok(m, d));
                lemma_map_sum_lower(m.validators, total_of(), d);
            } else {
                assert(tombstone_ok(m, d));
                lemma_map_sum_lower(m.tombstones, tomb_total_of(), d);
            }
        },
    }
}

/// Round trip of a delegation change away from a validator.
proof fn lemma_commit_revert_update_staker_from_validator(
    m: StateModel,
    m2: StateModel,
    rc: Option<ReceiptModel>,
    a: Address,
    new_delegation: Option<Address>,
    reactivate: bool,
)
    requires
        wf(m),
        m.stakers.contains_key(a),
        m.stakers[a].delegation matches Some(d1) && m.validators.contains_key(d1),
        crate::model::commit_incoming_act(
            m,
            IncomingStakingTransactionData::UpdateStaker {
                staker_address: a,
                new_delegation,
                reactivate_all_stake: reactivate,
            },
            0,
            0,
        ) == Ok::<(StateModel, Option<ReceiptModel>), AccountError>((m2, rc)),
    ensures
        crate::model::revert_incoming_act(
            m2,
            IncomingStakingTransactionData::UpdateStaker {
                staker_address: a,
                new_delegation,
                reactivate_all_stake: reactivate,
            },
            0,
            rc,
        ) == Ok::<StateModel, AccountError>(m),
{
    let s = m.stakers[a];
    assert(staker_ok(m, a));
    lemma_staker_funds_bound(m, a);
    let d1 = s.delegation->0;
    let v1 = m.validators[d1];
    assert(validator_ok(m, d1));
    lemma_delegator_bounds(m.stakers, a, d1);
    let active2: Coin = if reactivate {
        (s.active_balance + s.inactive_balance) as u64
    } else {
        s.active_balance
    };
    let v1d = Validator {
        total_stake: (v1.total_stake - s.active_balance) as u64,
        num_stakers: (v1.num_stakers - 1) as u64,
        ..v1
    };
    match new_delegation {
        None => {
            assert(active2 == 0 && s.active_balance + s.inactive_balance == 0);
            lemma_restore_validator(m, d1, v1d);
            let md = crate::model::with_validator(m2, d1, v1);
            assert(Validator {
                total_stake: (v1d.total_stake + 0) as u64,
                num_stakers: (v1d.num_stakers + 1) as u64,
                ..v1d
            } == v1);
            assert(md.stakers.insert(a, s) =~= m.stakers);
        },
        Some(d2) => {
            if d2 == d1 {
                let v2 = m2.validators[d1];
                assert(v2 == Validator {
                    total_stake: (v1d.total_stake + active2) as u64,
                    num_stakers: (v1d.num_stakers + 1) as u64,
                    ..v1d
                });
                lemma_restore_validator(m, d1, v2);
                // The revert detaches active2 and reattaches the old amount
                // at the same validator.
                let v2d = Validator {
                    total_stake: (v2.total_stake - active2) as u64,
                    num_stakers: (v2.num_stakers - 1) as u64,
                    ..v2
                };
                assert(v2d == v1d);
                assert(Validator {
                    total_stake: (v2d.total_stake + s.active_balance) as u64,
                    num_stakers: (v2d.num_stakers + 1) as u64,
                    ..v2d
                } == v1);
                let mdd = crate::model::with_validator(m2, d1, v2d);
                let mdr = crate::model::with_validator(mdd, d1, v1);
                assert(mdr.validators =~= m.validators);
                assert(crate::model::refreshed_active(mdd.active_validators, d1, v1)
                    =~= m.active_validators) by {
                    if v1.active() {
                        assert(m.active_validators.contains_key(d1));
                        assert(active_entry_ok(m, d1));
                    } else {
                        if m.active_validators.contains_key(d1) {
                            assert(active_entry_ok(m, d1));
                            assert(false);
                        }
                    }
                };
                assert(mdr.stakers.insert(a, s) =~= m.stakers);
            } else {
                let vb = m.validators[d2];
                assert(validator_ok(m, d2));
                let v2 = m2.validators[d2];
                assert(m2.validators[d1] == v1d);
                assert(v2 == Validator {
                    total_stake: (vb.total_stake + active2) as u64,
                    num_stakers: (vb.num_stakers + 1) as u64,
                    ..vb
                });
                // Revert: detach from the new target, reattach at the old.
                let v2d = Validator {
                    total_stake: (v2.total_stake - active2) as u64,
                    num_stakers: (v2.num_stakers - 1) as u64,
                    ..v2
                };
                assert(v2d == vb);
                let v1r = Validator {
                    total_stake: (v1d.total_stake + s.active_balance) as u64,
                    num_stakers: (v1d.num_stakers + 1) as u64,
                    ..v1d
                };
                assert(v1r == v1);
                let mdd = crate::model::with_validator(m2, d2, vb);
                let mdr = crate::model::with_validator(mdd, d1, v1);
                assert(mdr.validators =~= m.validators);
                assert(mdr.active_validators =~= m.active_validators) by {
                    if vb.active() {
                        assert(m.active_validators.contains_key(d2));
                        assert(active_entry_ok(m, d2));
                    } else {
                        if m.active_validators.contains_key(d2) {
                            assert(active_entry_ok(m, d2));
                            assert(false);
                        }
                    }
                    if v1.active() {
                        assert(m.active_validators.contains_key(d1));
                        assert(active_entry_ok(m, d1));
                    } else {
                        if m.active_validators.contains_key(d1) {
                            assert(active_entry_ok(m, d1));
                            assert(false);
                        }
                    }
                };
                assert(mdr.stakers.insert(a, s) =~= m.stakers);
            }
        },
    }
    let data = IncomingStakingTransactionData::UpdateStaker {
        staker_address: a,
        new_delegation,
        reactivate_all_stake: reactivate,
    };
    assert(crate::model::revert_incoming_act(m2, data, 0, rc) matches Ok(mr) ==> mr =~= m);
    assert(crate::model::revert_incoming_act(m2, data, 0, rc) is Ok);
}

/// Round trip of a delegation change away from a tombstone.
proof fn lemma_commit_revert_update_staker_from_tombstone(
    m: StateModel,
    m2: StateModel,
    rc: Option<ReceiptModel>,
    a: Address,
    new_delegation: Option<Address>,
    reactivate: bool,
)
    requires
        wf(m),
        m.stakers.contains_key(a),
        m.stakers[a].delegation matches Some(d1) && !m.validators.contains_key(d1),
        crate::model::commit_incoming_act(
            m,
            IncomingStakingTransactionData::UpdateStaker {
                staker_address: a,
                new_delegation,
                reactivate_all_stake: reactivate,
            },
            0,
            0,
        ) == Ok::<(StateModel, Option<ReceiptModel>), AccountError>((m2, rc)),
    ensures
        crate::model::revert_incoming_act(
            m2,
            IncomingStakingTransactionData::UpdateStaker {
                staker_address: a,
                new_delegation,
                reactivate_all_stake: reactivate,
            },
            0,
            rc,
        ) == Ok::<StateModel, AccountError>(m),
{
    let s = m.stakers[a];
    assert(staker_ok(m, a));
    lemma_staker_funds_bound(m, a);
    let d1 = s.delegation->0;
    let t1 = m.tombstones[d1];
    assert(tombstone_ok(m, d1));
    lemma_delegator_bounds(m.stakers, a, d1);
    let active2: Coin = if reactivate {
        (s.active_balance + s.inactive_balance) as u64
    } else {
        s.active_balance
    };
    // The old target is a tombstone, so the new one (if any) is a different
    // validator.
    if t1.num_remaining_stakers == 1 {
        lemma_sums_remove_staker(m.stakers, a);
        lemma_count_zero_stake_zero(m.stakers.remove(a), d1);
        assert(t1.total_stake == s.active_balance);
        assert(m2.tombstones == m.tombstones.remove(d1));
        assert(m2.tombstones.insert(
            d1,
            crate::records::Tombstone {
                total_stake: s.active_balance,
                num_remaining_stakers: 1,
            },
        ) =~= m.tombstones);
    } else {
        let t1d = crate::records::Tombstone {
            total_stake: (t1.total_stake - s.active_balance) as u64,
            num_remaining_stakers: (t1.num_remaining_stakers - 1) as u64,
        };
        assert(m2.tombstones == m.tombstones.insert(d1, t1d));
        assert(m2.tombstones.insert(
            d1,
            crate::records::Tombstone {
                total_stake: (t1d.total_stake + s.active_balance) as u64,
                num_remaining_stakers: (t1d.num_remaining_stakers + 1) as u64,
            },
        ) =~= m.tombstones);
    }
    match new_delegation {
        None => {
            assert(active2 == 0);
            assert(m2.stakers.insert(a, s) =~= m.stakers);
        },
        Some(d2) => {
            assert(d2 != d1);
            let vb = m.validators[d2];
            assert(validator_ok(m, d2));
            let v2 = m2.validators[d2];
            assert(v2 == Validator {
                total_stake: (vb.total_stake + active2) as u64,
                num_stakers: (vb.num_stakers + 1) as u64,
                ..vb
            });
            let v2d = Validator {
                total_stake: (v2.total_stake - active2) as u64,
                num_stakers: (v2.num_stakers - 1) as u64,
                ..v2
            };
            assert(v2d == vb);
            let mdd = crate::model::with_validator(m2, d2, vb);
            assert(mdd.validators =~= m.validators);
            assert(mdd.active_validators =~= m.active_validators) by {
                if vb.active() {
                    assert(m.active_validators.contains_key(d2));
                    assert(active_entry_ok(m, d2));
                } else {
                    if m.active_validators.contains_key(d2) {
                        assert(active_entry_ok(m, d2));
                        assert(false);
                    }
                }
            };
            assert(mdd.stakers.insert(a, s) =~= m.stakers);
        },
    }
    let data = IncomingStakingTransactionData::UpdateStaker {
        staker_address: a,
        new_delegation,
        reactivate_all_stake: reactivate,
    };
    assert(crate::model::revert_incoming_act(m2, data, 0, rc) matches Ok(mr) ==> mr =~= m);
    assert(crate::model::revert_incoming_act(m2, data, 0, rc) is Ok);
}

} // verus!

verus! {

/// Round trip of a validator deletion.
pub proof fn lemma_delete_validator_roundtrip(
    m: StateModel,
    m2: StateModel,
    rc: ReceiptModel,
    validator_address: Address,
    block_number: u32,
    total_value: Coin,
)
    requires
        wf(m),
        crate::model::delete_validator_act(m, validator_address, block_number, total_value)
            == Ok::<(StateModel, ReceiptModel), AccountError>((m2, rc)),
    ensures
        rc == (ReceiptModel::DeleteValidator { validator: m.validators[validator_address] }),
        crate::model::revert_delete_validator_act(
            m2,
            validator_address,
            total_value,
            m.validators[validator_address],
        ) == Ok::<StateModel, AccountError>(m),
{
    let a = validator_address;
    let v = m.validators[a];
    assert(m2.validators.insert(a, v) =~= m.validators);
    if m.active_validators.contains_key(a) {
        assert(active_entry_ok(m, a));
        assert(false);
    }
    assert(m2.active_validators.remove(a) =~= m.active_validators);
    if v.num_stakers > 0 {
        assert(m2.tombstones.remove(a) =~= m.tombstones);
    }
    assert(crate::model::revert_delete_validator_act(m2, a, total_value, v) matches Ok(mr)
        ==> mr =~= m);
}

/// Round trip of a retired-stake removal.
pub proof fn lemma_remove_stake_roundtrip(
    m: StateModel,
    m2: StateModel,
    deleted: Option<Option<Address>>,
    staker_address: Address,
    amount: Coin,
)
    requires
        wf(m),
        crate::model::remove_stake_act(m, staker_address, amount) == Ok::<
            (StateModel, Option<Option<Address>>),
            AccountError,
        >((m2, deleted)),
    ensures
        crate::model::revert_remove_stake_act(m2, staker_address, amount, deleted)
            == Ok::<StateModel, AccountError>(m),
{
    let a = staker_address;
    let s = m.stakers[a];
    assert(staker_ok(m, a));
    let new_retired = (s.retired_balance - amount) as u64;
    if s.active_balance == 0 && s.inactive_balance == 0 && new_retired == 0 {
        assert(deleted == Some(s.delegation));
        assert(s == (Staker {
            active_balance: 0,
            inactive_balance: 0,
            retired_balance: amount,
            delegation: s.delegation,
            inactive_from: None,
        }));
        match s.delegation {
            None => {
                assert(m2.stakers.insert(a, s) =~= m.stakers);
            },
            Some(d) => {
                lemma_delegator_bounds(m.stakers, a, d);
                if m.validators.contains_key(d) {
                    let v = m.validators[d];
                    assert(validator_ok(m, d));
                    let vd = Validator { num_stakers: (v.num_stakers - 1) as u64, ..v };
                    assert(m2.validators[d] == vd);
                    assert(Validator {
                        total_stake: (vd.total_stake + 0) as u64,
                        num_stakers: (vd.num_stakers + 1) as u64,
                        ..vd
                    } == v);
                    lemma_restore_validator(m, d, vd);
                    let md = crate::model::with_validator(m2, d, v);
                    assert(md.stakers.insert(a, s) =~= m.stakers);
                } else {
                    let t = m.tombstones[d];
                    assert(tombstone_ok(m, d));
                    if t.num_remaining_stakers == 1 {
                        lemma_sums_remove_staker(m.stakers, a);
                        lemma_count_zero_stake_zero(m.stakers.remove(a), d);
                        assert(t.total_stake == 0);
                        assert(m2.tombstones == m.tombstones.remove(d));
                        assert(m2.tombstones.insert(
                            d,
                            crate::records::Tombstone {
                                total_stake: 0,
                                num_remaining_stakers: 1,
                            },
                        ) =~= m.tombstones);
                    } else {
                        let td = crate::records::Tombstone {
                            num_remaining_stakers: (t.num_remaining_stakers - 1) as u64,
                            ..t
                        };
                        assert(m2.tombstones == m.tombstones.insert(d, td));
                        assert(m2.tombstones.insert(
                            d,
                            crate::records::Tombstone {
                                total_stake: (td.total_stake + 0) as u64,
                                num_remaining_stakers: (td.num_remaining_stakers + 1) as u64,
                            },
                        ) =~= m.tombstones);
                    }
                    assert(m2.stakers.insert(a, s) =~= m.stakers);
                }
            },
        }
        assert(crate::model::revert_remove_stake_act(m2, a, amount, deleted) matches Ok(mr)
            ==> mr =~= m);
        assert(crate::model::revert_remove_stake_act(m2, a, amount, deleted) is Ok);
    } else {
        assert(deleted is None);
        assert(m2.stakers.insert(a, s) =~= m.stakers);
        assert(crate::model::revert_remove_stake_act(m2, a, amount, deleted) matches Ok(mr)
            ==> mr =~= m);
        assert(crate::model::revert_remove_stake_act(m2, a, amount, deleted) is Ok);
    }
}

/// Reverting a committed outgoing transaction with the receipt it returned
/// restores the pre-commit state exactly.
pub proof fn lemma_commit_revert_outgoing(
    m: StateModel,
    m2: StateModel,
    rc: Option<ReceiptModel>,
    data: OutgoingStakingTransactionData,
    total_value: Coin,
    block_number: u32,
)
    requires
        wf(m),
        crate::model::commit_outgoing_act(m, data, total_value, block_number) == Ok::<
            (StateModel, Option<ReceiptModel>),
            AccountError,
        >((m2, rc)),
    ensures
        crate::model::revert_outgoing_act(m2, data, total_value, rc) == Ok::<
            StateModel,
            AccountError,
        >(m),
{
    match data {
        OutgoingStakingTransactionData::DeleteValidator { validator_address } => {
            lemma_delete_validator_roundtrip(
                m,
                m2,
                rc->0,
                validator_address,
                block_number,
                total_value,
            );
        },
        OutgoingStakingTransactionData::RemoveStake { staker_address } => {
            let deleted = match rc {
                Some(ReceiptModel::DeleteStaker { delegation }) => Some(delegation),
                _ => None,
            };
            lemma_remove_stake_roundtrip(m, m2, deleted, staker_address, total_value);
        },
    }
}

/// Reverting a committed failed transaction with the receipt it returned
/// restores the pre-commit state exactly.
pub proof fn lemma_commit_revert_failed(
    m: StateModel,
    m2: StateModel,
    rc: Option<ReceiptModel>,
    data: OutgoingStakingTransactionData,
    fee: Coin,
    block_number: u32,
)
    requires
        wf(m),
        crate::model::commit_failed_act(m, data, fee, block_number) == Ok::<
            (StateModel, Option<ReceiptModel>),
            AccountError,
        >((m2, rc)),
    ensures
        crate::model::revert_failed_act(m2, data, fee, rc) == Ok::<StateModel, AccountError>(m),
{
    match data {
        OutgoingStakingTransactionData::DeleteValidator { validator_address } => {
            let a = validator_address;
            let v = m.validators[a];
            assert(validator_ok(m, a));
            if v.deposit - fee == 0 {
                lemma_delete_validator_roundtrip(m, m2, rc->0, a, block_number, fee);
                assert(!m2.validators.contains_key(a));
            } else {
                let v2 = Validator {
                    deposit: (v.deposit - fee) as u64,
                    total_stake: (v.total_stake - fee) as u64,
                    ..v
                };
                assert forall|k: Address|
                    m.stakers.contains_key(k) implies #[trigger] stake_to(a)(k, m.stakers[k])
                    >= 0 by {};
                lemma_map_sum_nonneg(m.stakers, stake_to(a));
                assert(v.total_stake >= v.deposit);
                assert(m2.validators.contains_key(a) && m2.validators[a] == v2);
                lemma_restore_validator(m, a, v2);
                assert(Validator {
                    deposit: (v2.deposit + fee) as u64,
                    total_stake: (v2.total_stake + fee) as u64,
                    ..v2
                } == v);
                assert(crate::model::revert_failed_act(m2, data, fee, rc) matches Ok(mr)
                    ==> mr =~= m);
                assert(crate::model::revert_failed_act(m2, data, fee, rc) is Ok);
            }
        },
        OutgoingStakingTransactionData::RemoveStake { staker_address } => {
            let deleted = match rc {
                Some(ReceiptModel::DeleteStaker { delegation }) => Some(delegation),
                _ => None,
            };
            lemma_remove_stake_roundtrip(m, m2, deleted, staker_address, fee);
        },
    }
}

/// Reverting a committed jail or penalty with its receipt restores the
/// pre-commit state exactly.
pub proof fn lemma_commit_revert_inherent(
    m: StateModel,
    m2: StateModel,
    rc: Option<ReceiptModel>,
    inherent: Inherent,
    block_number: u32,
)
    requires
        wf(m),
        inherent is Jail || inherent is Penalize,
        crate::model::commit_inherent_act(m, inherent, block_number) == Ok::<
            (StateModel, Option<ReceiptModel>),
            AccountError,
        >((m2, rc)),
    ensures
        crate::model::revert_inherent_act(m2, inherent, rc) == Ok::<StateModel, AccountError>(m),
{
    match inherent {
        Inherent::Jail { validator_address, slot_range, .. } => {
            let a = validator_address;
            let v = m.validators[a];
            let newly = v.active();
            let v2 = Validator {
                inactive_from: if newly {
                    Some(block_number)
                } else {
                    v.inactive_from
                },
                jailed_from: Some(block_number),
                ..v
            };
            assert(m2.validators[a] == v2);
            lemma_restore_validator(m, a, v2);
            assert(Validator {
                jailed_from: v.jailed_from,
                inactive_from: if newly {
                    None
                } else {
                    v2.inactive_from
                },
                ..v2
            } == v);
            match crate::primitives::map_get(m.punished.jail_ranges, a) {
                Some(range) => {
                    assert(m2.punished.jail_ranges.insert(a, range) =~= m.punished.jail_ranges);
                },
                None => {
                    assert(m2.punished.jail_ranges.remove(a) =~= m.punished.jail_ranges);
                },
            }
            assert(crate::model::revert_inherent_act(m2, inherent, rc) matches Ok(mr)
                ==> mr =~= m);
            assert(crate::model::revert_inherent_act(m2, inherent, rc) is Ok);
        },
        Inherent::Penalize { validator_address, slot, offense_event_block } => {
            let a = validator_address;
            let v = m.validators[a];
            let newly = v.active();
            let stepped = crate::punished::register_penalty_model(
                m.punished,
                slot,
                offense_event_block,
                block_number,
            );
            let newly_prev = stepped.1;
            let newly_cur = stepped.2;
            assert(if newly_cur {
                m2.punished.current_batch.update(slot as int, false) =~= m.punished.current_batch
            } else {
                m2.punished.current_batch =~= m.punished.current_batch
            });
            assert(if newly_prev {
                m2.punished.previous_batch.update(slot as int, false)
                    =~= m.punished.previous_batch
            } else {
                m2.punished.previous_batch =~= m.punished.previous_batch
            });
            if newly {
                let v2 = Validator { inactive_from: Some(block_number), ..v };
                assert(m2.validators[a] == v2);
                lemma_restore_validator(m, a, v2);
                assert(Validator { inactive_from: None, ..v2 } == v);
            }
            assert(crate::model::revert_inherent_act(m2, inherent, rc) matches Ok(mr)
                ==> mr =~= m);
            assert(crate::model::revert_inherent_act(m2, inherent, rc) is Ok);
        },
        _ => {},
    }
}

/// Finalizations are irrevocable: reverting them always fails with
/// `InvalidForTarget`, whatever state and receipt are given.
pub proof fn lemma_finalizations_irrevocable(m: StateModel, rc: Option<ReceiptModel>)
    ensures
        crate::model::revert_inherent_act(m, Inherent::FinalizeBatch, rc) == Err::<
            StateModel,
            AccountError,
        >(AccountError::InvalidForTarget),
        crate::model::revert_inherent_act(m, Inherent::FinalizeEpoch, rc) == Err::<
            StateModel,
            AccountError,
        >(AccountError::InvalidForTarget),
{
}

} // verus!

verus! {

/// The value an incoming transaction deposits: the transaction value for the
/// funding commands, nothing for the signalling ones.
pub open spec fn incoming_value(data: IncomingStakingTransactionData, value: Coin) -> int {
    match data {
        IncomingStakingTransactionData::CreateValidator { .. } => value as int,
        IncomingStakingTransactionData::CreateStaker { .. } => value as int,
        IncomingStakingTransactionData::AddStake { .. } => value as int,
        _ => 0,
    }
}

/// Balance conservation: a commit moves the contract balance by exactly the
/// transaction's declared delta — the deposited value for incoming commits,
/// minus the total value for outgoing ones, minus the fee for failed ones,
/// and not at all for inherents.
pub proof fn lemma_balance_conservation(
    m: StateModel,
    data_in: IncomingStakingTransactionData,
    data_out: OutgoingStakingTransactionData,
    inherent: Inherent,
    value: Coin,
    total_value: Coin,
    fee: Coin,
    block_number: u32,
)
    ensures
        crate::model::commit_incoming_act(m, data_in, value, block_number) matches Ok((m2, _))
            ==> m2.balance == m.balance + incoming_value(data_in, value),
        crate::model::commit_outgoing_act(m, data_out, total_value, block_number) matches Ok(
            (m2, _),
        ) ==> m2.balance == m.balance - total_value,
        crate::model::commit_failed_act(m, data_out, fee, block_number) matches Ok((m2, _))
            ==> m2.balance == m.balance - fee,
        crate::model::commit_inherent_act(m, inherent, block_number) matches Ok((m2, _))
            ==> m2.balance == m.balance,
{
}

/// Releasing what was reserved restores the reservations exactly.
pub proof fn lemma_release_inverts_reserve(
    reserved: Map<Address, Coin>,
    reserved2: Map<Address, Coin>,
    address: Address,
    cap: Coin,
    amount: Coin,
)
    requires
        forall|k: Address| reserved.contains_key(k) ==> #[trigger] reserved[k] > 0,
        crate::model::reserve_for_act(reserved, address, cap, amount) == Ok::<
            Map<Address, Coin>,
            AccountError,
        >(reserved2),
    ensures
        crate::model::release_for_act(reserved2, address, amount) == reserved,
{
    if amount == 0 {
        if reserved.contains_key(address) {
            assert(crate::model::release_for_act(reserved2, address, 0) =~= reserved);
        } else {
            assert(crate::model::release_for_act(reserved2, address, 0) =~= reserved);
        }
    } else {
        let current: Coin = if reserved.contains_key(address) {
            reserved[address]
        } else {
            0
        };
        assert(reserved2 == reserved.insert(address, (current + amount) as u64));
        if current == 0 && !reserved.contains_key(address) {
            assert(crate::model::release_for_act(reserved2, address, amount) =~= reserved);
        } else {
            assert(crate::model::release_for_act(reserved2, address, amount) =~= reserved);
        }
    }
}

/// Releasing an outgoing transaction's reservation restores the tracker that
/// its reservation started from.
pub proof fn lemma_release_balance_inverts_reserve_balance(
    m: StateModel,
    data: OutgoingStakingTransactionData,
    total_value: Coin,
    fee: Coin,
    reserved: Map<Address, Coin>,
    reserved2: Map<Address, Coin>,
    block_number: u32,
)
    requires
        forall|k: Address| reserved.contains_key(k) ==> #[trigger] reserved[k] > 0,
        crate::model::reserve_balance_act(m, data, total_value, fee, reserved, block_number)
            == Ok::<Map<Address, Coin>, AccountError>(reserved2),
    ensures
        crate::model::release_balance_act(data, total_value, reserved2) == reserved,
{
    match data {
        OutgoingStakingTransactionData::DeleteValidator { validator_address } => {
            lemma_release_inverts_reserve(
                reserved,
                reserved2,
                validator_address,
                m.validators[validator_address].deposit,
                total_value,
            );
        },
        OutgoingStakingTransactionData::RemoveStake { staker_address } => {
            lemma_release_inverts_reserve(
                reserved,
                reserved2,
                staker_address,
                m.stakers[staker_address].retired_balance,
                total_value,
            );
        },
    }
}

/// Reservation soundness: an outgoing transaction whose reservation succeeds
/// can be committed on the same state without failing.
pub proof fn lemma_reserve_then_commit(
    m: StateModel,
    data: OutgoingStakingTransactionData,
    total_value: Coin,
    fee: Coin,
    reserved: Map<Address, Coin>,
    block_number: u32,
)
    requires
        wf(m),
        crate::model::reserve_balance_act(m, data, total_value, fee, reserved, block_number)
            is Ok,
    ensures
        crate::model::commit_outgoing_act(m, data, total_value, block_number) is Ok,
{
    lemma_balance_bounds(m);
    match data {
        OutgoingStakingTransactionData::DeleteValidator { validator_address } => {
            let a = validator_address;
            let v = m.validators[a];
            assert(validator_ok(m, a));
            assert forall|k: Address|
                m.stakers.contains_key(k) implies #[trigger] stake_to(a)(k, m.stakers[k])
                >= 0 by {};
            lemma_map_sum_nonneg(m.stakers, stake_to(a));
            assert(v.total_stake >= v.deposit);
        },
        OutgoingStakingTransactionData::RemoveStake { staker_address } => {
            let a = staker_address;
            let s = m.stakers[a];
            assert(staker_ok(m, a));
            if s.active_balance == 0 && s.inactive_balance == 0 {
                match s.delegation {
                    None => {},
                    Some(d) => {
                        lemma_delegator_bounds(m.stakers, a, d);
                        if m.validators.contains_key(d) {
                            assert(validator_ok(m, d));
                        } else {
                            assert(tombstone_ok(m, d));
                        }
                    },
                }
            }
        },
    }
}

} // verus!
