//! Pre-commit accounting that prevents one account's funds from backing two
//! outgoing transactions inside the same block assembly. The tracker lives
//! for one assembly attempt and is discarded afterwards.

use std::collections::HashMap;

use vstd::prelude::*;

use crate::model::{release_for_act, reserve_for_act};
use crate::primitives::{coin_add, AccountError, Address, Coin};

verus! {

broadcast use vstd::std_specs::hash::group_hash_axioms;

/// Funds already promised to outgoing transactions, per address.
pub struct ReservedBalance {
    reservations: HashMap<Address, Coin>,
}

impl View for ReservedBalance {
    type V = Map<Address, Coin>;

    closed spec fn view(&self) -> Map<Address, Coin> {
        self.reservations@
    }
}

impl ReservedBalance {
    /// No entry is ever kept at zero, so releases invert reservations
    /// exactly.
    pub open spec fn wf(self) -> bool {
        forall|a: Address| self@.contains_key(a) ==> #[trigger] self@[a] > 0
    }

    /// An empty tracker.
    pub fn new() -> (r: ReservedBalance)
        ensures
            r@ == Map::<Address, Coin>::empty(),
            r.wf(),
    {
        ReservedBalance { reservations: HashMap::new() }
    }

    /// The amount currently reserved for `address`.
    pub fn reserved_for(&self, address: Address) -> (r: Coin)
        ensures
            r == if self@.contains_key(address) {
                self@[address]
            } else {
                0
            },
    {
        match self.reservations.get(&address) {
            Some(amount) => *amount,
            None => 0,
        }
    }

    /// Reserves `amount` more for `address`, failing with
    /// `InsufficientFunds` when the cumulative reservation would exceed
    /// `cap`.
    pub fn reserve_for(&mut self, address: Address, cap: Coin, amount: Coin) -> (r: Result<
        (),
        AccountError,
    >)
        ensures
            ({
                let act = reserve_for_act(old(self)@, address, cap, amount);
                match r {
                    Ok(_) => act == Ok::<Map<Address, Coin>, AccountError>(final(self)@),
                    Err(e) => act == Err::<Map<Address, Coin>, AccountError>(e) && final(self)@
                        == old(self)@,
                }
            }),
            old(self).wf() ==> final(self).wf(),
    {
        if amount == 0 {
            return Ok(());
        }
        let current = self.reserved_for(address);
        let total = match coin_add(current, amount) {
            Ok(t) => t,
            Err(e) => {
                return Err(e);
            },
        };
        if total <= cap {
            self.reservations.insert(address, total);
            Ok(())
        } else {
            Err(AccountError::InsufficientFunds { needed: total, balance: cap })
        }
    }

    /// Releases `amount` of the reservation for `address`; the exact inverse
    /// of the matching reservation. Never fails.
    pub fn release_for(&mut self, address: Address, amount: Coin)
        ensures
            final(self)@ == release_for_act(old(self)@, address, amount),
            old(self).wf() ==> final(self).wf(),
    {
        let current = self.reserved_for(address);
        if amount >= current {
            self.reservations.remove(&address);
        } else {
            self.reservations.insert(address, current - amount);
        }
    }
}

} // verus!
