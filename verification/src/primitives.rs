//! Money type, protocol constants and the error taxonomy shared by every
//! handler of the staking contract.

use vstd::prelude::*;

verus! {

/// An on-ledger address. Key derivation and signature checking happen before
/// the engine is called, so an address is a plain identifier here.
pub type Address = u64;

/// A monetary amount in the smallest unit. Balances are non-negative and all
/// arithmetic on them is checked.
pub type Coin = u64;

/// The smallest amount a non-zero staker balance component may hold.
pub const MIN_STAKE: Coin = 100;

/// The fixed bond a validator must deposit on creation.
pub const VALIDATOR_DEPOSIT: Coin = 10_000;

/// Number of blocks in one batch.
pub const BLOCKS_PER_BATCH: u32 = 32;

/// Number of batches a retired validator or an inactive balance must wait
/// before its funds are released.
pub const RELEASE_WINDOW_BATCHES: u32 = 2;

/// The release window expressed in blocks.
pub const RELEASE_WINDOW_BLOCKS: u32 = RELEASE_WINDOW_BATCHES * BLOCKS_PER_BATCH;

/// Number of production slots in one epoch; slot numbers range below this.
pub const SLOTS_PER_EPOCH: u16 = 512;

/// Everything that can go wrong while committing, reverting or reserving.
/// Handlers validate before they mutate, so an error implies the state is
/// unchanged.
#[derive(Clone, Copy, PartialEq, Eq, Debug)]
pub enum AccountError {
    /// The operation does not apply to this account as a recipient.
    InvalidForRecipient,
    /// The operation does not apply to this account as a sender.
    InvalidForSender,
    /// The inherent or operation does not target this account.
    InvalidForTarget,
    /// A validator or staker was expected at an address but is missing.
    NonExistentAddress,
    /// A creation targeted an address that is already occupied.
    AlreadyExistentAddress,
    /// The arithmetic would take a balance below zero.
    InsufficientFunds { needed: Coin, balance: Coin },
    /// A coin value violates the minimum stake, is not positive where it must
    /// be, or an addition overflows.
    InvalidCoinValue,
    /// A receipt is missing on revert, or its tag does not match.
    InvalidReceipt,
    /// The operation is not allowed in the current validator or staker state.
    InvalidForState,
}

/// The sum of two coin amounts, or the overflow error.
pub open spec fn spec_coin_add(a: Coin, b: Coin) -> Result<Coin, AccountError> {
    if a + b <= u64::MAX {
        Ok((a + b) as u64)
    } else {
        Err(AccountError::InvalidCoinValue)
    }
}

/// The difference of two coin amounts, or the shortfall error.
pub open spec fn spec_coin_sub(a: Coin, b: Coin) -> Result<Coin, AccountError> {
    if b <= a {
        Ok((a - b) as u64)
    } else {
        Err(AccountError::InsufficientFunds { needed: b, balance: a })
    }
}

/// Checked addition of coin amounts; overflow is `InvalidCoinValue`.
pub fn coin_add(a: Coin, b: Coin) -> (r: Result<Coin, AccountError>)
    ensures
        r == spec_coin_add(a, b),
{
    match a.checked_add(b) {
        Some(c) => Ok(c),
        None => Err(AccountError::InvalidCoinValue),
    }
}

/// Checked subtraction of coin amounts; a shortfall is `InsufficientFunds`.
pub fn coin_sub(a: Coin, b: Coin) -> (r: Result<Coin, AccountError>)
    ensures
        r == spec_coin_sub(a, b),
{
    if b <= a {
        Ok(a - b)
    } else {
        Err(AccountError::InsufficientFunds { needed: b, balance: a })
    }
}

/// The batch a block number belongs to.
pub open spec fn spec_batch_of(block_number: u32) -> u32 {
    (block_number / BLOCKS_PER_BATCH) as u32
}

/// The batch a block number belongs to.
pub fn batch_of(block_number: u32) -> (r: u32)
    ensures
        r == spec_batch_of(block_number),
{
    block_number / BLOCKS_PER_BATCH
}

/// Lookup in a spec-level map, as an `Option`.
pub open spec fn map_get<V>(m: Map<Address, V>, k: Address) -> Option<V> {
    if m.contains_key(k) {
        Some(m[k])
    } else {
        None
    }
}

} // verus!
