//! Verified core of an Albatross-style staking contract: the data model,
//! transaction and inherent handlers with their receipts, the reservation
//! system used during block assembly, the punishment bookkeeping, and the
//! checksummed wire frame that carries typed messages between nodes.

pub mod bitset;
pub mod codec;
pub mod contract;
pub mod laws;
pub mod model;
pub mod primitives;
pub mod punished;
pub mod records;
pub mod reserved;
pub mod store;
pub mod sums;
pub mod transactions;
