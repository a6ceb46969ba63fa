//! Vetting of newly created exchange pairs.
//!
//! When the factory contract announces a new pool, the pair goes through a
//! fixed sequence of stages before it is recorded as a trading candidate:
//! the liquidity watcher polls the pool's reserves within a bounded number of
//! attempts, the safety prober simulates a call to see whether the token
//! restricts transfers, the tax inspector reads or infers the token's taxes,
//! and the acceptance filter applies the vetoes and assembles the record.
//!
//! The library holds the decisions and none of the waiting: `pipeline` is a
//! state machine that names the next request and takes the response to it,
//! and the caller owns the connection to the ledger, the clock and the store.
//! `verdict` states what a vetting comes to and proves that the state machine
//! comes to it.

pub mod abi;
pub mod acceptance;
pub mod address;
pub mod chain;
pub mod event;
pub mod liquidity;
pub mod pipeline;
pub mod record;
pub mod recorder;
pub mod safety;
pub mod tax;
pub mod uint256;
pub mod verdict;
