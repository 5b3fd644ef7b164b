//! A staking-pool ledger: reward accounting, record layouts and the
//! validation and state transitions of each instruction, all verified.
//! Talking to the host ledger (reading accounts, the clock, moving tokens)
//! is left to the caller, which hands this crate plain values.

pub mod account;
pub mod chain;
pub mod codec;
pub mod error;
pub mod instruction;
pub mod processor;
pub mod state;
pub mod utils;
