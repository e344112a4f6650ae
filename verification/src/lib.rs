//! A time-locked staking ledger.
//!
//! Users deposit a fungible token into a pool for a declared lock period and
//! accrue rewards at a configured annual rate; withdrawals of both principal
//! and reward go through a two-phase request/delay/claim protocol.
//!
//! The crate holds the staking and reward-accrual state machine: the pool and
//! term configuration records, the per-user position, the reward accrual
//! calculator, and the two pending-withdrawal queues with their delay timers.
//! Durable storage of the records, ownership checks, and the actual movement
//! of token balances are the surrounding program's business: every operation
//! here takes the current clock reading as an argument and reports the token
//! transfer it calls for in its result.

pub mod account;
pub mod claim;
pub mod error;
pub mod laws;
pub mod manager;
pub mod reward;
