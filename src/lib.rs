//! A binary-outcome prediction market: constant-product pricing of YES/NO
//! claims, a market lifecycle, staked propose-and-vote resolution, and 1:1
//! settlement of winning claims.
//!
//! Every operation is a pure state transition over plain values. Moving
//! tokens on a ledger is left to the caller, which performs the transfers an
//! operation reports and commits the new state only when they succeed.

pub mod error;
pub mod utils;
pub mod state;
pub mod config;
pub mod market;
pub mod governance;
pub mod settlement;
pub mod governance_token;
