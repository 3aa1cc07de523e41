//! A time-weighted reward-accrual ledger over staked tokens.
//!
//! Users deposit ("devote") fungible token units into per-user custody and
//! accrue a reward quantity ("devotion") that grows with staked amount and
//! elapsed time, up to a hard cap fixed by policy. Withdrawal ("waver"),
//! partial or full, forfeits the entire unredeemed accrual — a deliberate
//! design choice favouring simple bookkeeping over pro-rata redemption.
//!
//! The crate holds the accounting engine alone: policy validation, the
//! accrual calculator, the per-user ledger entry with its cap invariant, and
//! the aggregate total kept in lockstep with every balance change. Token
//! custody, authorization and durable storage are the hosting environment's
//! collaborators and stay outside.

pub mod engine;
pub mod laws;
pub mod math;
pub mod state;
