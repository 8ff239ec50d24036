//! Core of a collateralized-lease financial primitive.
//!
//! A customer deposits a down payment, a lending pool grants the remainder,
//! the combined funds are swapped into a target asset, and the resulting
//! position is tracked through its life: margin and interest accrue, payments
//! are allocated across the owed buckets, and the position is liquidated when
//! collateral health degrades.
//!
//! The crate holds the decision logic only. Message routing, persistence,
//! serialization and the collaborating services (pool, remote custody,
//! transfer, swap, oracle, time alarms) are callers' concerns: they feed
//! events in and carry the returned effects out.

pub mod percent;
pub mod error;
pub mod coin;
pub mod dex;
pub mod liability;
pub mod borrow;
pub mod repay;
pub mod loan;
pub mod liquidation;
pub mod lease;
pub mod state;
pub mod price;
pub mod feed;
pub mod oracle;
pub mod dispatcher;
pub mod leaser;
pub mod lpp;
