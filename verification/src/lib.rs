//! Core of a pooled-stake lottery: participants deposit into a shared round,
//! a single winner is chosen with probability proportional to their share of
//! the pool using an externally supplied random value, and the winner then
//! withdraws the entire pool.
//!
//! This crate holds the verified round lifecycle state machine (open ->
//! completed -> claimed), its deposit ledger with exact accounting, and the
//! weighted winner-selection algorithm. Value transfer, account storage and
//! the randomness oracle itself are the hosting platform's business and stay
//! outside; the core consumes their results as plain values.

pub mod config;
pub mod errors;
pub mod randomness;
pub mod round;
pub mod utils;
