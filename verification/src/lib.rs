//! A batch ledger processor: per-client accounts with deposits, withdrawals,
//! and a dispute lifecycle (dispute, then resolve or chargeback).
//!
//! Monetary amounts are exact fixed-point values, counted as unsigned integer
//! units of the smallest accepted denomination (for instance ten-thousandths
//! of the currency). All arithmetic on them is exact; every account satisfies
//! `total == available + held` at every observable point.

pub mod account;
pub mod payments_engine;
pub mod transaction;
pub mod transaction_kind;
