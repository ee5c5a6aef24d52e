//! Valuation of a tokenized vault whose backing assets sit on several
//! independent ledgers.
//!
//! The crate computes a redemption rate (outstanding shares over total
//! assets, as an 18-digit fixed-point decimal) and a withdrawal fee in basis
//! points. It performs no queries itself: it says which reads are needed,
//! takes their replies as plain values, and decides what follows.

pub mod account;
pub mod amount;
pub mod decimal;
pub mod domain;
pub mod engine;
pub mod error;
pub mod fee;
pub mod valuation;
