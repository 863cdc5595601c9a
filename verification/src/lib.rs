//! A minimal fungible-token ledger: per-account balances, transfers between
//! accounts, and a "burn" that redirects funds to a designated burn account.
//!
//! The ledger and every operation on it are verified. The surrounding host
//! (storage, address canonicalization, message serialization) is expected to
//! hand these functions plain values: canonical account identifiers as bytes
//! and amounts as unsigned 128-bit integers.

pub mod account;
pub mod contract;
pub mod error;
pub mod ledger;
pub mod msg;
pub mod state;
