//! A custodial ledger for native coins.
//!
//! Deposits are recorded per depositor and denomination, can be withdrawn in
//! part by the depositor, and can be listed per depositor. Every public
//! function carries a contract that Verus proves; the few calls into
//! `cosmwasm_std` and `cw_storage_plus` live in the `store` module, where
//! their contracts are assumed.

pub mod contract;
pub mod deposit;
pub mod error;
pub mod laws;
pub mod ledger;
pub mod msg;
pub mod order;
pub mod state;
pub mod store;
pub mod text;

pub use crate::error::ContractError;
