//! The vault contract: it takes users' deposits of one asset, tracks each
//! depositor's principal and the vault's total, and pays withdrawals back.
pub mod contract;
pub mod deposit;
pub mod errors;
pub mod events;
pub mod ledger;
pub mod storage;
pub mod utils;
