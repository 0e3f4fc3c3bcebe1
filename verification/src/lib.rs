//! Verified core of the Sentora vault and escrow contracts.
//!
//! The contracts' storage is held here as plain values (`VaultInstance`,
//! deposit slots, reward epoch slots, claim words); the Soroban shell that
//! reads and writes the ledger, checks authorization, moves tokens and
//! publishes events lives outside this crate and calls these functions for
//! every decision the contracts take.
pub mod address;
pub mod auth;
pub mod constants;
pub mod sdk;
pub mod token;
pub mod xdr;
pub mod escrow;
pub mod vault;
