//! The vault contract's storage entries, each held as a plain value.
pub mod config;
pub mod deposit_state;
