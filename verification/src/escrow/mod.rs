//! The escrow contract: it holds the reward token supply and releases a
//! deposit's reward once a Merkle proof against the epoch's root checks out.
pub mod contract;
pub mod errors;
pub mod events;
pub mod rewards;
pub mod storage;
