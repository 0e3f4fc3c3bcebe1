use crate::address::Addr;
use vstd::prelude::*;

verus! {

/// Published under the topics `("REWARD", "root")` when an epoch's root is stored.
#[derive(Clone, Copy, Debug, PartialEq, Eq)]
pub struct RewardRootUpdatedEvent {
    pub epoch: u32,
    pub vault: Addr,
    pub root: [u8; 32],
    pub asset: Addr,
    pub total_rewards: u128,
    pub leaf_count: u32,
    pub program_end_ts: u64,
}

/// Published under the topics `("REWARD", "claim")` when a deposit's reward is paid.
#[derive(Clone, Copy, Debug, PartialEq, Eq)]
pub struct RewardClaimedEvent {
    pub epoch: u32,
    pub vault: Addr,
    pub deposit_id: u64,
    pub owner: Addr,
    pub asset: Addr,
    pub amount: u128,
}

/// Published under the topics `("ADMIN", "withdraw")` for each asset the
/// admin takes out of the escrow.
#[derive(Clone, Copy, Debug, PartialEq, Eq)]
pub struct AdminWithdrawEvent {
    pub asset: Addr,
    pub admin: Addr,
    pub amount: u128,
}

} // verus!
