use crate::address::Addr;
use vstd::prelude::*;

verus! {

/// Published, as the single value `address`, under `("ADMIN", "update")`.
#[derive(Clone, Copy, Debug, PartialEq, Eq)]
pub struct ContractAdminEvent {
    pub address: Addr,
}

/// Published, as the single value `paused`, under `("STATUS", "update")`.
#[derive(Clone, Copy, Debug, PartialEq, Eq)]
pub struct ContractStatusEvent {
    pub paused: bool,
}

/// Published under `("DEPOSIT", "create")` for every deposit.
#[derive(Clone, Debug, PartialEq, Eq)]
pub struct DepositEvent {
    pub deposit_id: u64,
    pub owner: Addr,
    pub amount: u128,
    pub started_at: u64,
    pub referral_id: Option<String>,
}

/// Published under `("DEPOSIT", "withdraw")` when a deposit is withdrawn.
#[derive(Clone, Copy, Debug, PartialEq, Eq)]
pub struct WithdrawDepositEvent {
    pub deposit_id: u64,
    pub owner: Addr,
    pub amount: u128,
}

/// Published under `("WITHDRAW", "total")` for every withdrawal.
#[derive(Clone, Copy, Debug, PartialEq, Eq)]
pub struct WithdrawEvent {
    pub amount: u128,
    pub owner: Addr,
}

} // verus!
