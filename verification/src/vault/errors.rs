use vstd::prelude::*;

verus! {

/// The errors the vault contract answers with.
#[derive(Clone, Copy, Debug, PartialEq, Eq, Structural)]
pub enum ContractErrors {
    VaultPaused,
    NotEnoughDeposit,
    WithdrawDepositAssetFailed,
    RewardAmountTooLarge,
    AmountOverflow,
    ZeroAmountDeposit,
}

impl ContractErrors {
    /// The numeric code the contract reports for this error.
    pub open spec fn spec_code(self) -> u32 {
        match self {
            ContractErrors::VaultPaused => 100,
            ContractErrors::NotEnoughDeposit => 101,
            ContractErrors::WithdrawDepositAssetFailed => 102,
            ContractErrors::RewardAmountTooLarge => 103,
            ContractErrors::AmountOverflow => 104,
            ContractErrors::ZeroAmountDeposit => 105,
        }
    }

    /// The numeric code the contract reports for this error.
    pub fn code(&self) -> (c: u32)
        ensures
            c == self.spec_code(),
    {
        match self {
            ContractErrors::VaultPaused => 100,
            ContractErrors::NotEnoughDeposit => 101,
            ContractErrors::WithdrawDepositAssetFailed => 102,
            ContractErrors::RewardAmountTooLarge => 103,
            ContractErrors::AmountOverflow => 104,
            ContractErrors::ZeroAmountDeposit => 105,
        }
    }
}

} // verus!
