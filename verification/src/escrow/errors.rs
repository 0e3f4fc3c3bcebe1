use vstd::prelude::*;

verus! {

/// The errors the escrow contract answers with.
#[derive(Clone, Copy, Debug, PartialEq, Eq, Structural)]
pub enum ContractErrors {
    AllowanceExpired,
    AllowanceMaxedOut,
    AllowancePaymentFailed,
    RewardEpochNotFound,
    RewardEpochOutOfOrder,
    RewardEpochNotMatured,
    RewardLeafAlreadyClaimed,
    RewardInvalidProof,
    RewardLeafIndexOutOfBounds,
    RewardAmountTooLarge,
    InsufficientEscrowBalance,
    SweepAmountExceedsCommittedRewards,
    RewardEpochNotExpired,
}

impl ContractErrors {
    /// The numeric code the contract reports for this error.
    pub open spec fn spec_code(self) -> u32 {
        match self {
            ContractErrors::AllowanceExpired => 201,
            ContractErrors::AllowanceMaxedOut => 202,
            ContractErrors::AllowancePaymentFailed => 203,
            ContractErrors::RewardEpochNotFound => 301,
            ContractErrors::RewardEpochOutOfOrder => 302,
            ContractErrors::RewardEpochNotMatured => 303,
            ContractErrors::RewardLeafAlreadyClaimed => 304,
            ContractErrors::RewardInvalidProof => 305,
            ContractErrors::RewardLeafIndexOutOfBounds => 306,
            ContractErrors::RewardAmountTooLarge => 307,
            ContractErrors::InsufficientEscrowBalance => 308,
            ContractErrors::SweepAmountExceedsCommittedRewards => 309,
            ContractErrors::RewardEpochNotExpired => 310,
        }
    }

    /// The numeric code the contract reports for this error.
    pub fn code(&self) -> (c: u32)
        ensures
            c == self.spec_code(),
    {
        match self {
            ContractErrors::AllowanceExpired => 201,
            ContractErrors::AllowanceMaxedOut => 202,
            ContractErrors::AllowancePaymentFailed => 203,
            ContractErrors::RewardEpochNotFound => 301,
            ContractErrors::RewardEpochOutOfOrder => 302,
            ContractErrors::RewardEpochNotMatured => 303,
            ContractErrors::RewardLeafAlreadyClaimed => 304,
            ContractErrors::RewardInvalidProof => 305,
            ContractErrors::RewardLeafIndexOutOfBounds => 306,
            ContractErrors::RewardAmountTooLarge => 307,
            ContractErrors::InsufficientEscrowBalance => 308,
            ContractErrors::SweepAmountExceedsCommittedRewards => 309,
            ContractErrors::RewardEpochNotExpired => 310,
        }
    }
}

} // verus!
