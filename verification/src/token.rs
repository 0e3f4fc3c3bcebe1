use crate::address::Addr;
use vstd::prelude::*;

verus! {

/// A token transfer that a contract call performs once its checks have passed:
/// `amount` of the token contract `asset`, from `from` to `to`.
#[derive(Clone, Copy, Debug, PartialEq, Eq)]
pub struct TransferOrder {
    pub asset: Addr,
    pub from: Addr,
    pub to: Addr,
    pub amount: i128,
}

/// Whether an unsigned amount fits the signed amounts that tokens move.
pub open spec fn fits_token_amount(amount: u128) -> bool {
    amount <= i128::MAX
}

/// Converts an unsigned amount to a token amount, when it fits.
pub fn to_token_amount(amount: u128) -> (r: Option<i128>)
    ensures
        r is Some <==> fits_token_amount(amount),
        r matches Some(v) ==> v == amount,
{
    if amount <= i128::MAX as u128 {
        Some(amount as i128)
    } else {
        None
    }
}

} // verus!
