use crate::address::Addr;
use crate::token::{fits_token_amount, to_token_amount, TransferOrder};
use crate::vault::errors::ContractErrors;
use crate::vault::storage::config::{deposit_asset, VaultInstance};
use vstd::prelude::*;

verus! {

/// Orders the transfer of `amount` of the deposit asset from the vault
/// (`contract`) to `to`; an amount that no token transfer can carry is refused.
pub fn withdraw_deposit_asset(
    inst: &mut VaultInstance,
    contract: &Addr,
    to: &Addr,
    amount: &u128,
) -> (r: Result<TransferOrder, ContractErrors>)
    requires
        old(inst).deposit_asset is Some,
    ensures
        *final(inst) == *old(inst),
        fits_token_amount(*amount) ==> r == Ok::<TransferOrder, ContractErrors>(
            TransferOrder {
                asset: old(inst).deposit_asset.unwrap(),
                from: *contract,
                to: *to,
                amount: *amount as i128,
            },
        ),
        !fits_token_amount(*amount) ==> r == Err::<TransferOrder, ContractErrors>(
            ContractErrors::AmountOverflow,
        ),
{
    let asset: Addr = deposit_asset(inst, None).unwrap();
    match to_token_amount(*amount) {
        Some(amount_i128) => Ok(TransferOrder { asset, from: *contract, to: *to, amount: amount_i128 }),
        None => Err(ContractErrors::AmountOverflow),
    }
}

/// The outcome of an ordered withdrawal transfer: a transfer that failed
/// fails the withdrawal.
pub fn deposit_asset_transferred(succeeded: bool) -> (r: Result<(), ContractErrors>)
    ensures
        r == if succeeded {
            Ok::<(), ContractErrors>(())
        } else {
            Err::<(), ContractErrors>(ContractErrors::WithdrawDepositAssetFailed)
        },
{
    if succeeded {
        Ok(())
    } else {
        Err(ContractErrors::WithdrawDepositAssetFailed)
    }
}

} // verus!
