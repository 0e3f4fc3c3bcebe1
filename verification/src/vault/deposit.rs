use crate::address::Addr;
use crate::auth::Authorized;
use crate::token::{fits_token_amount, to_token_amount, TransferOrder};
use crate::vault::errors::ContractErrors;
use crate::vault::events::DepositEvent;
use crate::vault::storage::config::{deposit_asset, is_paused, paused, VaultInstance};
use crate::vault::storage::deposit_state::{
    add_total_principal, consume_next_deposit_id, deposit, next_id, principal, record_amount,
    DepositRecord,
};
use vstd::prelude::*;

verus! {

/// What an accepted deposit leads to: its identifier, the transfer of the
/// deposited asset into the vault, and the event to publish.
#[derive(Clone, Debug, PartialEq, Eq)]
pub struct DepositReceipt {
    pub deposit_id: u64,
    pub transfer: TransferOrder,
    pub event: DepositEvent,
}

/// The error a deposit of `amount` is refused with, if any.
pub open spec fn deposit_refusal(inst: VaultInstance, amount: u128) -> Option<ContractErrors> {
    if is_paused(inst) {
        Some(ContractErrors::VaultPaused)
    } else if amount == 0 {
        Some(ContractErrors::ZeroAmountDeposit)
    } else if !fits_token_amount(amount) {
        Some(ContractErrors::AmountOverflow)
    } else {
        None
    }
}

/// What an accepted deposit needs of the stored entries: room for the next
/// identifier, the depositor's record and the total.
pub open spec fn deposit_fits(inst: VaultInstance, slot: Option<DepositRecord>, amount: u128) -> bool {
    &&& next_id(inst) < u64::MAX
    &&& record_amount(slot) + amount <= u128::MAX
    &&& principal(inst) + amount <= u128::MAX
}

/// Whose authorization a deposit of `amount` by `from` asks for: none when it
/// is refused for a pause or a zero amount, which comes first.
pub open spec fn deposit_authorizer(inst: VaultInstance, from: Addr, amount: u128) -> Option<Addr> {
    if is_paused(inst) || amount == 0 {
        None
    } else {
        Some(from)
    }
}

/// The depositor's record after a deposit of `amount`.
pub open spec fn deposited(slot: Option<DepositRecord>, from: Addr, amount: u128) -> Option<
    DepositRecord,
> {
    Some(
        DepositRecord {
            owner: match slot {
                Some(r) => r.owner,
                None => from,
            },
            amount: (record_amount(slot) + amount) as u128,
        },
    )
}

/// A deposit of `amount` by `from` into the vault (`contract`) at time `now`:
/// refused while the vault is paused, for a zero amount, and for an amount no
/// token transfer can carry. Otherwise it gets the next identifier, and the
/// amount is added to `from`'s record (`slot`) and to the total principal.
/// Unless the call is refused for a pause or a zero amount, `from` must
/// authorize it; the ordered transfer is made before the entries are
/// written back.
pub fn handle_deposit(
    inst: &mut VaultInstance,
    slot: &mut Option<DepositRecord>,
    contract: &Addr,
    from: Addr,
    amount: u128,
    referral_id: Option<String>,
    now: u64,
) -> (r: Authorized<Result<DepositReceipt, ContractErrors>>)
    requires
        !is_paused(*old(inst)) && amount != 0 ==> old(inst).deposit_asset is Some,
        deposit_refusal(*old(inst), amount) is None ==> deposit_fits(*old(inst), *old(slot), amount),
    ensures
        r.authorizer == deposit_authorizer(*old(inst), from, amount),
        deposit_refusal(*old(inst), amount) matches Some(err) ==> {
            &&& r.outcome == Err::<DepositReceipt, ContractErrors>(err)
            &&& *final(inst) == *old(inst)
            &&& *final(slot) == *old(slot)
        },
        deposit_refusal(*old(inst), amount) is None ==> {
            &&& r.outcome == Ok::<DepositReceipt, ContractErrors>(
                DepositReceipt {
                    deposit_id: next_id(*old(inst)),
                    transfer: TransferOrder {
                        asset: old(inst).deposit_asset.unwrap(),
                        from,
                        to: *contract,
                        amount: amount as i128,
                    },
                    event: DepositEvent {
                        deposit_id: next_id(*old(inst)),
                        owner: from,
                        amount,
                        started_at: now,
                        referral_id,
                    },
                },
            )
            &&& *final(slot) == deposited(*old(slot), from, amount)
            &&& *final(inst) == (VaultInstance {
                next_deposit_id: Some((next_id(*old(inst)) + 1) as u64),
                total_principal: Some((principal(*old(inst)) + amount) as u128),
                ..*old(inst)
            })
        },
{
    let paused_flag: bool = match paused(inst, None) {
        Some(p) => p,
        None => false,
    };
    if paused_flag {
        return Authorized { authorizer: None, outcome: Err(ContractErrors::VaultPaused) };
    }
    if amount == 0 {
        return Authorized { authorizer: None, outcome: Err(ContractErrors::ZeroAmountDeposit) };
    }
    let deposit_asset_address: Addr = deposit_asset(inst, None).unwrap();
    let amount_i128: i128 = match to_token_amount(amount) {
        Some(v) => v,
        None => {
            return Authorized { authorizer: Some(from), outcome: Err(ContractErrors::AmountOverflow) };
        },
    };
    let transfer = TransferOrder {
        asset: deposit_asset_address,
        from,
        to: *contract,
        amount: amount_i128,
    };
    let started_at: u64 = now;
    let deposit_id: u64 = consume_next_deposit_id(inst);
    let mut record: DepositRecord = match deposit(slot, None, false) {
        Some(r) => r,
        None => DepositRecord { owner: from, amount: 0 },
    };
    record.amount = record.amount + amount;
    deposit(slot, Some(record), false);
    add_total_principal(inst, amount);
    Authorized {
        authorizer: Some(from),
        outcome: Ok(
            DepositReceipt {
                deposit_id,
                transfer,
                event: DepositEvent { deposit_id, owner: from, amount, started_at, referral_id },
            },
        ),
    }
}

} // verus!
