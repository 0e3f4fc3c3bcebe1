//! The decisions of the vault contract's entry points. The Soroban shell
//! reads the entries a call needs, has the right party authorize, passes the
//! entries to these functions, performs the transfers they order, writes the
//! entries back and publishes the events. A call that ends in an error writes
//! nothing.
use crate::address::Addr;
use crate::auth::Authorized;
use crate::token::{fits_token_amount, TransferOrder};
use crate::vault::deposit::{
    deposit_authorizer, deposit_fits, deposit_refusal, deposited, handle_deposit, DepositReceipt,
};
use crate::vault::errors::ContractErrors;
use crate::vault::events::{ContractAdminEvent, ContractStatusEvent, DepositEvent, WithdrawEvent};
use crate::vault::storage::config::{admin, deposit_asset, is_paused, paused, VaultInstance};
use crate::vault::storage::deposit_state::{
    deposit, next_id, principal, record_amount, reduce_total_principal, DepositRecord,
};
use crate::vault::utils::{deposit_asset_transferred, withdraw_deposit_asset};
use vstd::prelude::*;

verus! {

/// The vault contract.
pub struct VaultContract;

/// The outcome of an admin change: who must authorize it (the current admin,
/// if there is one) and the event to publish.
#[derive(Clone, Copy, Debug, PartialEq, Eq)]
pub struct AdminUpdate {
    pub authorizer: Option<Addr>,
    pub event: ContractAdminEvent,
}

/// The outcome of a status change: the admin, who must authorize it, and the
/// event to publish.
#[derive(Clone, Copy, Debug, PartialEq, Eq)]
pub struct StatusUpdate {
    pub authorizer: Addr,
    pub event: ContractStatusEvent,
}

/// The error a withdrawal of `amount` is refused with, if any.
pub open spec fn withdraw_refusal(
    inst: VaultInstance,
    slot: Option<DepositRecord>,
    amount: u128,
) -> Option<ContractErrors> {
    if is_paused(inst) {
        Some(ContractErrors::VaultPaused)
    } else if record_amount(slot) < amount {
        Some(ContractErrors::NotEnoughDeposit)
    } else if !fits_token_amount(amount) {
        Some(ContractErrors::AmountOverflow)
    } else {
        None
    }
}

/// The depositor's record after a withdrawal of `amount`: removed when
/// nothing is left.
pub open spec fn withdrawn(slot: Option<DepositRecord>, from: Addr, amount: u128) -> Option<
    DepositRecord,
> {
    if record_amount(slot) - amount == 0 {
        None
    } else {
        Some(
            DepositRecord {
                owner: match slot {
                    Some(r) => r.owner,
                    None => from,
                },
                amount: (record_amount(slot) - amount) as u128,
            },
        )
    }
}

impl VaultContract {
    /// Sets up a new vault: its admin, the asset it takes, and not paused.
    pub fn __constructor(inst: &mut VaultInstance, new_admin: Addr, new_deposit_asset: Addr)
        ensures
            *final(inst) == (VaultInstance {
                admin: Some(new_admin),
                deposit_asset: Some(new_deposit_asset),
                paused: Some(false),
                ..*old(inst)
            }),
    {
        admin(inst, Some(new_admin));
        deposit_asset(inst, Some(new_deposit_asset));
        paused(inst, Some(false));
    }

    /// Upgrading the contract's code: returns the admin, who must authorize it.
    pub fn upgrade(inst: &mut VaultInstance) -> (r: Addr)
        requires
            old(inst).admin is Some,
        ensures
            r == old(inst).admin.unwrap(),
            *final(inst) == *old(inst),
    {
        admin(inst, None).unwrap()
    }

    /// Sets a new admin. The current admin, if there is one, must authorize
    /// it; the first admin is set without authorization.
    pub fn update_admin(inst: &mut VaultInstance, new_admin: Addr) -> (r: AdminUpdate)
        ensures
            r == (AdminUpdate {
                authorizer: old(inst).admin,
                event: ContractAdminEvent { address: new_admin },
            }),
            *final(inst) == (VaultInstance { admin: Some(new_admin), ..*old(inst) }),
    {
        let authorizer = admin(inst, None);
        admin(inst, Some(new_admin));
        AdminUpdate { authorizer, event: ContractAdminEvent { address: new_admin } }
    }

    /// Pauses or resumes deposits and withdrawals; the admin must authorize it.
    pub fn set_status(inst: &mut VaultInstance, new_status: bool) -> (r: StatusUpdate)
        requires
            old(inst).admin is Some,
        ensures
            r == (StatusUpdate {
                authorizer: old(inst).admin.unwrap(),
                event: ContractStatusEvent { paused: new_status },
            }),
            *final(inst) == (VaultInstance { paused: Some(new_status), ..*old(inst) }),
            is_paused(*final(inst)) == new_status,
    {
        let authorizer = admin(inst, None).unwrap();
        paused(inst, Some(new_status));
        StatusUpdate { authorizer, event: ContractStatusEvent { paused: new_status } }
    }

    /// A deposit of `amount` by `from`; see `handle_deposit`.
    pub fn deposit(
        inst: &mut VaultInstance,
        slot: &mut Option<DepositRecord>,
        contract: &Addr,
        from: Addr,
        amount: u128,
        referral_id: Option<String>,
        now: u64,
    ) -> (r: Authorized<Result<DepositReceipt, ContractErrors>>)
        requires
            !is_paused(*old(inst)) && amount != 0 ==> old(inst).deposit_asset is Some,
            deposit_refusal(*old(inst), amount) is None ==> deposit_fits(
                *old(inst),
                *old(slot),
                amount,
            ),
        ensures
            r.authorizer == deposit_authorizer(*old(inst), from, amount),
            deposit_refusal(*old(inst), amount) matches Some(err) ==> {
                &&& r.outcome == Err::<DepositReceipt, ContractErrors>(err)
                &&& *final(inst) == *old(inst)
                &&& *final(slot) == *old(slot)
            },
            deposit_refusal(*old(inst), amount) is None ==> {
                &&& r.outcome == Ok::<DepositReceipt, ContractErrors>(
                    DepositReceipt {
                        deposit_id: next_id(*old(inst)),
                        transfer: TransferOrder {
                            asset: old(inst).deposit_asset.unwrap(),
                            from,
                            to: *contract,
                            amount: amount as i128,
                        },
                        event: DepositEvent {
                            deposit_id: next_id(*old(inst)),
                            owner: from,
                            amount,
                            started_at: now,
                            referral_id,
                        },
                    },
                )
                &&& *final(slot) == deposited(*old(slot), from, amount)
                &&& *final(inst) == (VaultInstance {
                    next_deposit_id: Some((next_id(*old(inst)) + 1) as u64),
                    total_principal: Some((principal(*old(inst)) + amount) as u128),
                    ..*old(inst)
                })
            },
    {
        handle_deposit(inst, slot, contract, from, amount, referral_id, now)
    }

    /// A withdrawal of `amount` by `from` out of the vault (`contract`):
    /// refused while the vault is paused, beyond `from`'s record, and for an
    /// amount no token transfer can carry. Otherwise the amount comes off
    /// `from`'s record, which is removed when nothing is left, and the
    /// transfer to `from` is ordered; `finish_withdraw` completes the call
    /// with the transfer's outcome. Unless the vault is paused, which is
    /// checked first, `from` must authorize the call.
    pub fn withdraw(
        inst: &mut VaultInstance,
        slot: &mut Option<DepositRecord>,
        contract: &Addr,
        from: Addr,
        amount: u128,
    ) -> (r: Authorized<Result<TransferOrder, ContractErrors>>)
        requires
            !is_paused(*old(inst)) && record_amount(*old(slot)) >= amount ==> old(
                inst,
            ).deposit_asset is Some,
        ensures
            *final(inst) == *old(inst),
            r.authorizer == if is_paused(*old(inst)) {
                None
            } else {
                Some(from)
            },
            withdraw_refusal(*old(inst), *old(slot), amount) matches Some(err) ==> r.outcome == Err::<
                TransferOrder,
                ContractErrors,
            >(err) && *final(slot) == *old(slot),
            withdraw_refusal(*old(inst), *old(slot), amount) is None ==> r.outcome == Ok::<
                TransferOrder,
                ContractErrors,
            >(
                TransferOrder {
                    asset: old(inst).deposit_asset.unwrap(),
                    from: *contract,
                    to: from,
                    amount: amount as i128,
                },
            ) && *final(slot) == withdrawn(*old(slot), from, amount),
    {
        let paused_flag: bool = match paused(inst, None) {
            Some(p) => p,
            None => false,
        };
        if paused_flag {
            return Authorized { authorizer: None, outcome: Err(ContractErrors::VaultPaused) };
        }
        let mut saved_deposit: DepositRecord = match deposit(slot, None, false) {
            Some(r) => r,
            None => DepositRecord { owner: from, amount: 0 },
        };
        if saved_deposit.amount < amount {
            return Authorized {
                authorizer: Some(from),
                outcome: Err(ContractErrors::NotEnoughDeposit),
            };
        }
        let transfer = match withdraw_deposit_asset(inst, contract, &from, &amount) {
            Ok(t) => t,
            Err(err) => {
                return Authorized { authorizer: Some(from), outcome: Err(err) };
            },
        };
        saved_deposit.amount = saved_deposit.amount - amount;
        if saved_deposit.amount == 0 {
            deposit(slot, None, true);
        } else {
            deposit(slot, Some(saved_deposit), false);
        }
        Authorized { authorizer: Some(from), outcome: Ok(transfer) }
    }

    /// Completes a withdrawal of `amount` by `from` once the ordered transfer
    /// has been attempted: a failed transfer fails the call; otherwise the
    /// amount comes off the total principal.
    pub fn finish_withdraw(inst: &mut VaultInstance, from: Addr, amount: u128, transferred: bool) -> (r:
        Result<WithdrawEvent, ContractErrors>)
        requires
            transferred ==> amount <= principal(*old(inst)),
        ensures
            !transferred ==> r == Err::<WithdrawEvent, ContractErrors>(
                ContractErrors::WithdrawDepositAssetFailed,
            ) && *final(inst) == *old(inst),
            transferred ==> r == Ok::<WithdrawEvent, ContractErrors>(
                WithdrawEvent { amount, owner: from },
            ) && *final(inst) == (VaultInstance {
                total_principal: Some((principal(*old(inst)) - amount) as u128),
                ..*old(inst)
            }),
    {
        match deposit_asset_transferred(transferred) {
            Ok(()) => {},
            Err(err) => {
                return Err(err);
            },
        }
        reduce_total_principal(inst, &amount);
        Ok(WithdrawEvent { amount, owner: from })
    }
}

/// Law of the pause: while the vault is paused every deposit and every
/// withdrawal is refused with `VaultPaused`, and while it is not, neither is.
pub proof fn law_paused_vault_refuses(inst: VaultInstance, slot: Option<DepositRecord>, amount: u128)
    ensures
        is_paused(inst) <==> deposit_refusal(inst, amount) == Some(ContractErrors::VaultPaused),
        is_paused(inst) <==> withdraw_refusal(inst, slot, amount) == Some(
            ContractErrors::VaultPaused,
        ),
{
}

/// Law of the records: a deposit adds its amount to the depositor's record
/// and a withdrawal takes its amount off it, and a stored record never holds
/// zero (a deposit is never of zero, and an emptied record is removed).
pub proof fn law_records_move_by_amount(slot: Option<DepositRecord>, from: Addr, amount: u128)
    ensures
        record_amount(slot) + amount <= u128::MAX ==> record_amount(deposited(slot, from, amount))
            == record_amount(slot) + amount,
        record_amount(slot) + amount <= u128::MAX && amount > 0 ==> record_amount(
            deposited(slot, from, amount),
        ) > 0,
        amount <= record_amount(slot) ==> record_amount(withdrawn(slot, from, amount))
            == record_amount(slot) - amount,
        amount <= record_amount(slot) ==> (withdrawn(slot, from, amount) is None || record_amount(
            withdrawn(slot, from, amount),
        ) > 0),
{
}

/// Law of the round trip: withdrawing right after a deposit the amount just
/// deposited gives the depositor's record back as it was (absent, or holding
/// a positive amount), and the total principal back as it was.
pub proof fn law_deposit_then_withdraw_restores(
    slot: Option<DepositRecord>,
    total: u128,
    from: Addr,
    amount: u128,
)
    requires
        slot is None || record_amount(slot) > 0,
        record_amount(slot) + amount <= u128::MAX,
        total + amount <= u128::MAX,
    ensures
        withdrawn(deposited(slot, from, amount), from, amount) == slot,
        ((total + amount) as u128 - amount) as u128 == total,
{
}

/// Law of the vault's refusals: a deposit is accepted exactly when the vault
/// is not paused (an absent flag meaning not paused), the amount is not zero
/// and it fits a token amount; a withdrawal is accepted exactly when the
/// vault is not paused, the amount is within the caller's record (an absent
/// record holding zero) and it fits a token amount.
pub proof fn law_vault_acceptance(inst: VaultInstance, slot: Option<DepositRecord>, amount: u128)
    ensures
        deposit_refusal(inst, amount) is None <==> {
            &&& inst.paused != Some(true)
            &&& amount != 0
            &&& amount <= i128::MAX as u128
        },
        withdraw_refusal(inst, slot, amount) is None <==> {
            &&& inst.paused != Some(true)
            &&& amount <= match slot {
                Some(r) => r.amount,
                None => 0,
            }
            &&& amount <= i128::MAX as u128
        },
        inst.paused != Some(true) && amount > (match slot {
            Some(r) => r.amount,
            None => 0u128,
        }) ==> withdraw_refusal(inst, slot, amount) == Some(ContractErrors::NotEnoughDeposit),
        inst.paused != Some(true) && amount == 0 ==> deposit_refusal(inst, amount) == Some(
            ContractErrors::ZeroAmountDeposit,
        ),
{
}

} // verus!
