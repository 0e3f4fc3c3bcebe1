use crate::address::Addr;
use crate::vault::storage::config::VaultInstance;
use vstd::prelude::*;

verus! {

/// A depositor's principal held by the vault.
#[derive(Clone, Copy, Debug, PartialEq, Eq)]
pub struct DepositRecord {
    pub owner: Addr,
    pub amount: u128,
}

/// The keys of the vault's deposit bookkeeping entries.
#[derive(Clone, Copy, Debug, PartialEq, Eq)]
pub enum DepositStorageKey {
    /// Instance entry: the identifier the next deposit gets.
    NextDepositId,
    /// Persistent entry: a depositor's record.
    Deposit(Addr),
    /// Instance entry: the total principal held.
    TotalPrincipal,
}

/// The identifier the next deposit gets: one when none was stored.
pub open spec fn next_id(inst: VaultInstance) -> u64 {
    match inst.next_deposit_id {
        Some(n) => n,
        None => 1,
    }
}

/// The total principal held: zero when none was stored.
pub open spec fn principal(inst: VaultInstance) -> u128 {
    match inst.total_principal {
        Some(p) => p,
        None => 0,
    }
}

/// The amount in a deposit entry: zero when there is no record.
pub open spec fn record_amount(slot: Option<DepositRecord>) -> u128 {
    match slot {
        Some(r) => r.amount,
        None => 0,
    }
}

/// Hands out the next deposit identifier and stores its successor: each
/// deposit gets a distinct identifier, in increasing order from one.
pub fn consume_next_deposit_id(inst: &mut VaultInstance) -> (id: u64)
    requires
        next_id(*old(inst)) < u64::MAX,
    ensures
        id == next_id(*old(inst)),
        *final(inst) == (VaultInstance { next_deposit_id: Some((id + 1) as u64), ..*old(inst) }),
{
    let next: u64 = match inst.next_deposit_id {
        Some(n) => n,
        None => 1,
    };
    inst.next_deposit_id = Some(next + 1);
    next
}

/// A depositor's entry: stores `value` when one is given, or else removes the
/// record when `remove` is set, then reads the entry back.
pub fn deposit(slot: &mut Option<DepositRecord>, value: Option<DepositRecord>, remove: bool) -> (r:
    Option<DepositRecord>)
    ensures
        *final(slot) == (match value {
            Some(v) => Some(v),
            None => if remove {
                None
            } else {
                *old(slot)
            },
        }),
        r == *final(slot),
{
    if let Some(v) = value {
        *slot = Some(v);
    } else if remove {
        *slot = None;
    }
    *slot
}

/// Adds `amount` to the total principal and returns the new total.
pub fn add_total_principal(inst: &mut VaultInstance, amount: u128) -> (r: u128)
    requires
        principal(*old(inst)) + amount <= u128::MAX,
    ensures
        r == principal(*old(inst)) + amount,
        *final(inst) == (VaultInstance { total_principal: Some(r), ..*old(inst) }),
{
    let current: u128 = total_principal(inst);
    let updated: u128 = current + amount;
    inst.total_principal = Some(updated);
    updated
}

/// Takes `amount` off the total principal and returns the new total.
pub fn reduce_total_principal(inst: &mut VaultInstance, amount: &u128) -> (r: u128)
    requires
        *amount <= principal(*old(inst)),
    ensures
        r == principal(*old(inst)) - *amount,
        *final(inst) == (VaultInstance { total_principal: Some(r), ..*old(inst) }),
{
    let current: u128 = total_principal(inst);
    let updated: u128 = current - *amount;
    inst.total_principal = Some(updated);
    updated
}

/// The total principal held by the vault.
pub fn total_principal(inst: &VaultInstance) -> (r: u128)
    ensures
        r == principal(*inst),
{
    match inst.total_principal {
        Some(p) => p,
        None => 0,
    }
}

/// Law of the deposit identifiers: two deposits in a row get consecutive
/// identifiers, and the first deposit of a vault gets one.
pub proof fn law_deposit_ids_consecutive(inst: VaultInstance)
    requires
        next_id(inst) < u64::MAX,
    ensures
        next_id(VaultInstance { next_deposit_id: Some((next_id(inst) + 1) as u64), ..inst })
            == next_id(inst) + 1,
        inst.next_deposit_id is None ==> next_id(inst) == 1,
{
}

} // verus!
