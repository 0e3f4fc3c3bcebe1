use crate::address::Addr;
use vstd::prelude::*;

verus! {

/// The keys of the vault's configuration entries.
#[derive(Clone, Copy, Debug, PartialEq, Eq, Structural)]
pub enum CoreStorageKeys {
    /// The admin address.
    Admin,
    /// The asset users deposit.
    DepositAsset,
    /// Whether deposits and withdrawals are paused.
    Paused,
}

/// The vault's instance storage: its configuration, the next deposit
/// identifier and the total principal.
#[derive(Clone, Copy, Debug, PartialEq, Eq)]
pub struct VaultInstance {
    pub admin: Option<Addr>,
    pub deposit_asset: Option<Addr>,
    pub paused: Option<bool>,
    pub next_deposit_id: Option<u64>,
    pub total_principal: Option<u128>,
}

impl VaultInstance {
    /// An instance storage with no entry.
    pub fn new() -> (r: VaultInstance)
        ensures
            r.admin is None,
            r.deposit_asset is None,
            r.paused is None,
            r.next_deposit_id is None,
            r.total_principal is None,
    {
        VaultInstance {
            admin: None,
            deposit_asset: None,
            paused: None,
            next_deposit_id: None,
            total_principal: None,
        }
    }
}

/// Whether the vault is paused: an absent flag reads as not paused.
pub open spec fn is_paused(inst: VaultInstance) -> bool {
    match inst.paused {
        Some(p) => p,
        None => false,
    }
}

/// Stores `value` as the admin when one is given, then reads the admin back.
pub fn admin(inst: &mut VaultInstance, value: Option<Addr>) -> (r: Option<Addr>)
    ensures
        *final(inst) == (VaultInstance {
            admin: match value {
                Some(v) => Some(v),
                None => old(inst).admin,
            },
            ..*old(inst)
        }),
        r == final(inst).admin,
{
    if let Some(v) = value {
        inst.admin = Some(v);
    }
    inst.admin
}

/// Stores `value` as the deposit asset when one is given, then reads it back.
pub fn deposit_asset(inst: &mut VaultInstance, value: Option<Addr>) -> (r: Option<Addr>)
    ensures
        *final(inst) == (VaultInstance {
            deposit_asset: match value {
                Some(v) => Some(v),
                None => old(inst).deposit_asset,
            },
            ..*old(inst)
        }),
        r == final(inst).deposit_asset,
{
    if let Some(v) = value {
        inst.deposit_asset = Some(v);
    }
    inst.deposit_asset
}

/// Stores `value` as the paused flag when one is given, then reads it back.
pub fn paused(inst: &mut VaultInstance, value: Option<bool>) -> (r: Option<bool>)
    ensures
        *final(inst) == (VaultInstance {
            paused: match value {
                Some(v) => Some(v),
                None => old(inst).paused,
            },
            ..*old(inst)
        }),
        r == final(inst).paused,
{
    if let Some(v) = value {
        inst.paused = Some(v);
    }
    inst.paused
}

} // verus!
