//! The vault's bookkeeping taken as a whole: the total principal against the
//! records of all depositors.
use crate::address::Addr;
use crate::vault::contract::{withdraw_refusal, withdrawn};
use crate::vault::deposit::{deposit_fits, deposit_refusal, deposited};
use crate::vault::storage::config::VaultInstance;
use crate::vault::storage::deposit_state::{next_id, principal, record_amount, DepositRecord};
use vstd::prelude::*;

verus! {

/// The sum of the amounts of the records of the owners in `owners`.
pub open spec fn sum_records(owners: Set<Addr>, records: Map<Addr, DepositRecord>) -> int
    decreases owners.len(),
    when owners.finite()
{
    if owners.is_empty() {
        0
    } else {
        let a = owners.choose();
        records[a].amount + sum_records(owners.remove(a), records)
    }
}

/// The sum of the amounts of all depositors' records.
pub open spec fn records_total(records: Map<Addr, DepositRecord>) -> int {
    sum_records(records.dom(), records)
}

/// The total principal is the sum of all depositors' records.
pub open spec fn principal_matches_records(inst: VaultInstance, records: Map<Addr, DepositRecord>) -> bool {
    &&& records.dom().finite()
    &&& principal(inst) == records_total(records)
}

/// The records after `owner`'s entry is written as `slot` (removed when `None`).
pub open spec fn put_record(
    records: Map<Addr, DepositRecord>,
    owner: Addr,
    slot: Option<DepositRecord>,
) -> Map<Addr, DepositRecord> {
    match slot {
        Some(r) => records.insert(owner, r),
        None => records.remove(owner),
    }
}

proof fn lemma_sum_remove(owners: Set<Addr>, records: Map<Addr, DepositRecord>, x: Addr)
    requires
        owners.finite(),
        owners.contains(x),
    ensures
        sum_records(owners, records) == records[x].amount + sum_records(owners.remove(x), records),
    decreases owners.len(),
{
    let a = owners.choose();
    if a != x {
        lemma_sum_remove(owners.remove(a), records, x);
        lemma_sum_remove(owners.remove(x), records, a);
        assert(owners.remove(a).remove(x) =~= owners.remove(x).remove(a));
    }
}

proof fn lemma_sum_frame(owners: Set<Addr>, m1: Map<Addr, DepositRecord>, m2: Map<Addr, DepositRecord>)
    requires
        owners.finite(),
        forall|a: Addr| owners.contains(a) ==> m1[a].amount == m2[a].amount,
    ensures
        sum_records(owners, m1) == sum_records(owners, m2),
    decreases owners.len(),
{
    if !owners.is_empty() {
        let a = owners.choose();
        lemma_sum_frame(owners.remove(a), m1, m2);
    }
}

proof fn lemma_sum_nonneg(owners: Set<Addr>, records: Map<Addr, DepositRecord>)
    requires
        owners.finite(),
    ensures
        sum_records(owners, records) >= 0,
    decreases owners.len(),
{
    if !owners.is_empty() {
        lemma_sum_nonneg(owners.remove(owners.choose()), records);
    }
}

/// Writing `owner`'s entry changes the sum of all records by the change of
/// that entry's amount.
proof fn lemma_put_record_total(records: Map<Addr, DepositRecord>, owner: Addr, slot: Option<DepositRecord>)
    requires
        records.dom().finite(),
    ensures
        put_record(records, owner, slot).dom().finite(),
        records_total(put_record(records, owner, slot)) == records_total(records) - record_amount(
            records.get(owner),
        ) + record_amount(slot),
{
    let after = put_record(records, owner, slot);
    let dom = records.dom();
    let rest = dom.remove(owner);
    lemma_sum_frame(rest, records, after);
    if dom.contains(owner) {
        lemma_sum_remove(dom, records, owner);
    } else {
        assert(rest =~= dom);
    }
    match slot {
        Some(r) => {
            assert(after.dom() =~= rest.insert(owner));
            lemma_sum_remove(after.dom(), after, owner);
            assert(after.dom().remove(owner) =~= rest);
        },
        None => {
            assert(after.dom() =~= rest);
        },
    }
}

/// A depositor's record never exceeds the sum of all records.
proof fn lemma_record_within_total(records: Map<Addr, DepositRecord>, owner: Addr)
    requires
        records.dom().finite(),
    ensures
        record_amount(records.get(owner)) <= records_total(records),
{
    if records.dom().contains(owner) {
        lemma_sum_remove(records.dom(), records, owner);
        lemma_sum_nonneg(records.dom().remove(owner), records);
    } else {
        lemma_sum_nonneg(records.dom(), records);
    }
}

/// Law of the vault's bookkeeping: when the total principal is the sum of all
/// depositors' records, an accepted deposit keeps it so.
pub proof fn law_deposit_keeps_principal_equal_to_records(
    inst: VaultInstance,
    records: Map<Addr, DepositRecord>,
    from: Addr,
    amount: u128,
)
    requires
        principal_matches_records(inst, records),
        deposit_refusal(inst, amount) is None,
        deposit_fits(inst, records.get(from), amount),
    ensures
        principal_matches_records(
            VaultInstance {
                next_deposit_id: Some((next_id(inst) + 1) as u64),
                total_principal: Some((principal(inst) + amount) as u128),
                ..inst
            },
            put_record(records, from, deposited(records.get(from), from, amount)),
        ),
{
    lemma_put_record_total(records, from, deposited(records.get(from), from, amount));
}

/// Law of the vault's bookkeeping: when the total principal is the sum of all
/// depositors' records, an accepted withdrawal whose transfer went through
/// keeps it so, and taking the amount off the total never goes below zero.
pub proof fn law_withdraw_keeps_principal_equal_to_records(
    inst: VaultInstance,
    records: Map<Addr, DepositRecord>,
    from: Addr,
    amount: u128,
)
    requires
        principal_matches_records(inst, records),
        withdraw_refusal(inst, records.get(from), amount) is None,
    ensures
        amount <= principal(inst),
        principal_matches_records(
            VaultInstance { total_principal: Some((principal(inst) - amount) as u128), ..inst },
            put_record(records, from, withdrawn(records.get(from), from, amount)),
        ),
{
    lemma_record_within_total(records, from);
    lemma_put_record_total(records, from, withdrawn(records.get(from), from, amount));
}

} // verus!
