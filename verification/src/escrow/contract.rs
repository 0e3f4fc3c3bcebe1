//! The decisions of the escrow contract's entry points. The Soroban shell
//! reads the storage entries a call needs, has the admin or claimer
//! authorize, passes the entries and the token balances it reads to these
//! functions, performs the transfers they order, writes back the entries and
//! publishes the events. A call that ends in an error writes nothing.
use crate::address::Addr;
use crate::auth::Authorized;
use crate::escrow::errors::ContractErrors;
use crate::escrow::events::{AdminWithdrawEvent, RewardClaimedEvent, RewardRootUpdatedEvent};
use crate::escrow::rewards::{compute_leaf_hash, compute_root_from_proof, leaf_hash, merkle_root};
use crate::escrow::storage::{
    admin, claim_word_index, get_committed_rewards, is_claimed, reduce_committed_rewards,
    set_claimed, stored_amount, stored_word, word_marks, EscrowInstance, RewardEpoch,
};
use crate::token::{fits_token_amount, to_token_amount, TransferOrder};
use vstd::prelude::*;

verus! {

/// The escrow contract.
pub struct EscrowContract;

/// What a reward claim presents: the deposit, its reward, and the Merkle
/// proof of the leaf at `leaf_index`.
#[derive(Clone, Debug, PartialEq, Eq)]
pub struct ClaimParams {
    pub deposit_id: u64,
    pub amount: u128,
    pub leaf_index: u32,
    pub proof: Vec<[u8; 32]>,
}

/// One asset's part of the admin's withdrawal: the admin, who must authorize
/// the call, the transfer to make, and the event to publish when something
/// moves.
#[derive(Clone, Copy, Debug, PartialEq, Eq)]
pub struct AdminWithdrawal {
    pub authorizer: Addr,
    pub transfer: TransferOrder,
    pub event: Option<AdminWithdrawEvent>,
}

/// A reward root that passed its checks and waits for the balance check.
#[derive(Clone, Copy, Debug, PartialEq, Eq)]
pub struct RootProposal {
    pub vault: Addr,
    pub epoch: u32,
    pub epoch_data: RewardEpoch,
    pub required_balance: i128,
}

/// A claim whose proof checked out and which waits for the balance check.
#[derive(Clone, Copy, Debug, PartialEq, Eq)]
pub struct ClaimApproval {
    pub transfer: TransferOrder,
    pub event: RewardClaimedEvent,
}

/// A sweep that passed its checks and waits for the balance check.
#[derive(Clone, Copy, Debug, PartialEq, Eq)]
pub struct SweepProposal {
    pub transfer: TransferOrder,
    pub amount: u128,
}

/// The error a new reward root is refused with, if any, before the balance is read.
pub open spec fn root_refusal(
    latest: Option<u32>,
    existing: Option<RewardEpoch>,
    now: u64,
    epoch: u32,
    total_rewards: u128,
    program_end_ts: u64,
) -> Option<ContractErrors> {
    if now < program_end_ts {
        Some(ContractErrors::RewardEpochNotMatured)
    } else if (latest matches Some(l) && epoch <= l) || existing is Some {
        Some(ContractErrors::RewardEpochOutOfOrder)
    } else if !fits_token_amount(total_rewards) {
        Some(ContractErrors::RewardAmountTooLarge)
    } else {
        None
    }
}

/// The error a claim is refused with, if any, before the balance is read.
pub open spec fn claim_refusal(
    from: Addr,
    vault: Addr,
    epoch: u32,
    claim: ClaimParams,
    epoch_data: Option<RewardEpoch>,
    now: u64,
    claimed_word: Option<u64>,
) -> Option<ContractErrors> {
    match epoch_data {
        None => Some(ContractErrors::RewardEpochNotFound),
        Some(data) => if now < data.program_end_ts {
            Some(ContractErrors::RewardEpochNotMatured)
        } else if claim.amount == 0 {
            Some(ContractErrors::RewardInvalidProof)
        } else if claim.leaf_index >= data.leaf_count {
            Some(ContractErrors::RewardLeafIndexOutOfBounds)
        } else if word_marks(stored_word(claimed_word), claim.deposit_id) {
            Some(ContractErrors::RewardLeafAlreadyClaimed)
        } else if merkle_root(
            leaf_hash(vault, epoch, claim.deposit_id, from, claim.amount),
            claim.proof@,
            claim.leaf_index,
        ) != data.root@ {
            Some(ContractErrors::RewardInvalidProof)
        } else if !fits_token_amount(claim.amount) {
            Some(ContractErrors::RewardAmountTooLarge)
        } else {
            None
        },
    }
}

/// The error a sweep is refused with, if any, before the balance is read.
pub open spec fn sweep_refusal(
    latest: Option<u32>,
    epoch_data: Option<RewardEpoch>,
    committed: Option<u128>,
    epoch: u32,
    amount: u128,
) -> Option<ContractErrors> {
    if !(latest matches Some(l) && epoch <= l) {
        Some(ContractErrors::RewardEpochNotFound)
    } else if epoch_data is Some {
        Some(ContractErrors::RewardEpochNotExpired)
    } else if amount > stored_amount(committed) {
        Some(ContractErrors::SweepAmountExceedsCommittedRewards)
    } else if !fits_token_amount(amount) {
        Some(ContractErrors::RewardAmountTooLarge)
    } else {
        None
    }
}

/// Whether two hashes are the same bytes.
fn same_hash(a: &[u8; 32], b: &[u8; 32]) -> (r: bool)
    ensures
        r == (a@ == b@),
{
    let mut i: usize = 0;
    while i < 32
        invariant
            0 <= i <= 32,
            a@.len() == 32,
            b@.len() == 32,
            forall|k: int| 0 <= k < i ==> a@[k] == b@[k],
        decreases 32 - i,
    {
        if a[i] != b[i] {
            return false;
        }
        i += 1;
    }
    assert(a@ =~= b@);
    true
}

impl EscrowContract {
    /// Sets up a new escrow: stores its admin.
    pub fn __constructor(inst: &mut EscrowInstance, new_admin: Addr)
        ensures
            final(inst).admin == Some(new_admin),
    {
        admin(inst, Some(new_admin));
    }

    /// Upgrading the contract's code: returns the admin, who must authorize it.
    pub fn upgrade(inst: &mut EscrowInstance) -> (r: Addr)
        requires
            old(inst).admin is Some,
        ensures
            r == old(inst).admin.unwrap(),
            *final(inst) == *old(inst),
    {
        admin(inst, None).unwrap()
    }

    /// One asset of the admin's withdrawal: everything above `keep` in the
    /// escrow's `balance` of `asset` is transferred to the admin, a zero
    /// amount included (a negative amount, when `keep` is above the balance,
    /// is ordered too and the token refuses it); the escrow's event is
    /// published only when the amount is above zero. The admin must
    /// authorize the call.
    pub fn withdraw(
        inst: &mut EscrowInstance,
        contract: &Addr,
        asset: Addr,
        keep: u128,
        balance: i128,
    ) -> (r: AdminWithdrawal)
        requires
            old(inst).admin is Some,
            fits_token_amount(keep),
            balance - keep >= i128::MIN,
        ensures
            *final(inst) == *old(inst),
            r.authorizer == old(inst).admin.unwrap(),
            r.transfer == (TransferOrder {
                asset,
                from: *contract,
                to: old(inst).admin.unwrap(),
                amount: (balance - keep) as i128,
            }),
            r.event is None <==> balance <= keep,
            r.event matches Some(ev) ==> ev == (AdminWithdrawEvent {
                asset,
                admin: old(inst).admin.unwrap(),
                amount: (balance - keep) as u128,
            }),
    {
        let admin_addr = admin(inst, None).unwrap();
        let keep_i128 = keep as i128;
        let amount: i128 = balance - keep_i128;
        let transfer = TransferOrder { asset, from: *contract, to: admin_addr, amount };
        let event = if amount <= 0 {
            None
        } else {
            Some(AdminWithdrawEvent { asset, admin: admin_addr, amount: amount as u128 })
        };
        AdminWithdrawal { authorizer: admin_addr, transfer, event }
    }

    /// Checks a new rewards root for `(vault, epoch)` against the clock, the
    /// vault's latest epoch and the stored epochs. The admin authorizes the
    /// call before it; the escrow's balance of `asset` is checked after it.
    fn check_rewards_root(
        latest: Option<u32>,
        existing: &Option<RewardEpoch>,
        now: u64,
        asset: Addr,
        vault: Addr,
        epoch: u32,
        root: [u8; 32],
        total_rewards: u128,
        leaf_count: u32,
        program_end_ts: u64,
    ) -> (r: Result<RootProposal, ContractErrors>)
        ensures
            root_refusal(latest, *existing, now, epoch, total_rewards, program_end_ts) matches Some(
                err,
            ) ==> r == Err::<RootProposal, ContractErrors>(err),
            root_refusal(latest, *existing, now, epoch, total_rewards, program_end_ts) is None ==> r
                == Ok::<RootProposal, ContractErrors>(
                RootProposal {
                    vault,
                    epoch,
                    epoch_data: RewardEpoch {
                        root,
                        asset,
                        total_rewards,
                        leaf_count,
                        program_end_ts,
                    },
                    required_balance: total_rewards as i128,
                },
            ),
    {
        if now < program_end_ts {
            return Err(ContractErrors::RewardEpochNotMatured);
        }
        if let Some(l) = latest {
            if epoch <= l {
                return Err(ContractErrors::RewardEpochOutOfOrder);
            }
        }
        if existing.is_some() {
            return Err(ContractErrors::RewardEpochOutOfOrder);
        }
        let amount_i128 = match to_token_amount(total_rewards) {
            Some(v) => v,
            None => {
                return Err(ContractErrors::RewardAmountTooLarge);
            },
        };
        Ok(
            RootProposal {
                vault,
                epoch,
                epoch_data: RewardEpoch { root, asset, total_rewards, leaf_count, program_end_ts },
                required_balance: amount_i128,
            },
        )
    }

    /// A new rewards root for `(vault, epoch)`: the admin must authorize it,
    /// then it is checked against the clock, the vault's latest epoch and the
    /// stored epochs (`root_refusal`); the balance is checked after it.
    pub fn set_rewards_root(
        inst: &mut EscrowInstance,
        latest: Option<u32>,
        existing: &Option<RewardEpoch>,
        now: u64,
        asset: Addr,
        vault: Addr,
        epoch: u32,
        root: [u8; 32],
        total_rewards: u128,
        leaf_count: u32,
        program_end_ts: u64,
    ) -> (r: Authorized<Result<RootProposal, ContractErrors>>)
        requires
            old(inst).admin is Some,
        ensures
            r.authorizer == Some(old(inst).admin.unwrap()),
            *final(inst) == *old(inst),
            root_refusal(latest, *existing, now, epoch, total_rewards, program_end_ts) matches Some(
                err,
            ) ==> r.outcome == Err::<RootProposal, ContractErrors>(err),
            root_refusal(latest, *existing, now, epoch, total_rewards, program_end_ts) is None
                ==> r.outcome == Ok::<RootProposal, ContractErrors>(
                RootProposal {
                    vault,
                    epoch,
                    epoch_data: RewardEpoch {
                        root,
                        asset,
                        total_rewards,
                        leaf_count,
                        program_end_ts,
                    },
                    required_balance: total_rewards as i128,
                },
            ),
    {
        let admin_addr = admin(inst, None).unwrap();
        Authorized {
            authorizer: Some(admin_addr),
            outcome: Self::check_rewards_root(
                latest,
                existing,
                now,
                asset,
                vault,
                epoch,
                root,
                total_rewards,
                leaf_count,
                program_end_ts,
            ),
        }
    }

    /// Stores a checked rewards root once the escrow's `balance` of the asset
    /// covers the epoch's total rewards: the epoch's entry and the vault's
    /// latest epoch are written.
    pub fn commit_rewards_root(
        proposal: &RootProposal,
        balance: i128,
        latest: &mut Option<u32>,
        slot: &mut Option<RewardEpoch>,
    ) -> (r: Result<RewardRootUpdatedEvent, ContractErrors>)
        ensures
            balance < proposal.required_balance ==> r == Err::<
                RewardRootUpdatedEvent,
                ContractErrors,
            >(ContractErrors::InsufficientEscrowBalance) && *final(latest) == *old(latest)
                && *final(slot) == *old(slot),
            balance >= proposal.required_balance ==> {
                &&& *final(slot) == Some(proposal.epoch_data)
                &&& *final(latest) == Some(proposal.epoch)
                &&& r == Ok::<RewardRootUpdatedEvent, ContractErrors>(
                    RewardRootUpdatedEvent {
                        epoch: proposal.epoch,
                        vault: proposal.vault,
                        root: proposal.epoch_data.root,
                        asset: proposal.epoch_data.asset,
                        total_rewards: proposal.epoch_data.total_rewards,
                        leaf_count: proposal.epoch_data.leaf_count,
                        program_end_ts: proposal.epoch_data.program_end_ts,
                    },
                )
            },
    {
        if balance < proposal.required_balance {
            return Err(ContractErrors::InsufficientEscrowBalance);
        }
        *slot = Some(proposal.epoch_data);
        *latest = Some(proposal.epoch);
        Ok(
            RewardRootUpdatedEvent {
                epoch: proposal.epoch,
                vault: proposal.vault,
                root: proposal.epoch_data.root,
                asset: proposal.epoch_data.asset,
                total_rewards: proposal.epoch_data.total_rewards,
                leaf_count: proposal.epoch_data.leaf_count,
                program_end_ts: proposal.epoch_data.program_end_ts,
            },
        )
    }

    /// Checks `from`'s claim of a deposit's reward in `(vault, epoch)`:
    /// the epoch exists and has matured, the reward is not zero, the leaf is
    /// in the tree, the deposit was not claimed (`claimed_word` is its stored
    /// claim word), and the proof leads from the claim's leaf to the epoch's
    /// root. `from` authorizes the call before it; the escrow's balance is
    /// checked after it.
    fn check_claim(
        e: &soroban_sdk::Env,
        contract: &Addr,
        from: Addr,
        vault: Addr,
        epoch: u32,
        claim: &ClaimParams,
        epoch_data: &Option<RewardEpoch>,
        now: u64,
        claimed_word: &Option<u64>,
    ) -> (r: Result<ClaimApproval, ContractErrors>)
        ensures
            claim_refusal(from, vault, epoch, *claim, *epoch_data, now, *claimed_word) matches Some(
                err,
            ) ==> r == Err::<ClaimApproval, ContractErrors>(err),
            claim_refusal(from, vault, epoch, *claim, *epoch_data, now, *claimed_word) is None ==> r
                == Ok::<ClaimApproval, ContractErrors>(
                ClaimApproval {
                    transfer: TransferOrder {
                        asset: epoch_data.unwrap().asset,
                        from: *contract,
                        to: from,
                        amount: claim.amount as i128,
                    },
                    event: RewardClaimedEvent {
                        epoch,
                        vault,
                        deposit_id: claim.deposit_id,
                        owner: from,
                        asset: epoch_data.unwrap().asset,
                        amount: claim.amount,
                    },
                },
            ),
    {
        let data = match epoch_data {
            Some(d) => *d,
            None => {
                return Err(ContractErrors::RewardEpochNotFound);
            },
        };
        if now < data.program_end_ts {
            return Err(ContractErrors::RewardEpochNotMatured);
        }
        let asset = data.asset;
        if claim.amount == 0 {
            return Err(ContractErrors::RewardInvalidProof);
        }
        if claim.leaf_index >= data.leaf_count {
            return Err(ContractErrors::RewardLeafIndexOutOfBounds);
        }
        if is_claimed(claimed_word, claim.deposit_id) {
            return Err(ContractErrors::RewardLeafAlreadyClaimed);
        }
        let leaf = compute_leaf_hash(e, &vault, epoch, claim.deposit_id, &from, claim.amount);
        let computed_root = compute_root_from_proof(e, &leaf, &claim.proof, claim.leaf_index);
        if !same_hash(&computed_root, &data.root) {
            return Err(ContractErrors::RewardInvalidProof);
        }
        let amount_i128 = match to_token_amount(claim.amount) {
            Some(v) => v,
            None => {
                return Err(ContractErrors::RewardAmountTooLarge);
            },
        };
        Ok(
            ClaimApproval {
                transfer: TransferOrder { asset, from: *contract, to: from, amount: amount_i128 },
                event: RewardClaimedEvent {
                    epoch,
                    vault,
                    deposit_id: claim.deposit_id,
                    owner: from,
                    asset,
                    amount: claim.amount,
                },
            },
        )
    }

    /// A claim by `from`: `from` must authorize it, then it is checked
    /// (`claim_refusal`): the epoch exists and has matured, the reward is not
    /// zero, the leaf is in the tree, the deposit was not claimed, and the
    /// proof leads to the epoch's root; the balance is checked after it.
    pub fn claim(
        e: &soroban_sdk::Env,
        contract: &Addr,
        from: Addr,
        vault: Addr,
        epoch: u32,
        claim: &ClaimParams,
        epoch_data: &Option<RewardEpoch>,
        now: u64,
        claimed_word: &Option<u64>,
    ) -> (r: Authorized<Result<ClaimApproval, ContractErrors>>)
        ensures
            r.authorizer == Some(from),
            claim_refusal(from, vault, epoch, *claim, *epoch_data, now, *claimed_word) matches Some(
                err,
            ) ==> r.outcome == Err::<ClaimApproval, ContractErrors>(err),
            claim_refusal(from, vault, epoch, *claim, *epoch_data, now, *claimed_word) is None
                ==> r.outcome == Ok::<ClaimApproval, ContractErrors>(
                ClaimApproval {
                    transfer: TransferOrder {
                        asset: epoch_data.unwrap().asset,
                        from: *contract,
                        to: from,
                        amount: claim.amount as i128,
                    },
                    event: RewardClaimedEvent {
                        epoch,
                        vault,
                        deposit_id: claim.deposit_id,
                        owner: from,
                        asset: epoch_data.unwrap().asset,
                        amount: claim.amount,
                    },
                },
            ),
    {
        Authorized {
            authorizer: Some(from),
            outcome: Self::check_claim(
                e,
                contract,
                from,
                vault,
                epoch,
                claim,
                epoch_data,
                now,
                claimed_word,
            ),
        }
    }

    /// Pays an approved claim once the escrow's `balance` of the asset covers
    /// it: the deposit is marked as claimed in its claim word.
    pub fn settle_claim(approval: &ClaimApproval, balance: i128, claimed_word: &mut Option<u64>) -> (r:
        Result<RewardClaimedEvent, ContractErrors>)
        ensures
            balance < approval.transfer.amount ==> r == Err::<RewardClaimedEvent, ContractErrors>(
                ContractErrors::InsufficientEscrowBalance,
            ) && *final(claimed_word) == *old(claimed_word),
            balance >= approval.transfer.amount ==> {
                &&& r == Ok::<RewardClaimedEvent, ContractErrors>(approval.event)
                &&& *final(claimed_word) == Some(
                    stored_word(*old(claimed_word)) | crate::escrow::storage::claim_mask(
                        approval.event.deposit_id,
                    ),
                )
                &&& word_marks(stored_word(*final(claimed_word)), approval.event.deposit_id)
                &&& forall|other: u64|
                    claim_word_index(other) == claim_word_index(approval.event.deposit_id) ==> (
                    word_marks(#[trigger] stored_word(*final(claimed_word)), other) == (other
                        == approval.event.deposit_id || word_marks(
                        stored_word(*old(claimed_word)),
                        other,
                    )))
            },
    {
        if balance < approval.transfer.amount {
            return Err(ContractErrors::InsufficientEscrowBalance);
        }
        set_claimed(claimed_word, approval.event.deposit_id);
        Ok(approval.event)
    }

    /// Checks a sweep of `amount` of `asset` left over from an expired epoch
    /// of `vault`: the epoch was set (it is not after the vault's latest
    /// epoch) and its entry has expired from storage, and `amount` is within
    /// the rewards committed in `asset`. The admin authorizes the call before
    /// it; the escrow's balance is checked after it.
    fn check_sweep(
        inst: &mut EscrowInstance,
        contract: &Addr,
        latest: Option<u32>,
        epoch_data: &Option<RewardEpoch>,
        committed: &Option<u128>,
        asset: Addr,
        epoch: u32,
        amount: u128,
    ) -> (r: Result<SweepProposal, ContractErrors>)
        requires
            old(inst).admin is Some,
        ensures
            *final(inst) == *old(inst),
            sweep_refusal(latest, *epoch_data, *committed, epoch, amount) matches Some(err) ==> r
                == Err::<SweepProposal, ContractErrors>(err),
            sweep_refusal(latest, *epoch_data, *committed, epoch, amount) is None ==> r == Ok::<
                SweepProposal,
                ContractErrors,
            >(
                SweepProposal {
                    transfer: TransferOrder {
                        asset,
                        from: *contract,
                        to: old(inst).admin.unwrap(),
                        amount: amount as i128,
                    },
                    amount,
                },
            ),
    {
        let admin_addr = admin(inst, None).unwrap();
        match latest {
            Some(l) => {
                if epoch > l {
                    return Err(ContractErrors::RewardEpochNotFound);
                }
            },
            None => {
                return Err(ContractErrors::RewardEpochNotFound);
            },
        }
        if epoch_data.is_some() {
            return Err(ContractErrors::RewardEpochNotExpired);
        }
        if amount > get_committed_rewards(committed) {
            return Err(ContractErrors::SweepAmountExceedsCommittedRewards);
        }
        let amount_i128 = match to_token_amount(amount) {
            Some(v) => v,
            None => {
                return Err(ContractErrors::RewardAmountTooLarge);
            },
        };
        Ok(
            SweepProposal {
                transfer: TransferOrder { asset, from: *contract, to: admin_addr, amount: amount_i128 },
                amount,
            },
        )
    }

    /// A sweep of an expired epoch's leftover: the admin must authorize it,
    /// then it is checked (`sweep_refusal`); the balance is checked after it.
    pub fn sweep_expired_epoch(
        inst: &mut EscrowInstance,
        contract: &Addr,
        latest: Option<u32>,
        epoch_data: &Option<RewardEpoch>,
        committed: &Option<u128>,
        asset: Addr,
        epoch: u32,
        amount: u128,
    ) -> (r: Authorized<Result<SweepProposal, ContractErrors>>)
        requires
            old(inst).admin is Some,
        ensures
            r.authorizer == Some(old(inst).admin.unwrap()),
            *final(inst) == *old(inst),
            sweep_refusal(latest, *epoch_data, *committed, epoch, amount) matches Some(err) ==> r.outcome
                == Err::<SweepProposal, ContractErrors>(err),
            sweep_refusal(latest, *epoch_data, *committed, epoch, amount) is None ==> r.outcome == Ok::<
                SweepProposal,
                ContractErrors,
            >(
                SweepProposal {
                    transfer: TransferOrder {
                        asset,
                        from: *contract,
                        to: old(inst).admin.unwrap(),
                        amount: amount as i128,
                    },
                    amount,
                },
            ),
    {
        let admin_addr = inst.admin.unwrap();
        Authorized {
            authorizer: Some(admin_addr),
            outcome: Self::check_sweep(
                inst,
                contract,
                latest,
                epoch_data,
                committed,
                asset,
                epoch,
                amount,
            ),
        }
    }

    /// Carries out a checked sweep once the escrow's `balance` covers it: the
    /// swept amount comes off the rewards committed in the asset.
    pub fn settle_sweep(proposal: &SweepProposal, balance: i128, committed: &mut Option<u128>) -> (r:
        Result<TransferOrder, ContractErrors>)
        ensures
            balance < proposal.transfer.amount ==> r == Err::<TransferOrder, ContractErrors>(
                ContractErrors::InsufficientEscrowBalance,
            ) && *final(committed) == *old(committed),
            balance >= proposal.transfer.amount ==> r == Ok::<TransferOrder, ContractErrors>(
                proposal.transfer,
            ) && *final(committed) == Some(
                if proposal.amount >= stored_amount(*old(committed)) {
                    0u128
                } else {
                    (stored_amount(*old(committed)) - proposal.amount) as u128
                },
            ),
    {
        if balance < proposal.transfer.amount {
            return Err(ContractErrors::InsufficientEscrowBalance);
        }
        reduce_committed_rewards(committed, proposal.amount);
        Ok(proposal.transfer)
    }
}

/// Law of the reward epochs: once a vault's root for `epoch` is stored (its
/// latest epoch is `epoch`), a matured root for that epoch or an earlier one
/// is refused as out of order, and so is any root for an epoch that has an
/// entry: each epoch is set once, in increasing order.
pub proof fn law_roots_in_increasing_order(
    stored_epoch: u32,
    existing: Option<RewardEpoch>,
    now: u64,
    epoch: u32,
    total_rewards: u128,
    program_end_ts: u64,
)
    requires
        now >= program_end_ts,
        epoch <= stored_epoch || existing is Some,
    ensures
        root_refusal(Some(stored_epoch), existing, now, epoch, total_rewards, program_end_ts)
            == Some(ContractErrors::RewardEpochOutOfOrder),
{
}

/// Law of the claims: once a claim is paid (its deposit marked in its claim
/// word), the same deposit cannot be claimed again in that epoch, whatever
/// proof is presented.
pub proof fn law_claim_paid_once(
    from: Addr,
    vault: Addr,
    epoch: u32,
    claim: ClaimParams,
    epoch_data: Option<RewardEpoch>,
    now: u64,
    word_before: Option<u64>,
)
    ensures
        claim_refusal(
            from,
            vault,
            epoch,
            claim,
            epoch_data,
            now,
            Some(stored_word(word_before) | crate::escrow::storage::claim_mask(claim.deposit_id)),
        ) is Some,
{
    crate::escrow::storage::lemma_set_flag_in_word(
        stored_word(word_before),
        claim.deposit_id,
        claim.deposit_id,
    );
}

/// Law of the claims: a claim that passes its checks presents a proof that
/// leads from the hash of its own leaf `(vault, epoch, deposit, claimer,
/// amount)` to the epoch's stored root, for a non-zero reward of a leaf
/// inside the tree, of a matured epoch, not yet claimed.
pub proof fn law_accepted_claim_is_proved(
    from: Addr,
    vault: Addr,
    epoch: u32,
    claim: ClaimParams,
    epoch_data: Option<RewardEpoch>,
    now: u64,
    claimed_word: Option<u64>,
)
    requires
        claim_refusal(from, vault, epoch, claim, epoch_data, now, claimed_word) is None,
    ensures
        epoch_data matches Some(data) && {
            &&& merkle_root(
                leaf_hash(vault, epoch, claim.deposit_id, from, claim.amount),
                claim.proof@,
                claim.leaf_index,
            ) == data.root@
            &&& claim.amount > 0
            &&& claim.leaf_index < data.leaf_count
            &&& now >= data.program_end_ts
            &&& !word_marks(stored_word(claimed_word), claim.deposit_id)
        },
{
}

/// Law of the reward roots: a root whose program has not ended is refused
/// as not matured, whatever the vault's latest epoch and stored entries; a
/// matured root is accepted exactly when its epoch is after the vault's
/// latest one (any later epoch, not only the next), no entry is stored for
/// it, and its total fits a token amount; a matured root for an epoch not
/// after the latest, or one already stored, is refused as out of order.
pub proof fn law_root_acceptance(
    latest: Option<u32>,
    existing: Option<RewardEpoch>,
    now: u64,
    epoch: u32,
    total_rewards: u128,
    program_end_ts: u64,
)
    ensures
        now < program_end_ts ==> root_refusal(latest, existing, now, epoch, total_rewards, program_end_ts)
            == Some(ContractErrors::RewardEpochNotMatured),
        root_refusal(latest, existing, now, epoch, total_rewards, program_end_ts) is None <==> {
            &&& now >= program_end_ts
            &&& match latest {
                Some(l) => epoch > l,
                None => true,
            }
            &&& existing is None
            &&& total_rewards <= i128::MAX as u128
        },
        now >= program_end_ts && (existing is Some || match latest {
            Some(l) => epoch <= l,
            None => false,
        }) ==> root_refusal(latest, existing, now, epoch, total_rewards, program_end_ts) == Some(
            ContractErrors::RewardEpochOutOfOrder,
        ),
{
}

/// Law of the sweeps: a sweep is accepted exactly when its epoch is not
/// after the vault's latest epoch, the epoch's entry has expired, the amount
/// is within the rewards committed in the asset (any such amount, not only
/// all of them), and it fits a token amount; for such an expired epoch an
/// amount above the committed rewards is refused as exceeding them.
pub proof fn law_sweep_acceptance(
    latest: Option<u32>,
    epoch_data: Option<RewardEpoch>,
    committed: Option<u128>,
    epoch: u32,
    amount: u128,
)
    ensures
        sweep_refusal(latest, epoch_data, committed, epoch, amount) is None <==> {
            &&& match latest {
                Some(l) => epoch <= l,
                None => false,
            }
            &&& epoch_data is None
            &&& amount <= match committed {
                Some(c) => c,
                None => 0,
            }
            &&& amount <= i128::MAX as u128
        },
        (match latest {
            Some(l) => epoch <= l,
            None => false,
        }) && epoch_data is None && amount > (match committed {
            Some(c) => c,
            None => 0u128,
        }) ==> sweep_refusal(latest, epoch_data, committed, epoch, amount) == Some(
            ContractErrors::SweepAmountExceedsCommittedRewards,
        ),
        !(match latest {
            Some(l) => epoch <= l,
            None => false,
        }) ==> sweep_refusal(latest, epoch_data, committed, epoch, amount) == Some(
            ContractErrors::RewardEpochNotFound,
        ),
{
}

/// Law of the claims: a claim is accepted exactly when the epoch is stored
/// and has matured, the reward is not zero, the leaf is inside the tree,
/// the deposit's flag is not set in its claim word, the proof climbs from
/// the claim's own leaf to the stored root, and the reward fits a token
/// amount.
pub proof fn law_claim_acceptance(
    from: Addr,
    vault: Addr,
    epoch: u32,
    claim: ClaimParams,
    epoch_data: Option<RewardEpoch>,
    now: u64,
    claimed_word: Option<u64>,
)
    ensures
        claim_refusal(from, vault, epoch, claim, epoch_data, now, claimed_word) is None <==> {
            &&& epoch_data is Some
            &&& now >= epoch_data.unwrap().program_end_ts
            &&& claim.amount > 0
            &&& claim.leaf_index < epoch_data.unwrap().leaf_count
            &&& (match claimed_word {
                Some(w) => w,
                None => 0u64,
            }) & (1u64 << (claim.deposit_id % 64)) == 0
            &&& merkle_root(
                leaf_hash(vault, epoch, claim.deposit_id, from, claim.amount),
                claim.proof@,
                claim.leaf_index,
            ) == epoch_data.unwrap().root@
            &&& claim.amount <= i128::MAX as u128
        },
{
}

} // verus!
