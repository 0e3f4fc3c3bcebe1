use sentora::address::Addr;
use sentora::constants::SCALAR_7;
use sentora::escrow::contract::{ClaimParams, EscrowContract};
use sentora::escrow::errors::ContractErrors;
use sentora::escrow::events::{AdminWithdrawEvent, RewardClaimedEvent, RewardRootUpdatedEvent};
use sentora::escrow::rewards::{compute_leaf_hash, compute_root_from_proof};
use sentora::escrow::storage::{
    add_committed_rewards, allowance, claim_position, get_committed_rewards, is_claimed,
    reduce_committed_rewards, set_claimed, Allowance, EscrowInstance, RewardEpoch,
};
use sentora::token::TransferOrder;
use soroban_sdk::address_payload::AddressPayload;
use soroban_sdk::xdr::ToXdr;
use soroban_sdk::{Bytes, BytesN, Env};
use std::collections::HashMap;

#[derive(Default)]
struct Tokens {
    balances: HashMap<(Addr, Addr), i128>,
}

impl Tokens {
    fn mint(&mut self, asset: Addr, to: Addr, amount: i128) {
        *self.balances.entry((asset, to)).or_insert(0) += amount;
    }

    fn balance(&self, asset: Addr, who: Addr) -> i128 {
        *self.balances.get(&(asset, who)).unwrap_or(&0)
    }

    fn transfer(&mut self, t: &TransferOrder) {
        assert!(t.amount >= 0 && self.balance(t.asset, t.from) >= t.amount);
        self.mint(t.asset, t.from, -t.amount);
        self.mint(t.asset, t.to, t.amount);
    }
}

struct TestData {
    contract: Addr,
    admin: Addr,
    vault_a: Addr,
    token_a: Addr,
    token_b: Addr,
    inst: EscrowInstance,
    latest: HashMap<Addr, u32>,
    epochs: HashMap<(Addr, u32), RewardEpoch>,
    claimed: HashMap<(Addr, u32, u64), u64>,
    committed: HashMap<Addr, u128>,
    tokens: Tokens,
    now: u64,
    root_events: Vec<RewardRootUpdatedEvent>,
    claim_events: Vec<RewardClaimedEvent>,
    withdraw_events: Vec<AdminWithdrawEvent>,
    transfers: Vec<TransferOrder>,
    authorizers: Vec<Option<Addr>>,
}

fn addr(n: u8) -> Addr {
    Addr::contract([n; 32])
}

fn create_test_data() -> TestData {
    let mut inst = EscrowInstance::new();
    let admin = Addr::account([1; 32]);
    EscrowContract::__constructor(&mut inst, admin);
    TestData {
        contract: addr(2),
        admin,
        vault_a: addr(3),
        token_a: addr(4),
        token_b: addr(5),
        inst,
        latest: HashMap::new(),
        epochs: HashMap::new(),
        claimed: HashMap::new(),
        committed: HashMap::new(),
        tokens: Tokens::default(),
        now: 0,
        root_events: Vec::new(),
        claim_events: Vec::new(),
        withdraw_events: Vec::new(),
        transfers: Vec::new(),
        authorizers: Vec::new(),
    }
}

impl TestData {
    fn seed_escrow(&mut self, amount: u128) {
        self.tokens.mint(self.token_a, self.contract, amount as i128);
    }

    fn set_rewards_root(
        &mut self,
        asset: Addr,
        vault: Addr,
        epoch: u32,
        root: [u8; 32],
        total_rewards: u128,
        leaf_count: u32,
        program_end_ts: u64,
    ) -> Result<(), ContractErrors> {
        let latest = self.latest.get(&vault).copied();
        let existing = self.epochs.get(&(vault, epoch)).copied();
        let call = EscrowContract::set_rewards_root(
            &mut self.inst, latest, &existing, self.now, asset, vault, epoch, root, total_rewards, leaf_count,
            program_end_ts,
        );
        self.authorizers.push(call.authorizer);
        let proposal = call.outcome?;
        let balance = self.tokens.balance(asset, self.contract);
        let mut latest = latest;
        let mut slot = existing;
        let event = EscrowContract::commit_rewards_root(&proposal, balance, &mut latest, &mut slot)?;
        self.latest.insert(vault, latest.unwrap());
        self.epochs.insert((vault, epoch), slot.unwrap());
        self.root_events.push(event);
        Ok(())
    }

    fn claim(&mut self, e: &Env, from: Addr, vault: Addr, epoch: u32, claim: &ClaimParams) -> Result<(), ContractErrors> {
        let epoch_data = self.epochs.get(&(vault, epoch)).copied();
        let (word_index, _) = claim_position(claim.deposit_id);
        let mut word = self.claimed.get(&(vault, epoch, word_index)).copied();
        let call = EscrowContract::claim(e, &self.contract, from, vault, epoch, claim, &epoch_data, self.now, &word);
        self.authorizers.push(call.authorizer);
        let approval = call.outcome?;
        let balance = self.tokens.balance(approval.transfer.asset, self.contract);
        let event = EscrowContract::settle_claim(&approval, balance, &mut word)?;
        self.tokens.transfer(&approval.transfer);
        self.claimed.insert((vault, epoch, word_index), word.unwrap());
        self.claim_events.push(event);
        Ok(())
    }

    fn is_claimed(&self, vault: Addr, epoch: u32, deposit_id: u64) -> bool {
        let (word_index, _) = claim_position(deposit_id);
        is_claimed(&self.claimed.get(&(vault, epoch, word_index)).copied(), deposit_id)
    }

    fn withdraw(&mut self, actions: &[(Addr, u128)]) {
        for (asset, keep) in actions {
            let balance = self.tokens.balance(*asset, self.contract);
            let w = EscrowContract::withdraw(&mut self.inst, &self.contract, *asset, *keep, balance);
            self.authorizers.push(Some(w.authorizer));
            self.tokens.transfer(&w.transfer);
            self.transfers.push(w.transfer);
            if let Some(event) = w.event {
                self.withdraw_events.push(event);
            }
        }
    }

    fn sweep_expired_epoch(&mut self, asset: Addr, vault: Addr, epoch: u32, amount: u128) -> Result<(), ContractErrors> {
        let latest = self.latest.get(&vault).copied();
        let epoch_data = self.epochs.get(&(vault, epoch)).copied();
        let mut committed = self.committed.get(&asset).copied();
        let call = EscrowContract::sweep_expired_epoch(
            &mut self.inst, &self.contract, latest, &epoch_data, &committed, asset, epoch, amount,
        );
        self.authorizers.push(call.authorizer);
        let proposal = call.outcome?;
        let balance = self.tokens.balance(asset, self.contract);
        let transfer = EscrowContract::settle_sweep(&proposal, balance, &mut committed)?;
        self.tokens.transfer(&transfer);
        self.committed.insert(asset, committed.unwrap());
        Ok(())
    }
}

#[test]
fn test_set_root_and_claim_rewards_success() {
    let e = Env::default();
    let mut test_data = create_test_data();

    let user = Addr::account([10; 32]);
    let vault = test_data.vault_a;
    let deposit_id: u64 = 1;
    let epoch: u32 = 1;
    let reward_amount: u128 = 50 * SCALAR_7;
    let root = compute_leaf_hash(&e, &vault, epoch, deposit_id, &user, reward_amount);
    let proof: Vec<[u8; 32]> = Vec::new();
    let program_end_ts = test_data.now;

    test_data.seed_escrow(reward_amount);

    let token_a = test_data.token_a;
    test_data
        .set_rewards_root(token_a, vault, epoch, root, reward_amount, 1, program_end_ts)
        .unwrap();

    let stored = *test_data.epochs.get(&(vault, epoch)).expect("epoch stored");
    assert_eq!(stored.root, root);
    assert_eq!(stored.asset, test_data.token_a);
    assert_eq!(stored.total_rewards, reward_amount);
    assert_eq!(stored.leaf_count, 1);
    assert_eq!(test_data.authorizers.last(), Some(&Some(test_data.admin)));

    assert_eq!(test_data.tokens.balance(test_data.token_a, user), 0);

    let claim = ClaimParams { deposit_id, amount: reward_amount, leaf_index: 0, proof: proof.clone() };
    test_data.claim(&e, user, vault, epoch, &claim).unwrap();
    assert_eq!(test_data.authorizers.last(), Some(&Some(user)));

    assert_eq!(test_data.tokens.balance(test_data.token_a, user), reward_amount as i128);
    assert!(test_data.is_claimed(vault, epoch, deposit_id));

    let duplicate_claim = ClaimParams { deposit_id, amount: reward_amount, leaf_index: 0, proof: proof.clone() };
    let second = test_data.claim(&e, user, vault, epoch, &duplicate_claim);
    assert_eq!(second.unwrap_err(), ContractErrors::RewardLeafAlreadyClaimed);
}

#[test]
fn test_set_rewards_root_requires_mature_program() {
    let e = Env::default();
    let mut test_data = create_test_data();

    let user = Addr::account([11; 32]);
    let deposit_id: u64 = 2;
    let epoch: u32 = 2;
    let reward_amount: u128 = 10 * SCALAR_7;
    let vault = test_data.vault_a;
    let root = compute_leaf_hash(&e, &vault, epoch, deposit_id, &user, reward_amount);
    let proof: Vec<[u8; 32]> = Vec::new();

    test_data.seed_escrow(reward_amount);

    let future_program_end = test_data.now + 10;
    let token_a = test_data.token_a;
    let result = test_data.set_rewards_root(token_a, vault, epoch, root, reward_amount, 1, future_program_end);
    assert_eq!(result.unwrap_err(), ContractErrors::RewardEpochNotMatured);

    assert!(test_data.epochs.get(&(vault, epoch)).is_none());

    let claim_attempt = ClaimParams { deposit_id, amount: reward_amount, leaf_index: 0, proof: proof.clone() };
    let claim_err = test_data.claim(&e, user, vault, epoch, &claim_attempt);
    assert_eq!(claim_err.unwrap_err(), ContractErrors::RewardEpochNotFound);
}

#[test]
fn test_claim_with_invalid_amount_rejected() {
    let e = Env::default();
    let mut test_data = create_test_data();

    let user = Addr::account([12; 32]);
    let deposit_id: u64 = 3;
    let epoch: u32 = 3;
    let reward_amount: u128 = 25 * SCALAR_7;
    let vault = test_data.vault_a;
    let root = compute_leaf_hash(&e, &vault, epoch, deposit_id, &user, reward_amount);
    let proof: Vec<[u8; 32]> = Vec::new();
    let program_end_ts = test_data.now;

    test_data.seed_escrow(reward_amount);
    let token_a = test_data.token_a;
    test_data
        .set_rewards_root(token_a, vault, epoch, root, reward_amount, 1, program_end_ts)
        .unwrap();

    let wrong_amount = reward_amount + SCALAR_7;
    let wrong_claim = ClaimParams { deposit_id, amount: wrong_amount, leaf_index: 0, proof: proof.clone() };
    let err = test_data.claim(&e, user, vault, epoch, &wrong_claim);

    assert_eq!(err.unwrap_err(), ContractErrors::RewardInvalidProof);
    assert_eq!(test_data.tokens.balance(test_data.token_a, user), 0);
}

#[test]
fn test_sweep_expired_epoch_fails_when_amount_exceeds_committed_rewards() {
    let mut test_data = create_test_data();
    let vault = test_data.vault_a;
    let epoch: u32 = 1;
    let committed: u128 = 100 * SCALAR_7;
    let sweep_amount: u128 = committed + 1;

    test_data.seed_escrow(committed * 2);

    test_data.latest.insert(vault, epoch);
    let mut entry = None;
    add_committed_rewards(&mut entry, committed);
    test_data.committed.insert(test_data.token_a, entry.unwrap());

    let token_a = test_data.token_a;
    let result = test_data.sweep_expired_epoch(token_a, vault, epoch, sweep_amount);
    assert_eq!(result.unwrap_err(), ContractErrors::SweepAmountExceedsCommittedRewards);
    assert_eq!(test_data.tokens.balance(test_data.token_a, test_data.admin), 0);
}

#[test]
fn test_sweep_expired_epoch_succeeds_when_amount_within_committed_rewards() {
    let mut test_data = create_test_data();
    let vault = test_data.vault_a;
    let epoch: u32 = 1;
    let committed: u128 = 100 * SCALAR_7;
    let sweep_amount: u128 = committed;

    test_data.seed_escrow(committed);

    test_data.latest.insert(vault, epoch);
    let mut entry = None;
    add_committed_rewards(&mut entry, committed);
    test_data.committed.insert(test_data.token_a, entry.unwrap());

    let token_a = test_data.token_a;
    test_data.sweep_expired_epoch(token_a, vault, epoch, sweep_amount).unwrap();
    assert_eq!(test_data.authorizers.last(), Some(&Some(test_data.admin)));

    assert_eq!(test_data.tokens.balance(test_data.token_a, test_data.contract), 0);
    assert_eq!(test_data.tokens.balance(test_data.token_a, test_data.admin), sweep_amount as i128);

    let remaining = get_committed_rewards(&test_data.committed.get(&test_data.token_a).copied());
    assert_eq!(remaining, 0);
}

#[test]
fn test_sweep_refuses_live_or_unknown_epoch() {
    let e = Env::default();
    let mut test_data = create_test_data();
    let vault = test_data.vault_a;
    let token_a = test_data.token_a;
    test_data.seed_escrow(100);
    assert_eq!(
        test_data.sweep_expired_epoch(token_a, vault, 1, 1).unwrap_err(),
        ContractErrors::RewardEpochNotFound
    );
    let root = compute_leaf_hash(&e, &vault, 1, 1, &test_data.admin, 5);
    test_data.set_rewards_root(token_a, vault, 1, root, 5, 1, 0).unwrap();
    assert_eq!(
        test_data.sweep_expired_epoch(token_a, vault, 1, 1).unwrap_err(),
        ContractErrors::RewardEpochNotExpired
    );
    assert_eq!(
        test_data.sweep_expired_epoch(token_a, vault, 2, 1).unwrap_err(),
        ContractErrors::RewardEpochNotFound
    );
}

#[test]
fn test_withdraw() {
    let mut test_data = create_test_data();
    let amount_to_allow: u128 = 500_000_000 * SCALAR_7;
    let (token_a, token_b, contract, admin) = (test_data.token_a, test_data.token_b, test_data.contract, test_data.admin);
    test_data.tokens.mint(token_a, contract, amount_to_allow as i128);
    test_data.tokens.mint(token_b, contract, amount_to_allow as i128);

    test_data.withdraw(&[(token_a, amount_to_allow / 2), (token_b, amount_to_allow / 2)]);

    assert_eq!(test_data.tokens.balance(token_a, contract), (amount_to_allow / 2) as i128);
    assert_eq!(test_data.tokens.balance(token_b, contract), (amount_to_allow / 2) as i128);
    assert_eq!(test_data.tokens.balance(token_a, admin), (amount_to_allow / 2) as i128);
    assert_eq!(test_data.tokens.balance(token_b, admin), (amount_to_allow / 2) as i128);
    assert_eq!(test_data.authorizers, vec![Some(admin), Some(admin)]);
}

#[test]
fn test_withdraw_emits_admin_withdraw_event() {
    let mut test_data = create_test_data();
    let initial_balance: u128 = 1_000 * SCALAR_7;
    let keep_amount: u128 = 400 * SCALAR_7;
    let expected_transfer: u128 = initial_balance - keep_amount;
    let (token_a, token_b, contract) = (test_data.token_a, test_data.token_b, test_data.contract);
    test_data.tokens.mint(token_a, contract, initial_balance as i128);
    test_data.tokens.mint(token_b, contract, initial_balance as i128);

    test_data.withdraw(&[(token_a, keep_amount), (token_b, keep_amount)]);

    assert_eq!(test_data.withdraw_events.len(), 2);
    for (idx, expected_asset) in [token_a, token_b].iter().enumerate() {
        let event = test_data.withdraw_events[idx];
        assert_eq!(event.asset, *expected_asset);
        assert_eq!(event.admin, test_data.admin);
        assert_eq!(event.amount, expected_transfer);
    }
}

#[test]
fn test_withdraw_does_not_emit_event_when_nothing_to_transfer() {
    let mut test_data = create_test_data();
    let balance: u128 = 500 * SCALAR_7;
    let (token_a, contract) = (test_data.token_a, test_data.contract);
    test_data.tokens.mint(token_a, contract, balance as i128);

    test_data.withdraw(&[(token_a, balance)]);

    assert!(test_data.withdraw_events.is_empty());
    assert_eq!(test_data.tokens.balance(token_a, contract), balance as i128);
    assert_eq!(
        test_data.transfers,
        vec![TransferOrder { asset: token_a, from: contract, to: test_data.admin, amount: 0 }]
    );
}

#[test]
fn test_root_epochs_must_increase() {
    let e = Env::default();
    let mut test_data = create_test_data();
    let vault = test_data.vault_a;
    let token_a = test_data.token_a;
    test_data.seed_escrow(1000);
    let root = compute_leaf_hash(&e, &vault, 5, 1, &test_data.admin, 5);
    test_data.set_rewards_root(token_a, vault, 5, root, 5, 1, 0).unwrap();
    assert_eq!(test_data.latest.get(&vault), Some(&5));
    assert_eq!(
        test_data.root_events.last().unwrap(),
        &RewardRootUpdatedEvent {
            epoch: 5,
            vault,
            root,
            asset: token_a,
            total_rewards: 5,
            leaf_count: 1,
            program_end_ts: 0
        }
    );
    assert_eq!(
        test_data.set_rewards_root(token_a, vault, 5, root, 5, 1, 0).unwrap_err(),
        ContractErrors::RewardEpochOutOfOrder
    );
    assert_eq!(
        test_data.set_rewards_root(token_a, vault, 4, root, 5, 1, 0).unwrap_err(),
        ContractErrors::RewardEpochOutOfOrder
    );
    assert_eq!(
        test_data.set_rewards_root(token_a, vault, 6, root, 5000, 1, 0).unwrap_err(),
        ContractErrors::InsufficientEscrowBalance
    );
    assert_eq!(
        test_data.set_rewards_root(token_a, vault, 6, root, u128::MAX, 1, 0).unwrap_err(),
        ContractErrors::RewardAmountTooLarge
    );
    test_data.set_rewards_root(token_a, vault, 6, root, 5, 1, 0).unwrap();
}

#[test]
fn test_claim_refusals() {
    let e = Env::default();
    let mut test_data = create_test_data();
    let vault = test_data.vault_a;
    let token_a = test_data.token_a;
    let user = Addr::account([13; 32]);
    let root = compute_leaf_hash(&e, &vault, 1, 7, &user, 40);
    test_data.seed_escrow(30);
    test_data.set_rewards_root(token_a, vault, 1, root, 0, 1, 0).unwrap();

    let zero = ClaimParams { deposit_id: 7, amount: 0, leaf_index: 0, proof: Vec::new() };
    assert_eq!(test_data.claim(&e, user, vault, 1, &zero).unwrap_err(), ContractErrors::RewardInvalidProof);
    let outside = ClaimParams { deposit_id: 7, amount: 40, leaf_index: 1, proof: Vec::new() };
    assert_eq!(
        test_data.claim(&e, user, vault, 1, &outside).unwrap_err(),
        ContractErrors::RewardLeafIndexOutOfBounds
    );
    let other_user = ClaimParams { deposit_id: 7, amount: 40, leaf_index: 0, proof: Vec::new() };
    assert_eq!(
        test_data.claim(&e, Addr::account([14; 32]), vault, 1, &other_user).unwrap_err(),
        ContractErrors::RewardInvalidProof
    );
    let good = ClaimParams { deposit_id: 7, amount: 40, leaf_index: 0, proof: Vec::new() };
    assert_eq!(
        test_data.claim(&e, user, vault, 1, &good).unwrap_err(),
        ContractErrors::InsufficientEscrowBalance
    );
    assert!(!test_data.is_claimed(vault, 1, 7));
    test_data.seed_escrow(10);
    test_data.claim(&e, user, vault, 1, &good).unwrap();
    assert_eq!(
        test_data.claim_events.last().unwrap(),
        &RewardClaimedEvent { epoch: 1, vault, deposit_id: 7, owner: user, asset: token_a, amount: 40 }
    );
    test_data.now = 0;
    let late = ClaimParams { deposit_id: 8, amount: 40, leaf_index: 0, proof: Vec::new() };
    test_data.epochs.insert(
        (vault, 2),
        RewardEpoch { root, asset: token_a, total_rewards: 40, leaf_count: 1, program_end_ts: 10 },
    );
    assert_eq!(test_data.claim(&e, user, vault, 2, &late).unwrap_err(), ContractErrors::RewardEpochNotMatured);
}

#[test]
fn test_two_leaf_tree_proofs() {
    let e = Env::default();
    let vault = addr(30);
    let alice = Addr::account([31; 32]);
    let bob = Addr::account([32; 32]);
    let leaf_a = compute_leaf_hash(&e, &vault, 1, 1, &alice, 10);
    let leaf_b = compute_leaf_hash(&e, &vault, 1, 2, &bob, 20);
    assert_ne!(leaf_a, leaf_b);

    let mut node = vec![0x01u8];
    node.extend_from_slice(&leaf_a);
    node.extend_from_slice(&leaf_b);
    let root: [u8; 32] = e.crypto().sha256(&Bytes::from_slice(&e, &node)).to_array();

    assert_eq!(compute_root_from_proof(&e, &leaf_a, &vec![leaf_b], 0), root);
    assert_eq!(compute_root_from_proof(&e, &leaf_b, &vec![leaf_a], 1), root);
    assert_ne!(compute_root_from_proof(&e, &leaf_a, &vec![leaf_b], 1), root);
    assert_eq!(compute_root_from_proof(&e, &leaf_a, &Vec::new(), 0), leaf_a);

    let mut test_data = create_test_data();
    let token_a = test_data.token_a;
    test_data.seed_escrow(30);
    test_data.set_rewards_root(token_a, vault, 1, root, 30, 2, 0).unwrap();
    test_data
        .claim(&e, bob, vault, 1, &ClaimParams { deposit_id: 2, amount: 20, leaf_index: 1, proof: vec![leaf_a] })
        .unwrap();
    test_data
        .claim(&e, alice, vault, 1, &ClaimParams { deposit_id: 1, amount: 10, leaf_index: 0, proof: vec![leaf_b] })
        .unwrap();
    assert_eq!(test_data.tokens.balance(token_a, alice), 10);
    assert_eq!(test_data.tokens.balance(token_a, bob), 20);
}

#[test]
fn test_leaf_hash_matches_sdk_encoding() {
    let e = Env::default();
    let vault = addr(40);
    let owner = Addr::account([41; 32]);
    let v = AddressPayload::ContractIdHash(BytesN::from_array(&e, &vault.key)).to_address(&e);
    let o = AddressPayload::AccountIdPublicKeyEd25519(BytesN::from_array(&e, &owner.key)).to_address(&e);
    let mut payload = Bytes::from_slice(&e, &[0x00]);
    payload.append(&(v, 3u32, 9u64, o, 77u128).to_xdr(&e));
    let expected: [u8; 32] = e.crypto().sha256(&payload).to_array();
    assert_eq!(compute_leaf_hash(&e, &vault, 3, 9, &owner, 77), expected);
    assert_ne!(compute_leaf_hash(&e, &vault, 3, 9, &owner, 78), expected);
}

#[test]
fn test_claim_bitset() {
    let mut word: Option<u64> = None;
    assert_eq!(claim_position(0), (0, 1));
    assert_eq!(claim_position(65), (1, 2));
    assert_eq!(claim_position(127), (1, 1u64 << 63));
    assert!(!is_claimed(&word, 5));
    set_claimed(&mut word, 5);
    assert!(is_claimed(&word, 5));
    assert!(!is_claimed(&word, 4));
    assert_eq!(word, Some(32));
    set_claimed(&mut word, 5);
    assert_eq!(word, Some(32));
    set_claimed(&mut word, 63);
    assert_eq!(word, Some(32 | (1u64 << 63)));
}

#[test]
fn test_committed_rewards_entries() {
    let mut entry: Option<u128> = None;
    assert_eq!(get_committed_rewards(&entry), 0);
    add_committed_rewards(&mut entry, 10);
    add_committed_rewards(&mut entry, 5);
    assert_eq!(get_committed_rewards(&entry), 15);
    reduce_committed_rewards(&mut entry, 4);
    assert_eq!(entry, Some(11));
    reduce_committed_rewards(&mut entry, 100);
    assert_eq!(entry, Some(0));

    let mut slot: Option<Allowance> = None;
    assert_eq!(allowance(&mut slot, None), None);
    let a = Allowance { target: addr(1), asset: addr(2), amount: 5, current: 0, deadline: 9 };
    assert_eq!(allowance(&mut slot, Some(a)), Some(a));
    assert_eq!(allowance(&mut slot, None), Some(a));
}

#[test]
fn test_escrow_error_codes() {
    assert_eq!(ContractErrors::AllowanceExpired.code(), 201);
    assert_eq!(ContractErrors::RewardEpochNotFound.code(), 301);
    assert_eq!(ContractErrors::InsufficientEscrowBalance.code(), 308);
    assert_eq!(ContractErrors::SweepAmountExceedsCommittedRewards.code(), 309);
}

fn xdr_address_bytes(a: &Addr) -> Vec<u8> {
    let mut out = vec![0, 0, 0, 18];
    match a.kind {
        sentora::address::AddrKind::Account => out.extend_from_slice(&[0, 0, 0, 0, 0, 0, 0, 0]),
        sentora::address::AddrKind::Contract => out.extend_from_slice(&[0, 0, 0, 1]),
    }
    out.extend_from_slice(&a.key);
    out
}

#[test]
fn test_leaf_preimage_layout() {
    let e = Env::default();
    let vault = addr(50);
    let owner = Addr::account([51; 32]);
    let (epoch, deposit_id, amount): (u32, u64, u128) = (7, 0x0102_0304_0506_0708, (1u128 << 70) + 9);
    let mut preimage = vec![0x00u8];
    preimage.extend_from_slice(&[0, 0, 0, 16, 0, 0, 0, 1, 0, 0, 0, 5]);
    preimage.extend(xdr_address_bytes(&vault));
    preimage.extend_from_slice(&[0, 0, 0, 3]);
    preimage.extend_from_slice(&epoch.to_be_bytes());
    preimage.extend_from_slice(&[0, 0, 0, 5]);
    preimage.extend_from_slice(&deposit_id.to_be_bytes());
    preimage.extend(xdr_address_bytes(&owner));
    preimage.extend_from_slice(&[0, 0, 0, 9]);
    preimage.extend_from_slice(&((amount >> 64) as u64).to_be_bytes());
    preimage.extend_from_slice(&(amount as u64).to_be_bytes());
    let expected: [u8; 32] = e.crypto().sha256(&Bytes::from_slice(&e, &preimage)).to_array();
    assert_eq!(compute_leaf_hash(&e, &vault, epoch, deposit_id, &owner, amount), expected);
    assert_ne!(compute_leaf_hash(&e, &owner, epoch, deposit_id, &vault, amount), expected);
}

#[test]
fn test_withdraw_keep_above_balance_orders_negative_transfer() {
    let mut test_data = create_test_data();
    let mut inst = test_data.inst;
    let w = EscrowContract::withdraw(&mut inst, &test_data.contract, test_data.token_a, 10, 4);
    assert_eq!(w.authorizer, test_data.admin);
    assert_eq!(w.transfer.amount, -6);
    assert_eq!(w.event, None);
    test_data.inst = inst;
}
