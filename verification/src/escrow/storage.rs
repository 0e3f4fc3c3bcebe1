//! The escrow contract's storage entries, each held as a plain value.
use crate::address::Addr;
use vstd::prelude::*;

verus! {

/// The keys under which the escrow contract keeps its entries.
#[derive(Clone, Copy, Debug, PartialEq, Eq)]
pub enum StorageKeys {
    /// Instance entry: the admin address.
    Admin,
    /// Persistent entry: the allowance of `(target, asset)`.
    Allowance((Addr, Addr)),
    /// Instance entry: the latest epoch whose root was stored for a vault.
    LatestRewardEpoch(Addr),
    /// Persistent entry: the reward epoch `(vault, epoch)`.
    RewardEpoch((Addr, u32)),
    /// Persistent entry: one 64-bit word of the claim bitset of `(vault, epoch, word index)`.
    RewardClaimed((Addr, u32, u64)),
    /// Persistent entry: the rewards committed in an asset.
    CommittedRewards(Addr),
}

/// A spending allowance granted to `target` in `asset`.
#[derive(Clone, Copy, Debug, PartialEq, Eq)]
pub struct Allowance {
    pub target: Addr,
    pub asset: Addr,
    pub amount: u128,
    pub current: u128,
    pub deadline: u64,
}

/// What is stored for one epoch of a vault's reward program.
#[derive(Clone, Copy, Debug, PartialEq, Eq)]
pub struct RewardEpoch {
    pub root: [u8; 32],
    pub asset: Addr,
    pub total_rewards: u128,
    pub leaf_count: u32,
    pub program_end_ts: u64,
}

/// The escrow's instance storage.
#[derive(Clone, Copy, Debug, PartialEq, Eq)]
pub struct EscrowInstance {
    pub admin: Option<Addr>,
}

impl EscrowInstance {
    /// An instance storage with no entry.
    pub fn new() -> (r: EscrowInstance)
        ensures
            r.admin is None,
    {
        EscrowInstance { admin: None }
    }
}

/// Stores `value` as the admin when one is given, then reads the admin back.
pub fn admin(inst: &mut EscrowInstance, value: Option<Addr>) -> (r: Option<Addr>)
    ensures
        final(inst).admin == (match value {
            Some(v) => Some(v),
            None => old(inst).admin,
        }),
        r == final(inst).admin,
{
    if let Some(v) = value {
        inst.admin = Some(v);
    }
    inst.admin
}

/// Stores `value` in the allowance entry when one is given, then reads the entry back.
pub fn allowance(slot: &mut Option<Allowance>, value: Option<Allowance>) -> (r: Option<Allowance>)
    ensures
        *final(slot) == (match value {
            Some(v) => Some(v),
            None => *old(slot),
        }),
        r == *final(slot),
{
    if let Some(v) = value {
        *slot = Some(v);
    }
    *slot
}

/// The index of the bitset word that holds a deposit's claim flag.
pub open spec fn claim_word_index(deposit_id: u64) -> u64 {
    deposit_id / 64
}

/// The bit of its word that holds a deposit's claim flag.
pub open spec fn claim_mask(deposit_id: u64) -> u64 {
    1u64 << (deposit_id % 64)
}

/// A stored word, an absent one reading as zero.
pub open spec fn stored_word(word: Option<u64>) -> u64 {
    match word {
        Some(w) => w,
        None => 0,
    }
}

/// Whether `word` holds the claim flag of `deposit_id`.
pub open spec fn word_marks(word: u64, deposit_id: u64) -> bool {
    word & claim_mask(deposit_id) != 0
}

/// Whether a deposit is claimed in a claim bitset, given as its words by index.
pub open spec fn claimed_in(words: Map<u64, u64>, deposit_id: u64) -> bool {
    word_marks(stored_word(words.get(claim_word_index(deposit_id))), deposit_id)
}

/// Splits a deposit identifier into the index of its claim word and its bit mask.
pub fn claim_position(deposit_id: u64) -> (r: (u64, u64))
    ensures
        r.0 == claim_word_index(deposit_id),
        r.1 == claim_mask(deposit_id),
        r.1 != 0,
{
    let word_index: u64 = deposit_id / 64;
    let offset: u64 = deposit_id % 64;
    let mask: u64 = 1u64 << offset;
    assert(offset < 64 ==> (1u64 << offset) != 0) by (bit_vector);
    (word_index, mask)
}

/// Whether the stored claim word of `deposit_id` marks it as claimed.
pub fn is_claimed(word: &Option<u64>, deposit_id: u64) -> (r: bool)
    ensures
        r == word_marks(stored_word(*word), deposit_id),
{
    let (_, mask) = claim_position(deposit_id);
    let w: u64 = match word {
        Some(w) => *w,
        None => 0,
    };
    (w & mask) != 0
}

proof fn lemma_or_mask(w: u64, a: u64, b: u64)
    requires
        a < 64,
        b < 64,
    ensures
        ((w | (1u64 << a)) & (1u64 << b) != 0) == (a == b || (w & (1u64 << b)) != 0),
{
    assert(((w | (1u64 << a)) & (1u64 << b) != 0) == (a == b || (w & (1u64 << b)) != 0))
        by (bit_vector)
        requires
            a < 64,
            b < 64,
    ;
}

proof fn lemma_same_position_same_id(a: u64, b: u64)
    requires
        a / 64 == b / 64,
        a % 64 == b % 64,
    ensures
        a == b,
{
    vstd::arithmetic::div_mod::lemma_fundamental_div_mod(a as int, 64);
    vstd::arithmetic::div_mod::lemma_fundamental_div_mod(b as int, 64);
}

/// Setting a deposit's flag in a word marks that deposit and, among the
/// deposits of that word, changes no other.
pub proof fn lemma_set_flag_in_word(word: u64, deposit_id: u64, other: u64)
    requires
        claim_word_index(other) == claim_word_index(deposit_id),
    ensures
        word_marks(word | claim_mask(deposit_id), other) == (other == deposit_id || word_marks(
            word,
            other,
        )),
{
    lemma_or_mask(word, deposit_id % 64, other % 64);
    if deposit_id % 64 == other % 64 {
        lemma_same_position_same_id(deposit_id, other);
    }
}

/// Marks `deposit_id` as claimed in its stored claim word.
pub fn set_claimed(word: &mut Option<u64>, deposit_id: u64)
    ensures
        *final(word) == Some(stored_word(*old(word)) | claim_mask(deposit_id)),
        word_marks(stored_word(*final(word)), deposit_id),
        forall|other: u64|
            claim_word_index(other) == claim_word_index(deposit_id) ==> (word_marks(
                #[trigger] stored_word(*final(word)),
                other,
            ) == (other == deposit_id || word_marks(stored_word(*old(word)), other))),
{
    let (_, mask) = claim_position(deposit_id);
    let w: u64 = match word {
        Some(w) => *w,
        None => 0,
    };
    *word = Some(w | mask);
    proof {
        lemma_set_flag_in_word(w, deposit_id, deposit_id);
        assert forall|other: u64|
            claim_word_index(other) == claim_word_index(deposit_id) implies (word_marks(
            #[trigger] stored_word(*word),
            other,
        ) == (other == deposit_id || word_marks(w, other))) by {
            lemma_set_flag_in_word(w, deposit_id, other);
        }
    }
}

/// Law of the claim bitset: once a deposit's claim is recorded (its word
/// rewritten by `set_claimed`), that deposit reads as claimed and every other
/// deposit reads as it did before.
pub proof fn law_set_claimed_marks_only_that_deposit(
    words: Map<u64, u64>,
    deposit_id: u64,
    other: u64,
)
    ensures
        ({
            let idx = claim_word_index(deposit_id);
            let after = words.insert(idx, stored_word(words.get(idx)) | claim_mask(deposit_id));
            claimed_in(after, other) == (other == deposit_id || claimed_in(words, other))
        }),
{
    let idx = claim_word_index(deposit_id);
    let after = words.insert(idx, stored_word(words.get(idx)) | claim_mask(deposit_id));
    if claim_word_index(other) == idx {
        assert(after.get(idx) == Some(stored_word(words.get(idx)) | claim_mask(deposit_id)));
        lemma_set_flag_in_word(stored_word(words.get(idx)), deposit_id, other);
    } else {
        assert(after.get(claim_word_index(other)) == words.get(claim_word_index(other)));
        assert(other != deposit_id);
    }
}

/// Law of the claim positions: a deposit's flag is one bit of one word:
/// the word's index times 64 plus the bit's position is the deposit's
/// identifier, so every deposit has its own flag.
pub proof fn law_claim_position_is_the_identifier(deposit_id: u64)
    ensures
        0 <= deposit_id - 64 * claim_word_index(deposit_id) < 64,
        claim_mask(deposit_id) == 1u64 << ((deposit_id - 64 * claim_word_index(deposit_id)) as u64),
{
    vstd::arithmetic::div_mod::lemma_fundamental_div_mod(deposit_id as int, 64);
}

/// A stored amount, an absent one reading as zero.
pub open spec fn stored_amount(value: Option<u128>) -> u128 {
    match value {
        Some(v) => v,
        None => 0,
    }
}

/// The rewards committed in an asset, zero when nothing was stored.
pub fn get_committed_rewards(stored: &Option<u128>) -> (r: u128)
    ensures
        r == stored_amount(*stored),
{
    match stored {
        Some(v) => *v,
        None => 0,
    }
}

/// Adds `amount` to the rewards committed in an asset.
pub fn add_committed_rewards(stored: &mut Option<u128>, amount: u128)
    requires
        stored_amount(*old(stored)) + amount <= u128::MAX,
    ensures
        *final(stored) == Some((stored_amount(*old(stored)) + amount) as u128),
{
    let current = get_committed_rewards(stored);
    *stored = Some(current + amount);
}

/// Takes `amount` off the rewards committed in an asset, stopping at zero.
pub fn reduce_committed_rewards(stored: &mut Option<u128>, amount: u128)
    ensures
        *final(stored) == Some(
            if amount >= stored_amount(*old(stored)) {
                0u128
            } else {
                (stored_amount(*old(stored)) - amount) as u128
            },
        ),
{
    let current = get_committed_rewards(stored);
    let new_amount: u128 = if amount >= current { 0 } else { current - amount };
    *stored = Some(new_amount);
}

/// Law of the committed rewards: taking off what was just added restores the
/// committed amount.
pub proof fn law_committed_rewards_add_then_reduce(current: Option<u128>, amount: u128)
    requires
        stored_amount(current) + amount <= u128::MAX,
    ensures
        ({
            let added = (stored_amount(current) + amount) as u128;
            (if amount >= added { 0u128 } else { (added - amount) as u128 }) == stored_amount(
                current,
            )
        }),
{
}

} // verus!
