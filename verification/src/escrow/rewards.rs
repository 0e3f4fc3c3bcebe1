//! Reward leaves and their Merkle proofs.
use crate::address::Addr;
use crate::sdk::{leaf_tuple_to_xdr, sha256, sha256_digest};
use crate::xdr::{law_leaf_tuple_xdr_injective, leaf_tuple_xdr, lemma_split};
use vstd::prelude::*;

verus! {

/// The byte a leaf's preimage starts with.
pub const REWARD_LEAF_PREFIX: u8 = 0x00;

/// The byte an inner node's preimage starts with.
pub const REWARD_NODE_PREFIX: u8 = 0x01;

/// The preimage of a reward leaf: the leaf prefix, then the XDR encoding of
/// `(vault, epoch, deposit_id, owner, amount)`.
pub open spec fn leaf_preimage(vault: Addr, epoch: u32, deposit_id: u64, owner: Addr, amount: u128) -> Seq<u8> {
    seq![REWARD_LEAF_PREFIX] + leaf_tuple_xdr(vault, epoch, deposit_id, owner, amount)
}

/// The hash of a reward leaf.
pub open spec fn leaf_hash(vault: Addr, epoch: u32, deposit_id: u64, owner: Addr, amount: u128) -> Seq<u8> {
    sha256_digest(leaf_preimage(vault, epoch, deposit_id, owner, amount))
}

/// The preimage of an inner node: the node prefix, the left child, the right child.
pub open spec fn node_preimage(left: Seq<u8>, right: Seq<u8>) -> Seq<u8> {
    seq![REWARD_NODE_PREFIX] + left + right
}

/// The root reached from `hash` at position `index` by climbing the tree with
/// the siblings of `proof`, the lowest first: an even position is a left
/// child, an odd one a right child.
pub open spec fn merkle_root(hash: Seq<u8>, proof: Seq<[u8; 32]>, index: u32) -> Seq<u8>
    decreases proof.len(),
{
    if proof.len() == 0 {
        hash
    } else {
        let preimage = if index % 2 == 0 {
            node_preimage(hash, proof[0]@)
        } else {
            node_preimage(proof[0]@, hash)
        };
        merkle_root(sha256_digest(preimage), proof.drop_first(), index / 2)
    }
}

/// Hashes the leaf of a deposit's reward.
pub fn compute_leaf_hash(
    e: &soroban_sdk::Env,
    vault: &Addr,
    epoch: u32,
    deposit_id: u64,
    owner: &Addr,
    amount: u128,
) -> (r: [u8; 32])
    ensures
        r@ == leaf_hash(*vault, epoch, deposit_id, *owner, amount),
{
    let encoded = leaf_tuple_to_xdr(e, vault, epoch, deposit_id, owner, amount);
    let mut payload: Vec<u8> = Vec::new();
    payload.push(REWARD_LEAF_PREFIX);
    let mut i: usize = 0;
    while i < encoded.len()
        invariant
            0 <= i <= encoded.len(),
            payload@ == seq![REWARD_LEAF_PREFIX] + encoded@.take(i as int),
        decreases encoded.len() - i,
    {
        payload.push(encoded[i]);
        i += 1;
        assert(encoded@.take(i as int) == encoded@.take(i - 1).push(encoded@[i - 1]));
    }
    assert(encoded@.take(encoded@.len() as int) == encoded@);
    sha256(e, &payload)
}

/// The preimage of the node whose children are `left` and `right`.
fn node_bytes(left: &[u8; 32], right: &[u8; 32]) -> (r: Vec<u8>)
    ensures
        r@ == node_preimage(left@, right@),
{
    let mut data: Vec<u8> = Vec::new();
    data.push(REWARD_NODE_PREFIX);
    let mut i: usize = 0;
    while i < 32
        invariant
            0 <= i <= 32,
            left@.len() == 32,
            data@ == seq![REWARD_NODE_PREFIX] + left@.take(i as int),
        decreases 32 - i,
    {
        data.push(left[i]);
        i += 1;
        assert(left@.take(i as int) == left@.take(i - 1).push(left@[i - 1]));
    }
    assert(left@.take(32) == left@);
    let mut j: usize = 0;
    while j < 32
        invariant
            0 <= j <= 32,
            right@.len() == 32,
            left@.len() == 32,
            data@ == seq![REWARD_NODE_PREFIX] + left@ + right@.take(j as int),
        decreases 32 - j,
    {
        data.push(right[j]);
        j += 1;
        assert(right@.take(j as int) == right@.take(j - 1).push(right@[j - 1]));
    }
    assert(right@.take(32) == right@);
    data
}

/// Climbs from `leaf` at position `index` to the root that `proof` leads to.
pub fn compute_root_from_proof(
    e: &soroban_sdk::Env,
    leaf: &[u8; 32],
    proof: &Vec<[u8; 32]>,
    index: u32,
) -> (r: [u8; 32])
    ensures
        r@ == merkle_root(leaf@, proof@, index),
{
    let mut hash: [u8; 32] = *leaf;
    let mut position: u32 = index;
    let mut i: usize = 0;
    assert(proof@.skip(0) == proof@);
    while i < proof.len()
        invariant
            0 <= i <= proof.len(),
            merkle_root(leaf@, proof@, index) == merkle_root(hash@, proof@.skip(i as int), position),
        decreases proof.len() - i,
    {
        let sibling: [u8; 32] = proof[i];
        let data = if position % 2 == 0 {
            node_bytes(&hash, &sibling)
        } else {
            node_bytes(&sibling, &hash)
        };
        proof {
            let rest = proof@.skip(i as int);
            assert(rest[0] == sibling);
            assert(rest.drop_first() == proof@.skip(i + 1));
        }
        hash = sha256(e, &data);
        position = position / 2;
        i += 1;
    }
    hash
}

/// Law of the proofs: an empty proof leads to the leaf itself, so a tree of
/// one leaf has that leaf's hash as its root.
pub proof fn law_empty_proof_root_is_leaf(leaf: Seq<u8>, index: u32)
    ensures
        merkle_root(leaf, Seq::<[u8; 32]>::empty(), index) == leaf,
{
}

/// Law of the proofs: a proof of one sibling hashes the leaf with it, the
/// leaf on the left at an even position and on the right at an odd one.
pub proof fn law_one_sibling_proof(leaf: Seq<u8>, sibling: [u8; 32], index: u32)
    ensures
        merkle_root(leaf, seq![sibling], index) == sha256_digest(
            if index % 2 == 0 {
                node_preimage(leaf, sibling@)
            } else {
                node_preimage(sibling@, leaf)
            },
        ),
{
    reveal_with_fuel(merkle_root, 2);
    assert(seq![sibling].drop_first() == Seq::<[u8; 32]>::empty());
}

/// Law of the leaves: two claims that differ in vault, epoch, deposit, owner
/// or amount hash distinct preimages.
pub proof fn law_distinct_leaves_distinct_preimages(
    v1: Addr,
    e1: u32,
    d1: u64,
    o1: Addr,
    a1: u128,
    v2: Addr,
    e2: u32,
    d2: u64,
    o2: Addr,
    a2: u128,
)
    requires
        leaf_preimage(v1, e1, d1, o1, a1) == leaf_preimage(v2, e2, d2, o2, a2),
    ensures
        v1 == v2,
        e1 == e2,
        d1 == d2,
        o1 == o2,
        a1 == a2,
{
    lemma_split(
        seq![REWARD_LEAF_PREFIX],
        leaf_tuple_xdr(v1, e1, d1, o1, a1),
        seq![REWARD_LEAF_PREFIX],
        leaf_tuple_xdr(v2, e2, d2, o2, a2),
    );
    law_leaf_tuple_xdr_injective(v1, e1, d1, o1, a1, v2, e2, d2, o2, a2);
}

/// The hash of the node at one level of the climb: the current hash on the
/// left when the position is even, on the right when it is odd.
pub open spec fn climb_step(hash: Seq<u8>, sibling: [u8; 32], position: u32) -> Seq<u8> {
    sha256_digest(
        if position % 2 == 0 {
            seq![REWARD_NODE_PREFIX] + hash + sibling@
        } else {
            seq![REWARD_NODE_PREFIX] + sibling@ + hash
        },
    )
}

/// Law of the proofs: with two siblings, the leaf's side at the first level
/// is bit zero of its index and its parent's side at the second level is bit
/// one: the root is the hash of the parent with the second sibling, taken
/// in the order that bit gives.
pub proof fn law_two_sibling_proof(leaf: Seq<u8>, s0: [u8; 32], s1: [u8; 32], index: u32)
    ensures
        merkle_root(leaf, seq![s0, s1], index) == climb_step(
            climb_step(leaf, s0, index),
            s1,
            index / 2,
        ),
        index % 4 == 1 ==> merkle_root(leaf, seq![s0, s1], index) == sha256_digest(
            seq![REWARD_NODE_PREFIX] + sha256_digest(seq![REWARD_NODE_PREFIX] + s0@ + leaf) + s1@,
        ),
{
    reveal_with_fuel(merkle_root, 3);
    assert(seq![s0, s1].drop_first() =~= seq![s1]);
    assert(seq![s1].drop_first() =~= Seq::<[u8; 32]>::empty());
    assert(node_preimage(leaf, s0@) =~= seq![REWARD_NODE_PREFIX] + leaf + s0@);
    assert(node_preimage(s0@, leaf) =~= seq![REWARD_NODE_PREFIX] + s0@ + leaf);
    let h1 = climb_step(leaf, s0, index);
    assert(node_preimage(h1, s1@) =~= seq![REWARD_NODE_PREFIX] + h1 + s1@);
    assert(node_preimage(s1@, h1) =~= seq![REWARD_NODE_PREFIX] + s1@ + h1);
    if index % 4 == 1 {
        assert(index % 2 == 1 && (index / 2) % 2 == 0);
    }
}

/// Law of the proofs: climbing a proof made of a lower part `p` and an
/// upper part `q` is climbing `p` from the leaf, then `q` from where that
/// ends, at the leaf's index shifted right by the length of `p`: the side at
/// level `k` is bit `k` of the leaf's index.
pub proof fn law_root_of_joined_proof(hash: Seq<u8>, p: Seq<[u8; 32]>, q: Seq<[u8; 32]>, index: u32)
    ensures
        merkle_root(hash, p + q, index) == merkle_root(
            merkle_root(hash, p, index),
            q,
            (index as nat / vstd::arithmetic::power2::pow2(p.len())) as u32,
        ),
    decreases p.len(),
{
    vstd::arithmetic::power2::lemma_pow2_pos(p.len());
    if p.len() == 0 {
        assert(p + q =~= q);
        vstd::arithmetic::power2::lemma2_to64();
    } else {
        let preimage = if index % 2 == 0 {
            node_preimage(hash, p[0]@)
        } else {
            node_preimage(p[0]@, hash)
        };
        let h1 = sha256_digest(preimage);
        assert((p + q)[0] == p[0]);
        assert((p + q).drop_first() =~= p.drop_first() + q);
        law_root_of_joined_proof(h1, p.drop_first(), q, index / 2);
        let n = (p.len() - 1) as nat;
        vstd::arithmetic::power2::lemma_pow2_unfold(p.len());
        vstd::arithmetic::power2::lemma_pow2_pos(n);
        vstd::arithmetic::div_mod::lemma_div_denominator(index as int, 2, vstd::arithmetic::power2::pow2(n) as int);
        assert((index / 2) as nat / vstd::arithmetic::power2::pow2(n) == index as nat
            / vstd::arithmetic::power2::pow2(p.len()));
    }
}

/// Law of the tree: a leaf's preimage and an inner node's preimage start
/// with different bytes, so a leaf hash never stands for an inner node.
pub proof fn law_leaves_and_nodes_are_separated(
    vault: Addr,
    epoch: u32,
    deposit_id: u64,
    owner: Addr,
    amount: u128,
    left: Seq<u8>,
    right: Seq<u8>,
)
    ensures
        leaf_preimage(vault, epoch, deposit_id, owner, amount)[0] == 0u8,
        node_preimage(left, right)[0] == 1u8,
{
}

} // verus!
