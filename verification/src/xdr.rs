//! The XDR encoding of the values a reward leaf carries, as the Soroban host
//! serializes them (`ScVal`, big-endian, four-byte tags).
use crate::address::{Addr, AddrKind};
use vstd::prelude::*;

verus! {

/// The four big-endian bytes of a `u32`.
pub open spec fn be_u32(x: u32) -> Seq<u8> {
    seq![(x >> 24u32) as u8, (x >> 16u32) as u8, (x >> 8u32) as u8, x as u8]
}

/// The eight big-endian bytes of a `u64`.
pub open spec fn be_u64(x: u64) -> Seq<u8> {
    be_u32((x >> 32u64) as u32) + be_u32(x as u32)
}

/// The discriminant of an `ScAddress` of the given kind.
pub open spec fn address_kind_tag(kind: AddrKind) -> u32 {
    match kind {
        AddrKind::Account => 0,
        AddrKind::Contract => 1,
    }
}

/// What follows an `ScAddress` discriminant: for an account, the public key
/// type (Ed25519, zero) and the key; for a contract, its id hash.
pub open spec fn address_body(a: Addr) -> Seq<u8> {
    match a.kind {
        AddrKind::Account => be_u32(0) + a.key@,
        AddrKind::Contract => a.key@,
    }
}

/// `ScVal::Address`: tag 18, the address kind, then its body.
pub open spec fn xdr_address(a: Addr) -> Seq<u8> {
    be_u32(18) + (be_u32(address_kind_tag(a.kind)) + address_body(a))
}

/// `ScVal::U32`: tag 3, then the value.
pub open spec fn xdr_u32(x: u32) -> Seq<u8> {
    be_u32(3) + be_u32(x)
}

/// `ScVal::U64`: tag 5, then the value.
pub open spec fn xdr_u64(x: u64) -> Seq<u8> {
    be_u32(5) + be_u64(x)
}

/// `ScVal::U128`: tag 9, then the high and the low halves.
pub open spec fn xdr_u128(x: u128) -> Seq<u8> {
    be_u32(9) + (be_u64((x >> 64u128) as u64) + be_u64(x as u64))
}

/// The XDR encoding of the `ScVal` vector `(vault, epoch, deposit_id, owner,
/// amount)`: tag 16, the present flag, the length five, then the elements.
pub open spec fn leaf_tuple_xdr(vault: Addr, epoch: u32, deposit_id: u64, owner: Addr, amount: u128) -> Seq<
    u8,
> {
    be_u32(16) + (be_u32(1) + (be_u32(5) + (xdr_address(vault) + (xdr_u32(epoch) + (xdr_u64(deposit_id) + (
    xdr_address(owner) + xdr_u128(amount)))))))
}

/// Two concatenations whose first parts have the same length are equal only
/// when their parts are.
pub proof fn lemma_split(a: Seq<u8>, b: Seq<u8>, c: Seq<u8>, d: Seq<u8>)
    requires
        a + b == c + d,
        a.len() == c.len(),
    ensures
        a == c,
        b == d,
{
    assert(a =~= (a + b).subrange(0, a.len() as int));
    assert(c =~= (c + d).subrange(0, c.len() as int));
    assert(b =~= (a + b).subrange(a.len() as int, (a + b).len() as int));
    assert(d =~= (c + d).subrange(c.len() as int, (c + d).len() as int));
}

proof fn lemma_be_u32_injective(x: u32, y: u32)
    requires
        be_u32(x) == be_u32(y),
    ensures
        x == y,
{
    assert(be_u32(x)[0] == be_u32(y)[0]);
    assert(be_u32(x)[1] == be_u32(y)[1]);
    assert(be_u32(x)[2] == be_u32(y)[2]);
    assert(be_u32(x)[3] == be_u32(y)[3]);
    assert(((x >> 24u32) as u8 == (y >> 24u32) as u8 && (x >> 16u32) as u8 == (y >> 16u32) as u8
        && (x >> 8u32) as u8 == (y >> 8u32) as u8 && x as u8 == y as u8) ==> x == y) by (bit_vector);
}

proof fn lemma_be_u64_injective(x: u64, y: u64)
    requires
        be_u64(x) == be_u64(y),
    ensures
        x == y,
{
    lemma_split(be_u32((x >> 32u64) as u32), be_u32(x as u32), be_u32((y >> 32u64) as u32), be_u32(y as u32));
    lemma_be_u32_injective((x >> 32u64) as u32, (y >> 32u64) as u32);
    lemma_be_u32_injective(x as u32, y as u32);
    assert(((x >> 32u64) as u32 == (y >> 32u64) as u32 && x as u32 == y as u32) ==> x == y) by (bit_vector);
}

proof fn lemma_u128_halves_injective(x: u128, y: u128)
    requires
        be_u64((x >> 64u128) as u64) + be_u64(x as u64) == be_u64((y >> 64u128) as u64) + be_u64(y as u64),
    ensures
        x == y,
{
    lemma_split(be_u64((x >> 64u128) as u64), be_u64(x as u64), be_u64((y >> 64u128) as u64), be_u64(y as u64));
    lemma_be_u64_injective((x >> 64u128) as u64, (y >> 64u128) as u64);
    lemma_be_u64_injective(x as u64, y as u64);
    assert(((x >> 64u128) as u64 == (y >> 64u128) as u64 && x as u64 == y as u64) ==> x == y) by (bit_vector);
}

/// An address encoding followed by anything determines the address and what follows.
proof fn lemma_address_prefix(a1: Addr, r1: Seq<u8>, a2: Addr, r2: Seq<u8>)
    requires
        xdr_address(a1) + r1 == xdr_address(a2) + r2,
    ensures
        a1 == a2,
        r1 == r2,
{
    let t1 = be_u32(address_kind_tag(a1.kind));
    let t2 = be_u32(address_kind_tag(a2.kind));
    assert(xdr_address(a1) + r1 =~= be_u32(18) + (t1 + (address_body(a1) + r1)));
    assert(xdr_address(a2) + r2 =~= be_u32(18) + (t2 + (address_body(a2) + r2)));
    lemma_split(be_u32(18), t1 + (address_body(a1) + r1), be_u32(18), t2 + (address_body(a2) + r2));
    lemma_split(t1, address_body(a1) + r1, t2, address_body(a2) + r2);
    lemma_be_u32_injective(address_kind_tag(a1.kind), address_kind_tag(a2.kind));
    assert(a1.kind == a2.kind);
    assert(a1.key@.len() == 32 && a2.key@.len() == 32);
    match a1.kind {
        AddrKind::Account => {
            assert(address_body(a1) + r1 =~= be_u32(0) + (a1.key@ + r1));
            assert(address_body(a2) + r2 =~= be_u32(0) + (a2.key@ + r2));
            lemma_split(be_u32(0), a1.key@ + r1, be_u32(0), a2.key@ + r2);
            lemma_split(a1.key@, r1, a2.key@, r2);
        },
        AddrKind::Contract => {
            lemma_split(a1.key@, r1, a2.key@, r2);
        },
    }
    assert forall|i: int| 0 <= i < 32 implies a1.key[i] == a2.key[i] by {
        assert(a1.key@[i] == a2.key@[i]);
    }
    assert(a1.key =~= a2.key);
}

/// Law of the leaf encoding: distinct leaves `(vault, epoch, deposit, owner,
/// amount)` have distinct encodings.
pub proof fn law_leaf_tuple_xdr_injective(
    v1: Addr,
    e1: u32,
    d1: u64,
    o1: Addr,
    a1: u128,
    v2: Addr,
    e2: u32,
    d2: u64,
    o2: Addr,
    a2: u128,
)
    requires
        leaf_tuple_xdr(v1, e1, d1, o1, a1) == leaf_tuple_xdr(v2, e2, d2, o2, a2),
    ensures
        v1 == v2,
        e1 == e2,
        d1 == d2,
        o1 == o2,
        a1 == a2,
{
    let tail1 = xdr_u32(e1) + (xdr_u64(d1) + (xdr_address(o1) + xdr_u128(a1)));
    let tail2 = xdr_u32(e2) + (xdr_u64(d2) + (xdr_address(o2) + xdr_u128(a2)));
    lemma_split(be_u32(16), be_u32(1) + (be_u32(5) + (xdr_address(v1) + tail1)), be_u32(16), be_u32(1) + (
    be_u32(5) + (xdr_address(v2) + tail2)));
    lemma_split(be_u32(1), be_u32(5) + (xdr_address(v1) + tail1), be_u32(1), be_u32(5) + (xdr_address(v2)
        + tail2));
    lemma_split(be_u32(5), xdr_address(v1) + tail1, be_u32(5), xdr_address(v2) + tail2);
    lemma_address_prefix(v1, tail1, v2, tail2);
    let rest1 = xdr_u64(d1) + (xdr_address(o1) + xdr_u128(a1));
    let rest2 = xdr_u64(d2) + (xdr_address(o2) + xdr_u128(a2));
    assert(tail1 =~= be_u32(3) + (be_u32(e1) + rest1));
    assert(tail2 =~= be_u32(3) + (be_u32(e2) + rest2));
    lemma_split(be_u32(3), be_u32(e1) + rest1, be_u32(3), be_u32(e2) + rest2);
    lemma_split(be_u32(e1), rest1, be_u32(e2), rest2);
    lemma_be_u32_injective(e1, e2);
    let last1 = xdr_address(o1) + xdr_u128(a1);
    let last2 = xdr_address(o2) + xdr_u128(a2);
    assert(rest1 =~= be_u32(5) + (be_u64(d1) + last1));
    assert(rest2 =~= be_u32(5) + (be_u64(d2) + last2));
    lemma_split(be_u32(5), be_u64(d1) + last1, be_u32(5), be_u64(d2) + last2);
    lemma_split(be_u64(d1), last1, be_u64(d2), last2);
    lemma_be_u64_injective(d1, d2);
    lemma_address_prefix(o1, xdr_u128(a1), o2, xdr_u128(a2));
    lemma_split(be_u32(9), be_u64((a1 >> 64u128) as u64) + be_u64(a1 as u64), be_u32(9), be_u64(
        (a2 >> 64u128) as u64,
    ) + be_u64(a2 as u64));
    lemma_u128_halves_injective(a1, a2);
}

} // verus!
