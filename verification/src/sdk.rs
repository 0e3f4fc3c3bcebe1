//! The calls into `soroban_sdk` that the verified logic makes, each behind a
//! trusted item whose contract Verus takes without proof.
use crate::address::{Addr, AddrKind};
use crate::xdr::leaf_tuple_xdr;
use soroban_sdk::address_payload::AddressPayload;
use soroban_sdk::xdr::ToXdr;
use soroban_sdk::{Bytes, BytesN};
use vstd::prelude::*;

verus! {

/// The Soroban host environment, carried through opaquely: it is what the
/// hashing and encoding calls run in.
#[verifier::external_type_specification]
#[verifier::external_body]
pub struct ExEnv(soroban_sdk::Env);

/// The SHA-256 digest of a byte string, as the Soroban host computes it.
pub uninterp spec fn sha256_digest(data: Seq<u8>) -> Seq<u8>;

/// Calls `soroban_sdk::crypto::Crypto::sha256` on `data`.
/// Trusted: the 32 bytes returned are `sha256_digest(data@)`, a function of the
/// input bytes alone. Nothing is said about the host running out of budget.
#[verifier::external_body]
pub(crate) fn sha256(e: &soroban_sdk::Env, data: &Vec<u8>) -> (res: [u8; 32])
    ensures
        res@ == sha256_digest(data@),
{
    e.crypto().sha256(&Bytes::from_slice(e, data.as_slice())).to_array()
}

/// Calls `ToXdr::to_xdr` on the tuple `(vault, epoch, deposit_id, owner, amount)`,
/// each address turned into a `soroban_sdk::Address` by
/// `AddressPayload::to_address` (account key or contract hash).
/// Trusted: the bytes returned are `leaf_tuple_xdr` of the arguments: the
/// `ScVal` encoding that the host's `serialize_to_bytes` writes for them.
#[verifier::external_body]
pub(crate) fn leaf_tuple_to_xdr(
    e: &soroban_sdk::Env,
    vault: &Addr,
    epoch: u32,
    deposit_id: u64,
    owner: &Addr,
    amount: u128,
) -> (res: Vec<u8>)
    ensures
        res@ == leaf_tuple_xdr(*vault, epoch, deposit_id, *owner, amount),
{
    let to_address = |a: &Addr| match a.kind {
        AddrKind::Account => AddressPayload::AccountIdPublicKeyEd25519(BytesN::from_array(e, &a.key)),
        AddrKind::Contract => AddressPayload::ContractIdHash(BytesN::from_array(e, &a.key)),
    }.to_address(e);
    let tuple = (to_address(vault), epoch, deposit_id, to_address(owner), amount);
    tuple.to_xdr(e).iter().collect()
}

} // verus!
