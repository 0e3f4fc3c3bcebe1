use vstd::prelude::*;

verus! {

/// Which kind of ledger entity an address designates.
#[derive(Clone, Copy, Debug, PartialEq, Eq, Hash)]
pub enum AddrKind {
    /// An account, named by its Ed25519 public key (`G...`).
    Account,
    /// A contract, named by its contract id hash (`C...`).
    Contract,
}

/// A Stellar address held as a plain value: its kind and its 32-byte payload.
#[derive(Clone, Copy, Debug, PartialEq, Eq, Hash)]
pub struct Addr {
    pub kind: AddrKind,
    pub key: [u8; 32],
}

impl Addr {
    /// The address of the account with the given Ed25519 public key.
    pub fn account(key: [u8; 32]) -> (r: Addr)
        ensures
            r.kind == AddrKind::Account,
            r.key == key,
    {
        Addr { kind: AddrKind::Account, key }
    }

    /// The address of the contract with the given id hash.
    pub fn contract(key: [u8; 32]) -> (r: Addr)
        ensures
            r.kind == AddrKind::Contract,
            r.key == key,
    {
        Addr { kind: AddrKind::Contract, key }
    }
}

} // verus!
