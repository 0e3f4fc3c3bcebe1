use crate::address::Addr;
use vstd::prelude::*;

verus! {

/// The outcome of a contract call together with the party whose
/// authorization the call asks for: `None` when the call is refused before
/// it asks for any.
#[derive(Clone, Debug, PartialEq, Eq)]
pub struct Authorized<T> {
    pub authorizer: Option<Addr>,
    pub outcome: T,
}

} // verus!
