use vstd::prelude::*;

verus! {

/// Ledgers closed in a week (one ledger every five seconds): the minimal time
/// to live the contracts keep.
pub const LEDGER_WEEK: u32 = 120960;

/// Ledgers closed in thirty days: the time to live the contracts extend to.
pub const LEDGER_MONTH: u32 = 518400;

/// One unit of a seven-decimal Stellar asset.
pub const SCALAR_7: u128 = 10000000;

} // verus!
