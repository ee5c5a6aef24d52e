//! The independent ledgers a vault's assets are spread over.

use vstd::prelude::*;

verus! {

/// An independent ledger with its own address space and query semantics.
#[derive(Clone, Copy, Debug, PartialEq, Eq, Structural)]
pub enum Domain {
    /// Where the vault lives and issues its shares.
    Issuance,
    /// Where the liquidity-pool position is held.
    Settlement,
    /// The custodial ledger that relays transfers between the other two.
    Intermediary,
}

} // verus!
