//! Why a valuation yields no result.

use vstd::prelude::*;

verus! {

/// A read that a domain query client could not complete.
#[derive(Clone, Copy, Debug, PartialEq, Eq, Structural)]
pub struct QueryFailure;

/// What aborts a computation. There is no partial result: any of these
/// ends the invocation.
#[derive(Clone, Copy, Debug, PartialEq, Eq, Structural)]
pub enum ValuationError {
    /// A domain query client reported a failed read.
    QueryFailure,
    /// A read came back with text that is not an amount of at most 128 bits.
    ParseFailure,
    /// The holdings add up to more than 128 bits can hold.
    AssetOverflow,
    /// There are assets, and shares over assets is more than a decimal can
    /// hold.
    RateOverflow,
}

} // verus!
