//! The withdrawal fee and its cap.

use crate::error::{QueryFailure, ValuationError};
use vstd::prelude::*;

verus! {

/// The flat withdrawal fee candidate, in basis points.
///
/// This stands in for a fee composed of a vault-level and a position-level
/// part, whose composition is not settled yet. `candidate_fee` is the one
/// place that hands it out.
pub const FLAT_WITHDRAW_FEE_BPS: u32 = 100;

/// What the fee computation reads of the vault's configuration.
#[derive(Clone, Copy, Debug, PartialEq, Eq, Structural)]
pub struct VaultConfig {
    /// The highest withdrawal fee the vault accepts, in basis points.
    pub max_withdraw_fee_bps: u32,
}

/// A withdrawal fee together with what it was derived from.
#[derive(Clone, Copy, Debug, PartialEq, Eq, Structural)]
pub struct FeeAssessment {
    /// The fee to charge, in basis points.
    pub fee_bps: u32,
    /// The fee before the cap was applied.
    pub candidate_bps: u32,
    /// The cap that was applied.
    pub max_withdraw_fee_bps: u32,
}

/// The smaller of a candidate fee and the cap.
pub open spec fn capped_fee(candidate_bps: u32, max_withdraw_fee_bps: u32) -> u32 {
    if candidate_bps > max_withdraw_fee_bps {
        max_withdraw_fee_bps
    } else {
        candidate_bps
    }
}

/// The assessment of a candidate fee under a cap.
pub open spec fn assessment_of(candidate_bps: u32, max_withdraw_fee_bps: u32) -> FeeAssessment {
    FeeAssessment {
        fee_bps: capped_fee(candidate_bps, max_withdraw_fee_bps),
        candidate_bps,
        max_withdraw_fee_bps,
    }
}

impl FeeAssessment {
    /// Whether the fee is the candidate capped at the maximum.
    pub open spec fn wf(&self) -> bool {
        self.fee_bps == capped_fee(self.candidate_bps, self.max_withdraw_fee_bps)
    }

    /// Whether the candidate exceeded the cap.
    pub open spec fn clamped(&self) -> bool {
        self.candidate_bps > self.max_withdraw_fee_bps
    }

    /// Whether the candidate exceeded the cap, so that the cap is charged
    /// in its place. A caller reports this as a warning naming
    /// `candidate_bps` and `max_withdraw_fee_bps`.
    pub fn was_clamped(&self) -> (r: bool)
        ensures
            r == self.clamped(),
    {
        self.candidate_bps > self.max_withdraw_fee_bps
    }
}

/// The fee that the reply to the read of the vault's configuration gives.
pub open spec fn fee_of(config: Result<VaultConfig, QueryFailure>) -> Result<
    FeeAssessment,
    ValuationError,
> {
    match config {
        Ok(c) => Ok(assessment_of(FLAT_WITHDRAW_FEE_BPS, c.max_withdraw_fee_bps)),
        Err(_) => Err(ValuationError::QueryFailure),
    }
}

/// The fee candidate before capping.
pub fn candidate_fee() -> (r: u32)
    ensures
        r == FLAT_WITHDRAW_FEE_BPS,
{
    FLAT_WITHDRAW_FEE_BPS
}

/// Caps a candidate fee at the vault's maximum.
pub fn clamp_fee(candidate_bps: u32, max_withdraw_fee_bps: u32) -> (r: FeeAssessment)
    ensures
        r == assessment_of(candidate_bps, max_withdraw_fee_bps),
        r.wf(),
        r.clamped() <==> candidate_bps > max_withdraw_fee_bps,
        r.fee_bps <= max_withdraw_fee_bps,
        r.fee_bps <= candidate_bps,
        r.fee_bps == candidate_bps || r.fee_bps == max_withdraw_fee_bps,
{
    let fee_bps = if candidate_bps > max_withdraw_fee_bps {
        max_withdraw_fee_bps
    } else {
        candidate_bps
    };
    FeeAssessment { fee_bps, candidate_bps, max_withdraw_fee_bps }
}

/// The withdrawal fee, given the reply to the read of the vault's
/// configuration: the flat candidate capped at the configured maximum, or
/// the failure of that read.
pub fn calculate_total_fee(config: Result<VaultConfig, QueryFailure>) -> (r: Result<
    FeeAssessment,
    ValuationError,
>)
    ensures
        r == fee_of(config),
        config matches Ok(c) ==> r matches Ok(a) && a.fee_bps == capped_fee(
            FLAT_WITHDRAW_FEE_BPS,
            c.max_withdraw_fee_bps,
        ),
        config is Err ==> r == Err::<FeeAssessment, ValuationError>(ValuationError::QueryFailure),
{
    match config {
        Ok(c) => Ok(clamp_fee(candidate_fee(), c.max_withdraw_fee_bps)),
        Err(_) => Err(ValuationError::QueryFailure),
    }
}

/// A fee never exceeds the cap it was assessed under, nor the candidate
/// it started from, and it is one of the two.
pub proof fn lemma_fee_within_cap(candidate_bps: u32, max_withdraw_fee_bps: u32)
    ensures
        capped_fee(candidate_bps, max_withdraw_fee_bps) <= max_withdraw_fee_bps,
        capped_fee(candidate_bps, max_withdraw_fee_bps) <= candidate_bps,
        capped_fee(candidate_bps, max_withdraw_fee_bps) == candidate_bps || capped_fee(
            candidate_bps,
            max_withdraw_fee_bps,
        ) == max_withdraw_fee_bps,
        assessment_of(candidate_bps, max_withdraw_fee_bps).wf(),
{
}

/// The fee is a function of the configuration read: two invocations that
/// read the same cap, or both fail to, end the same.
pub proof fn lemma_same_config_same_fee(
    a: Result<VaultConfig, QueryFailure>,
    b: Result<VaultConfig, QueryFailure>,
)
    requires
        a is Ok <==> b is Ok,
        a is Ok ==> a->Ok_0.max_withdraw_fee_bps == b->Ok_0.max_withdraw_fee_bps,
    ensures
        fee_of(a) == fee_of(b),
{
}

} // verus!
