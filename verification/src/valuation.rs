//! Total assets, and the redemption rate they give.

use crate::decimal::{ratio_representable, scaled_quotient, Decimal, DECIMAL_FRACTIONAL};
use crate::error::ValuationError;
use vstd::prelude::*;

verus! {

/// Everything the vault holds, each amount already in base units of the
/// unit-of-account asset.
#[derive(Clone, Copy, Debug, PartialEq, Eq, Structural)]
pub struct Holdings {
    /// Pending in the deposit account on the issuance domain.
    pub issuance_deposit: u128,
    /// In flight in the inbound relay account on the intermediary domain.
    pub relay: u128,
    /// Pending in the deposit account on the settlement domain.
    pub settlement_deposit: u128,
    /// What liquidating the position yields directly in the unit of account.
    pub position_unit: u128,
    /// What swapping the position's other asset into the unit of account
    /// would yield.
    pub position_swapped: u128,
}

impl Holdings {
    /// The sum of all holdings, unbounded.
    pub open spec fn total(&self) -> nat {
        (self.relay + self.settlement_deposit + self.issuance_deposit + self.position_unit
            + self.position_swapped) as nat
    }

    /// The sum of all holdings, or `None` when it exceeds 128 bits.
    pub fn total_assets(&self) -> (r: Option<u128>)
        ensures
            self.total() <= u128::MAX ==> r == Some(self.total() as u128),
            self.total() > u128::MAX ==> r is None,
    {
        let pending = match self.relay.checked_add(self.settlement_deposit) {
            Some(sum) => sum,
            None => { return None; },
        };
        let deposits = match pending.checked_add(self.issuance_deposit) {
            Some(sum) => sum,
            None => { return None; },
        };
        let with_unit = match deposits.checked_add(self.position_unit) {
            Some(sum) => sum,
            None => { return None; },
        };
        with_unit.checked_add(self.position_swapped)
    }
}

/// One valuation, computed afresh from the state read at one invocation.
#[derive(Clone, Copy, Debug, PartialEq, Eq, Structural)]
pub struct ValuationSnapshot {
    pub total_shares: u128,
    pub total_assets: u128,
    pub redemption_rate: Decimal,
}

impl ValuationSnapshot {
    /// Whether the rate is the one that the shares and the assets give.
    pub open spec fn wf(&self) -> bool {
        rate_of(self.total_shares as nat, self.total_assets as nat) == Ok::<
            Decimal,
            ValuationError,
        >(self.redemption_rate)
    }

    /// Whether the rate is the default of `1.0` that a vault without
    /// assets is given, and no quotient. A caller reports this alongside
    /// the rate.
    pub fn rate_defaulted(&self) -> (r: bool)
        ensures
            r == (self.total_assets == 0),
    {
        self.total_assets == 0
    }
}

/// The redemption rate that shares and assets give: `1.0` for a vault
/// without assets; otherwise shares over assets, rounded toward zero to 18
/// fractional digits, where a decimal can hold it, and no rate where it
/// cannot.
pub open spec fn rate_of(total_shares: nat, total_assets: nat) -> Result<Decimal, ValuationError> {
    if total_assets == 0 {
        Ok(Decimal { atomics: DECIMAL_FRACTIONAL })
    } else if scaled_quotient(total_shares, total_assets) <= u128::MAX {
        Ok(Decimal { atomics: scaled_quotient(total_shares, total_assets) as u128 })
    } else {
        Err(ValuationError::RateOverflow)
    }
}

/// The snapshot that `total_shares` and `total_assets` give, where they
/// give a rate.
pub open spec fn snapshot_of(total_shares: u128, total_assets: u128) -> Result<
    ValuationSnapshot,
    ValuationError,
> {
    match rate_of(total_shares as nat, total_assets as nat) {
        Ok(redemption_rate) => Ok(ValuationSnapshot { total_shares, total_assets, redemption_rate }),
        Err(e) => Err(e),
    }
}

/// The redemption rate of a vault with `total_shares` outstanding against
/// `total_assets`.
///
/// A vault without assets is valued at `1.0`, whatever its shares, so that
/// a vault with no deposits yet can start. With assets the rate is the
/// quotient, and a quotient too large for a decimal is an error: it is
/// never passed off as `1.0`.
pub fn redemption_rate(total_shares: u128, total_assets: u128) -> (r: Result<
    Decimal,
    ValuationError,
>)
    ensures
        r == rate_of(total_shares as nat, total_assets as nat),
        total_assets == 0 ==> r == Ok::<Decimal, ValuationError>(
            Decimal { atomics: DECIMAL_FRACTIONAL },
        ),
        ratio_representable(total_shares as nat, total_assets as nat) ==> r == Ok::<
            Decimal,
            ValuationError,
        >(Decimal { atomics: scaled_quotient(total_shares as nat, total_assets as nat) as u128 }),
        total_assets > 0 && !ratio_representable(total_shares as nat, total_assets as nat) ==> r
            == Err::<Decimal, ValuationError>(ValuationError::RateOverflow),
        total_assets > 0 ==> (r matches Ok(rate) ==> rate@ == (total_shares * DECIMAL_FRACTIONAL)
            / (total_assets as int)),
{
    if total_assets == 0 {
        return Ok(Decimal::one());
    }
    match Decimal::from_ratio(total_shares, total_assets) {
        Some(ratio) => Ok(ratio),
        None => Err(ValuationError::RateOverflow),
    }
}

/// A rate of `1.0` has one of two reasons: the vault has no assets, or the
/// quotient of shares over assets is `1.0` itself. A quotient that cannot
/// be held never shows as `1.0`.
pub proof fn lemma_one_means_no_assets_or_par(total_shares: nat, total_assets: nat)
    requires
        rate_of(total_shares, total_assets) == Ok::<Decimal, ValuationError>(
            Decimal { atomics: DECIMAL_FRACTIONAL },
        ),
    ensures
        total_assets == 0 || scaled_quotient(total_shares, total_assets) == DECIMAL_FRACTIONAL,
{
}

/// Values a vault from its outstanding shares and its holdings.
pub fn value_vault(total_shares: u128, holdings: &Holdings) -> (r: Result<
    ValuationSnapshot,
    ValuationError,
>)
    ensures
        holdings.total() > u128::MAX ==> r == Err::<ValuationSnapshot, ValuationError>(
            ValuationError::AssetOverflow,
        ),
        holdings.total() <= u128::MAX ==> r == snapshot_of(
            total_shares,
            holdings.total() as u128,
        ),
        r matches Ok(snapshot) ==> snapshot.wf(),
{
    let total_assets = match holdings.total_assets() {
        Some(total) => total,
        None => { return Err(ValuationError::AssetOverflow); },
    };
    match redemption_rate(total_shares, total_assets) {
        Ok(redemption_rate) => Ok(ValuationSnapshot { total_shares, total_assets, redemption_rate }),
        Err(e) => Err(e),
    }
}

} // verus!
