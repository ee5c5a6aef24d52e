//! Fixed-point decimals with 18 fractional digits.

use vstd::prelude::*;

verus! {

/// Atomic units in one whole.
pub const DECIMAL_FRACTIONAL: u128 = 1_000_000_000_000_000_000;

/// A non-negative fixed-point number, held as a count of atomic units of
/// `10^-18`. Its view is that count.
#[derive(Clone, Copy, Debug, PartialEq, Eq, Structural)]
pub struct Decimal {
    pub atomics: u128,
}

impl View for Decimal {
    type V = nat;

    open spec fn view(&self) -> nat {
        self.atomics as nat
    }
}

/// `numerator / denominator` in atomic units, rounded toward zero.
pub open spec fn scaled_quotient(numerator: nat, denominator: nat) -> nat
    recommends
        denominator > 0,
{
    (numerator * (DECIMAL_FRACTIONAL as nat)) / denominator
}

/// Whether `numerator / denominator` is defined and fits a `Decimal`.
pub open spec fn ratio_representable(numerator: nat, denominator: nat) -> bool {
    denominator > 0 && scaled_quotient(numerator, denominator) <= u128::MAX
}

/// Declares `cosmwasm_std::CheckedFromRatioError`, the error of
/// `cosmwasm_std::Decimal::checked_from_ratio`. Nothing is read of it.
#[verifier::external_type_specification]
#[verifier::external_body]
pub struct ExCheckedFromRatioError(cosmwasm_std::CheckedFromRatioError);

/// Calls `cosmwasm_std::Decimal::checked_from_ratio` and hands back the
/// atomics of its result.
///
/// Trusted: the call succeeds exactly when the denominator is not zero and
/// the quotient, scaled by `10^18` and floored, fits 128 bits; on success
/// the result holds that quotient.
#[verifier::external_body]
fn checked_from_ratio(numerator: u128, denominator: u128) -> (r: Result<
    Decimal,
    cosmwasm_std::CheckedFromRatioError,
>)
    ensures
        r is Ok <==> ratio_representable(numerator as nat, denominator as nat),
        r matches Ok(d) ==> d@ == scaled_quotient(numerator as nat, denominator as nat),
{
    match cosmwasm_std::Decimal::checked_from_ratio(numerator, denominator) {
        Ok(d) => Ok(Decimal { atomics: d.atomics().u128() }),
        Err(e) => Err(e),
    }
}

impl Decimal {
    /// The decimal `1.0`.
    pub fn one() -> (r: Decimal)
        ensures
            r@ == DECIMAL_FRACTIONAL,
    {
        Decimal { atomics: DECIMAL_FRACTIONAL }
    }

    /// The decimal made of `atomics` atomic units.
    pub fn raw(atomics: u128) -> (r: Decimal)
        ensures
            r@ == atomics,
    {
        Decimal { atomics }
    }

    /// The number of atomic units this decimal holds.
    pub fn atomics(&self) -> (r: u128)
        ensures
            r == self@,
    {
        self.atomics
    }

    /// `numerator / denominator`, rounded toward zero to 18 fractional
    /// digits; `None` when the denominator is zero or the quotient is too
    /// large to hold.
    pub fn from_ratio(numerator: u128, denominator: u128) -> (r: Option<Decimal>)
        ensures
            r is Some <==> ratio_representable(numerator as nat, denominator as nat),
            r matches Some(d) ==> d@ == scaled_quotient(numerator as nat, denominator as nat),
    {
        match checked_from_ratio(numerator, denominator) {
            Ok(d) => Some(d),
            Err(_) => None,
        }
    }
}

/// Truncation: the quotient in atomic units is the largest count `q` with
/// `q * denominator <= numerator * 10^18`.
pub proof fn lemma_scaled_quotient_truncates(numerator: nat, denominator: nat)
    requires
        denominator > 0,
    ensures
        scaled_quotient(numerator, denominator) * denominator <= numerator * (
        DECIMAL_FRACTIONAL as nat),
        numerator * (DECIMAL_FRACTIONAL as nat) < (scaled_quotient(numerator, denominator) + 1)
            * denominator,
{
    let scaled = (numerator * (DECIMAL_FRACTIONAL as nat)) as int;
    let d = denominator as int;
    vstd::arithmetic::div_mod::lemma_fundamental_div_mod(scaled, d);
    vstd::arithmetic::div_mod::lemma_mod_bound(scaled, d);
    assert((scaled / d) * d == d * (scaled / d)) by (nonlinear_arith);
    assert((scaled / d + 1) * d == d * (scaled / d) + d) by (nonlinear_arith);
}

} // verus!
