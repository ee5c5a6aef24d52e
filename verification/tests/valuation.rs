use vault_valuation::decimal::{Decimal, DECIMAL_FRACTIONAL};
use vault_valuation::error::ValuationError;
use vault_valuation::valuation::{redemption_rate, value_vault, Holdings, ValuationSnapshot};

fn holdings_of(total: u128) -> Holdings {
    Holdings {
        issuance_deposit: total,
        relay: 0,
        settlement_deposit: 0,
        position_unit: 0,
        position_swapped: 0,
    }
}

#[test]
fn empty_vault_is_valued_at_one() {
    assert_eq!(redemption_rate(0, 0), Ok(Decimal::one()));
    assert_eq!(redemption_rate(0, 0).unwrap().atomics(), 1_000_000_000_000_000_000);
}

#[test]
fn shares_without_assets_are_valued_at_one() {
    assert_eq!(redemption_rate(1, 0), Ok(Decimal::one()));
    assert_eq!(redemption_rate(123_456_789, 0), Ok(Decimal::one()));
    assert_eq!(redemption_rate(u128::MAX, 0), Ok(Decimal::one()));
}

#[test]
fn equal_shares_and_assets_give_one() {
    assert_eq!(redemption_rate(1_000_000, 1_000_000), Ok(Decimal::one()));
}

#[test]
fn nine_tenths() {
    let rate: Decimal = redemption_rate(900_000, 1_000_000).unwrap();
    assert_eq!(rate.atomics(), 900_000_000_000_000_000);
    assert_eq!(rate, Decimal::raw(900_000_000_000_000_000));
}

#[test]
fn rate_matches_cosmwasm_decimal() {
    let rate: Decimal = redemption_rate(900_000, 1_000_000).unwrap();
    assert_eq!(rate.atomics(), cosmwasm_std::Decimal::percent(90).atomics().u128());
    let third: Decimal = redemption_rate(1, 3).unwrap();
    assert_eq!(
        third.atomics(),
        cosmwasm_std::Decimal::from_ratio(1u128, 3u128).atomics().u128()
    );
}

#[test]
fn rate_is_truncated_toward_zero() {
    assert_eq!(redemption_rate(1, 3).unwrap().atomics(), 333_333_333_333_333_333);
    assert_eq!(redemption_rate(2, 3).unwrap().atomics(), 666_666_666_666_666_666);
    assert_eq!(redemption_rate(1, 7).unwrap().atomics(), 142_857_142_857_142_857);
    assert_eq!(redemption_rate(1, u128::MAX).unwrap().atomics(), 0);
}

#[test]
fn truncated_rate_brackets_the_quotient() {
    let shares: u128 = 1_234_567;
    let assets: u128 = 7_654_321;
    let rate: u128 = redemption_rate(shares, assets).unwrap().atomics();
    assert!(rate * assets <= shares * DECIMAL_FRACTIONAL);
    assert!(shares * DECIMAL_FRACTIONAL < (rate + 1) * assets);
}

#[test]
fn rate_above_one() {
    assert_eq!(redemption_rate(3, 2).unwrap().atomics(), 1_500_000_000_000_000_000);
    assert_eq!(redemption_rate(30, 15).unwrap().atomics(), 2_000_000_000_000_000_000);
}

#[test]
fn zero_shares_give_zero() {
    assert_eq!(redemption_rate(0, 5).unwrap().atomics(), 0);
}

#[test]
fn largest_rate_that_fits() {
    let shares: u128 = u128::MAX / DECIMAL_FRACTIONAL;
    assert_eq!(redemption_rate(shares, 1).unwrap().atomics(), shares * DECIMAL_FRACTIONAL);
}

#[test]
fn rate_too_large_to_hold_is_an_error() {
    let shares: u128 = u128::MAX / DECIMAL_FRACTIONAL + 1;
    assert_eq!(redemption_rate(shares, 1), Err(ValuationError::RateOverflow));
    assert_eq!(redemption_rate(u128::MAX, 1), Err(ValuationError::RateOverflow));
    assert_eq!(
        redemption_rate(1_000_000_000_000_000_000_000, 1),
        Err(ValuationError::RateOverflow)
    );
    assert_eq!(
        redemption_rate(u128::MAX, 1_000_000_000_000_000_000 - 1),
        Err(ValuationError::RateOverflow)
    );
}

#[test]
fn one_is_returned_only_for_no_assets_or_equal_amounts() {
    assert_ne!(redemption_rate(u128::MAX, 1), Ok(Decimal::one()));
    assert_ne!(redemption_rate(2, 1), Ok(Decimal::one()));
    assert_ne!(redemption_rate(1, 2), Ok(Decimal::one()));
    assert_eq!(redemption_rate(u128::MAX, 0), Ok(Decimal::one()));
    assert_eq!(redemption_rate(7, 7), Ok(Decimal::one()));
}

#[test]
fn rate_just_within_reach_of_large_amounts() {
    assert_eq!(
        redemption_rate(u128::MAX, 1_000_000_000_000_000_000),
        Ok(Decimal::raw(u128::MAX))
    );
    assert_eq!(redemption_rate(u128::MAX, u128::MAX), Ok(Decimal::one()));
}

#[test]
fn from_ratio_tells_failure_from_success() {
    assert_eq!(Decimal::from_ratio(1, 0), None);
    assert_eq!(Decimal::from_ratio(u128::MAX, 1), None);
    assert_eq!(Decimal::from_ratio(1, 2), Some(Decimal::raw(500_000_000_000_000_000)));
    assert_eq!(Decimal::from_ratio(5, 1), Some(Decimal::raw(5_000_000_000_000_000_000)));
}

#[test]
fn decimal_one_is_ten_to_the_eighteenth() {
    assert_eq!(DECIMAL_FRACTIONAL, 10u128.pow(18));
    assert_eq!(Decimal::one().atomics(), cosmwasm_std::Decimal::one().atomics().u128());
    assert_eq!(Decimal::raw(42).atomics(), 42);
}

#[test]
fn holdings_add_up() {
    let holdings = Holdings {
        issuance_deposit: 1,
        relay: 20,
        settlement_deposit: 300,
        position_unit: 4_000,
        position_swapped: 50_000,
    };
    assert_eq!(holdings.total_assets(), Some(54_321));
}

#[test]
fn holdings_at_the_limit() {
    let holdings = Holdings {
        issuance_deposit: u128::MAX - 10,
        relay: 1,
        settlement_deposit: 2,
        position_unit: 3,
        position_swapped: 4,
    };
    assert_eq!(holdings.total_assets(), Some(u128::MAX));
}

#[test]
fn holdings_past_the_limit() {
    let holdings = Holdings {
        issuance_deposit: u128::MAX - 10,
        relay: 1,
        settlement_deposit: 2,
        position_unit: 3,
        position_swapped: 5,
    };
    assert_eq!(holdings.total_assets(), None);
    let last_only = Holdings {
        issuance_deposit: 0,
        relay: 0,
        settlement_deposit: 0,
        position_unit: u128::MAX,
        position_swapped: 1,
    };
    assert_eq!(last_only.total_assets(), None);
    let first_two = Holdings {
        issuance_deposit: 0,
        relay: u128::MAX,
        settlement_deposit: 1,
        position_unit: 0,
        position_swapped: 0,
    };
    assert_eq!(first_two.total_assets(), None);
}

#[test]
fn value_vault_builds_the_snapshot() {
    let holdings = Holdings {
        issuance_deposit: 100_000,
        relay: 200_000,
        settlement_deposit: 300_000,
        position_unit: 250_000,
        position_swapped: 150_000,
    };
    assert_eq!(
        value_vault(900_000, &holdings),
        Ok(ValuationSnapshot {
            total_shares: 900_000,
            total_assets: 1_000_000,
            redemption_rate: Decimal::raw(900_000_000_000_000_000),
        })
    );
}

#[test]
fn value_vault_of_an_empty_vault() {
    assert_eq!(
        value_vault(0, &holdings_of(0)),
        Ok(ValuationSnapshot {
            total_shares: 0,
            total_assets: 0,
            redemption_rate: Decimal::one(),
        })
    );
}

#[test]
fn value_vault_reports_overflow() {
    let holdings = Holdings {
        issuance_deposit: u128::MAX,
        relay: 0,
        settlement_deposit: 0,
        position_unit: 0,
        position_swapped: 1,
    };
    assert_eq!(value_vault(5, &holdings), Err(ValuationError::AssetOverflow));
}

#[test]
fn same_inputs_same_rate() {
    assert_eq!(redemption_rate(17, 23), redemption_rate(17, 23));
    assert_eq!(value_vault(17, &holdings_of(23)), value_vault(17, &holdings_of(23)));
}

#[test]
fn snapshot_tells_when_the_rate_is_the_default() {
    assert!(value_vault(0, &holdings_of(0)).unwrap().rate_defaulted());
    assert!(value_vault(5, &holdings_of(0)).unwrap().rate_defaulted());
    assert!(value_vault(u128::MAX, &holdings_of(0)).unwrap().rate_defaulted());
    assert!(!value_vault(1_000_000, &holdings_of(1_000_000)).unwrap().rate_defaulted());
    assert!(!value_vault(0, &holdings_of(1)).unwrap().rate_defaulted());
}

#[test]
fn value_vault_reports_a_rate_too_large_to_hold() {
    assert_eq!(value_vault(u128::MAX, &holdings_of(1)), Err(ValuationError::RateOverflow));
    assert_eq!(
        value_vault(1_000_000_000_000_000_000_000, &holdings_of(1)),
        Err(ValuationError::RateOverflow)
    );
}

#[test]
fn value_vault_reports_asset_overflow_before_the_rate() {
    let holdings = Holdings {
        issuance_deposit: u128::MAX,
        relay: 1,
        settlement_deposit: 0,
        position_unit: 0,
        position_swapped: 0,
    };
    assert_eq!(value_vault(u128::MAX, &holdings), Err(ValuationError::AssetOverflow));
}
