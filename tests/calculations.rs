use re_dao::calculations::{
    bond_amount, bond_reward, emissions_at_epoch, epoch_emission_rate, epoch_emissions, fee,
    floor_price, geometric_emissions_at_epoch, next_halving_at, reserve, surplus,
    total_emissions_at_epoch, HalvingSeries,
};
use re_dao::errors::{CustomErrorCode, OrArithError};

const ARITH: Result<u64, CustomErrorCode> = Err(CustomErrorCode::ArithmeticError);

#[test]
fn fee_is_five_percent_of_a_million() {
    assert_eq!(fee(1_000_000, 5_000, 100_000), Ok(50_000));
}

#[test]
fn fee_rounds_down() {
    assert_eq!(fee(999, 1, 10), Ok(99));
}

#[test]
fn fee_fails_on_zero_denominator_and_overflow() {
    assert_eq!(fee(1, 1, 0), ARITH);
    assert_eq!(fee(u64::MAX, 2, 100_000), ARITH);
}

#[test]
fn epoch_emissions_halve() {
    assert_eq!(epoch_emissions(0, 1_000_000), Ok(1_000_000));
    assert_eq!(epoch_emissions(1, 1_000_000), Ok(500_000));
    assert_eq!(epoch_emissions(10, 1_000_000), Ok(976));
}

#[test]
fn epoch_emissions_fail_when_the_divisor_overflows() {
    assert_eq!(epoch_emissions(63, u64::MAX), Ok(1));
    assert_eq!(epoch_emissions(64, 1_000_000), ARITH);
}

#[test]
fn epoch_emission_rate_halves() {
    assert_eq!(epoch_emission_rate(2, 1_000), Ok(250));
    assert_eq!(epoch_emission_rate(64, 1_000), ARITH);
}

#[test]
fn truncated_series_is_zero_then_genesis() {
    assert_eq!(total_emissions_at_epoch(1_000, 0), Ok(0));
    assert_eq!(total_emissions_at_epoch(1_000, 1), Ok(1_000));
    assert_eq!(total_emissions_at_epoch(1_000, 5), Ok(1_000));
    assert_eq!(total_emissions_at_epoch(1_000, 64), Ok(1_000));
    assert_eq!(total_emissions_at_epoch(1_000, 65), ARITH);
}

#[test]
fn geometric_series_sums_the_epochs() {
    assert_eq!(geometric_emissions_at_epoch(1_000, 0), Ok(0));
    assert_eq!(geometric_emissions_at_epoch(1_000, 3), Ok(1_750));
    assert_eq!(geometric_emissions_at_epoch(u64::MAX, 2), ARITH);
    assert_eq!(geometric_emissions_at_epoch(1_000, 65), ARITH);
}

#[test]
fn series_selection() {
    assert_eq!(emissions_at_epoch(HalvingSeries::Truncated, 1_000, 3), Ok(1_000));
    assert_eq!(emissions_at_epoch(HalvingSeries::Geometric, 1_000, 3), Ok(1_750));
    assert_eq!(next_halving_at(HalvingSeries::Truncated, 1_000, 1), Ok(1_000));
    assert_eq!(next_halving_at(HalvingSeries::Geometric, 1_000, 1), Ok(1_500));
    assert_eq!(next_halving_at(HalvingSeries::Geometric, 1_000, u32::MAX), ARITH);
}

#[test]
fn surplus_subtracts_or_fails() {
    assert_eq!(surplus(10, 3), Ok(7));
    assert_eq!(surplus(3, 10), ARITH);
}

#[test]
fn reserve_scales_down_by_decimals() {
    assert_eq!(reserve(2_000_000_000, 5, 9), Ok(10));
    assert_eq!(reserve(1, 1, 20), ARITH);
    assert_eq!(reserve(u64::MAX, 2, 0), ARITH);
}

#[test]
fn floor_price_scales_up_by_decimals() {
    assert_eq!(floor_price(10, 4, 9), Ok(2_500_000_000));
    assert_eq!(floor_price(u64::MAX, 1, 1), ARITH);
}

#[test]
fn floor_price_with_zero_supply_fails() {
    for x in [0u64, 1, 12_345, u64::MAX] {
        assert_eq!(floor_price(x, 0, 9), ARITH);
    }
}

#[test]
fn bond_reward_applies_rate_cost_and_multiplier() {
    assert_eq!(bond_reward(10_000, 1_000, 1_000, 150_000, 100_000), Ok(15_000));
    assert_eq!(bond_reward(12_345, 1_000, 7, 150_000, 100_000), Ok(129));
}

#[test]
fn bond_reward_fails_when_out_of_range() {
    assert_eq!(bond_reward(1, 0, 1, 1, 1), ARITH);
    assert_eq!(bond_reward(1, 1, 1, 1, 0), ARITH);
    assert_eq!(bond_reward(u64::MAX, 1, u64::MAX, 1, 1), ARITH);
}

#[test]
fn bond_reward_uses_wide_intermediates() {
    // amount * emissions overflows 64 bits but the reward fits
    assert_eq!(bond_reward(u64::MAX, u64::MAX, 1_000, 100_000, 100_000), Ok(1_000));
}

#[test]
fn bond_amount_inverts_exactly_divisible_reward() {
    assert_eq!(bond_amount(15_000, 1_000, 1_000, 150_000, 100_000), Ok(10_000));
    assert_eq!(bond_amount(1, 1, 0, 1, 1), ARITH);
    assert_eq!(bond_amount(u64::MAX, 1, 1, 1, 2), ARITH);
}

#[test]
fn bond_amount_round_trip_within_rounding() {
    let (a, c, e, m, b) = (12_345u64, 1_000u64, 7u64, 150_000u64, 100_000u32);
    let reward = bond_reward(a, c, e, m, b).unwrap();
    let back = bond_amount(reward, c, e, m, b).unwrap();
    assert_eq!(back, 12_285);
    assert!(back <= a);
    let slack = (a - back) as u128 * (m as u128 * e as u128);
    let bound = c as u128 * m as u128 + b as u128 * c as u128 + m as u128 * e as u128;
    assert!(slack < bound);
}

#[test]
fn or_arith_error_maps_none() {
    assert_eq!(Some(5u64).or_arith_error(), Ok(5));
    assert_eq!(None::<u8>.or_arith_error(), Err(CustomErrorCode::ArithmeticError));
}
