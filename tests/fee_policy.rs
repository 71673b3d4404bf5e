use fee_adjustment::{
    calculate_fee, fee_for_multiplier, FeeAdjustmentContract, FeeError, FeeTier, BASE_FEE,
};

#[test]
fn low_tier_upper_boundary() {
    assert_eq!(calculate_fee(10, 5000), Ok(10));
}

#[test]
fn medium_tier_lower_boundary() {
    assert_eq!(calculate_fee(11, 5000), Ok(9));
}

#[test]
fn medium_tier_upper_boundary() {
    assert_eq!(calculate_fee(100, 5000), Ok(9));
}

#[test]
fn high_tier_lower_boundary() {
    assert_eq!(calculate_fee(101, 5000), Ok(9));
}

#[test]
fn zero_inputs_pay_base_fee() {
    assert_eq!(calculate_fee(0, 0), Ok(5));
    assert_eq!(BASE_FEE, 5);
}

#[test]
fn fee_never_below_base() {
    for &tx in &[0u32, 1, 10, 11, 100, 101, u32::MAX] {
        for &amount in &[0u32, 999, 1000, 5000, 123_456, u32::MAX] {
            let f = calculate_fee(tx, amount).unwrap();
            assert!(f >= BASE_FEE);
        }
    }
}

#[test]
fn small_amounts_pay_only_base_fee() {
    for &tx in &[0u32, 10, 11, 100, 101, u32::MAX] {
        for &amount in &[0u32, 1, 500, 999] {
            assert_eq!(calculate_fee(tx, amount), Ok(BASE_FEE));
        }
    }
    assert_eq!(calculate_fee(0, 1000), Ok(6));
}

#[test]
fn fee_grows_with_amount() {
    for &tx in &[5u32, 50, 500] {
        let mut last = 0u32;
        for amount in (0u32..100_000).step_by(250) {
            let f = calculate_fee(tx, amount).unwrap();
            assert!(f >= last);
            last = f;
        }
    }
}

#[test]
fn discount_orders_tiers() {
    // strict at both steps from 6000 on
    for &amount in &[6000u32, 10_000, 1_000_000] {
        let high = calculate_fee(101, amount).unwrap();
        let medium = calculate_fee(100, amount).unwrap();
        let low = calculate_fee(10, amount).unwrap();
        assert!(high < medium);
        assert!(medium < low);
    }
    // below 6000 flooring can merge the high and medium tiers
    assert_eq!(calculate_fee(101, 1000), Ok(5));
    assert_eq!(calculate_fee(100, 1000), Ok(5));
    assert_eq!(calculate_fee(10, 1000), Ok(6));
}

#[test]
fn exact_discounted_values() {
    // variable 100: low 100, medium 90, high 80
    assert_eq!(calculate_fee(1, 100_000), Ok(105));
    assert_eq!(calculate_fee(50, 100_000), Ok(95));
    assert_eq!(calculate_fee(1000, 100_000), Ok(85));
    // variable 7: 6.3 and 5.6 are floored
    assert_eq!(calculate_fee(50, 7999), Ok(11));
    assert_eq!(calculate_fee(1000, 7999), Ok(10));
}

#[test]
fn largest_amount_does_not_overflow() {
    assert_eq!(calculate_fee(0, u32::MAX), Ok(5 + 4_294_967));
    assert_eq!(calculate_fee(50, u32::MAX), Ok(5 + 3_865_470));
    assert_eq!(calculate_fee(u32::MAX, u32::MAX), Ok(5 + 3_435_973));
}

#[test]
fn overflowing_product_is_reported() {
    assert_eq!(fee_for_multiplier(u32::MAX, 1001), Err(FeeError::Overflow));
    assert_eq!(fee_for_multiplier(u32::MAX, u32::MAX), Err(FeeError::Overflow));
    // largest multiplier whose product still fits: 4_294_967 * 1000
    assert_eq!(fee_for_multiplier(u32::MAX, 1000), Ok(5 + 42_949_670));
}

#[test]
fn fee_for_multiplier_values() {
    assert_eq!(fee_for_multiplier(5000, 100), Ok(10));
    assert_eq!(fee_for_multiplier(5000, 90), Ok(9));
    assert_eq!(fee_for_multiplier(5000, 0), Ok(5));
    assert_eq!(fee_for_multiplier(999, u32::MAX), Ok(5));
}

#[test]
fn tier_selection() {
    assert_eq!(FeeTier::from_tx_count(0), FeeTier::Low);
    assert_eq!(FeeTier::from_tx_count(10), FeeTier::Low);
    assert_eq!(FeeTier::from_tx_count(11), FeeTier::Medium);
    assert_eq!(FeeTier::from_tx_count(100), FeeTier::Medium);
    assert_eq!(FeeTier::from_tx_count(101), FeeTier::High);
    assert_eq!(FeeTier::from_tx_count(u32::MAX), FeeTier::High);
}

#[test]
fn tier_multipliers() {
    assert_eq!(FeeTier::Low.multiplier(), 100);
    assert_eq!(FeeTier::Medium.multiplier(), 90);
    assert_eq!(FeeTier::High.multiplier(), 80);
}

#[test]
fn contract_entry_point_applies_policy() {
    assert_eq!(FeeAdjustmentContract::calculate_fee(10, 5000), Ok(10));
    assert_eq!(FeeAdjustmentContract::calculate_fee(101, 100_000), Ok(85));
    assert_eq!(FeeAdjustmentContract::calculate_fee(0, 0), Ok(5));
}
