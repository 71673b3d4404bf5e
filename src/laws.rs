//! Properties of the fee policy that relate several inputs or calls.
use vstd::prelude::*;

use crate::policy::{
    fee, fee_result, fee_with_result, tier_of, variable_fee, FeeError, FeeTier, BASE_FEE,
};

verus! {

/// Every fee the policy computes includes the whole base fee.
pub proof fn lemma_fee_at_least_base(tx_count: u32, amount: u32)
    ensures
        fee_result(tx_count, amount) matches Ok(f) ==> f >= BASE_FEE,
{
    lemma_tier_fee_fits(tx_count, amount);
}

/// Any amount below 1000 has no variable charge, so its fee is exactly the
/// base fee, whatever the transaction count.
pub proof fn lemma_small_amount_pays_base_fee(tx_count: u32, amount: u32)
    requires
        amount < 1000,
    ensures
        fee_result(tx_count, amount) == Ok::<u32, FeeError>(BASE_FEE),
{
    lemma_tier_fee_fits(tx_count, amount);
    assert(variable_fee(amount as int) == 0);
}

/// For a fixed transaction count, a larger amount never gets a smaller fee.
pub proof fn lemma_fee_monotonic_in_amount(tx_count: u32, lo: u32, hi: u32)
    requires
        lo <= hi,
    ensures
        fee_result(tx_count, lo) matches Ok(f_lo) && fee_result(tx_count, hi) matches Ok(
            f_hi,
        ) && f_lo <= f_hi,
{
    let m = tier_of(tx_count as int).multiplier_spec();
    let v_lo = variable_fee(lo as int);
    let v_hi = variable_fee(hi as int);
    lemma_tier_fee_fits(tx_count, lo);
    lemma_tier_fee_fits(tx_count, hi);
    assert(v_lo <= v_hi) by {
        vstd::arithmetic::div_mod::lemma_div_is_ordered(lo as int, hi as int, 1000);
    }
    assert(v_lo * m <= v_hi * m) by {
        vstd::arithmetic::mul::lemma_mul_inequality(v_lo, v_hi, m);
    }
    assert((v_lo * m) / 100 <= (v_hi * m) / 100) by {
        vstd::arithmetic::div_mod::lemma_div_is_ordered(v_lo * m, v_hi * m, 100);
    }
}

/// With the tier multipliers the fee never leaves the `u32` range: every
/// transaction count and amount gets a fee.
pub proof fn lemma_tier_fee_fits(tx_count: u32, amount: u32)
    ensures
        fee_result(tx_count, amount) == Ok::<u32, FeeError>(
            fee(tx_count as int, amount as int) as u32,
        ),
        BASE_FEE <= fee(tx_count as int, amount as int) <= u32::MAX,
{
    let v = variable_fee(amount as int);
    let m = tier_of(tx_count as int).multiplier_spec();
    assert(0 <= v * m <= 4294967 * 100) by (nonlinear_arith)
        requires
            0 <= v <= 4294967,
            80 <= m <= 100,
    ;
}

/// A product of the variable charge and a multiplier that exceeds
/// `u32::MAX` is reported as an overflow, not wrapped.
pub proof fn lemma_overflow_reported(amount: u32, multiplier: u32)
    requires
        variable_fee(amount as int) * multiplier > u32::MAX,
    ensures
        fee_with_result(amount, multiplier) == Err::<u32, FeeError>(FeeError::Overflow),
{
}

/// For the same amount of at least 1000, a count in the high-volume tier
/// (101) never pays more than one at the top of the medium tier (100), which
/// pays strictly less than one at the top of the low tier (10). The first
/// step is strict from 6000 on; below that, flooring can make the two
/// discounted charges equal (at 5000 both are 4).
pub proof fn lemma_volume_discount_order(amount: u32)
    requires
        amount >= 1000,
    ensures
        fee(101, amount as int) <= fee(100, amount as int),
        fee(100, amount as int) < fee(10, amount as int),
        amount >= 6000 ==> fee(101, amount as int) < fee(100, amount as int),
{
    let v = variable_fee(amount as int);
    assert(tier_of(101) == FeeTier::High);
    assert(tier_of(100) == FeeTier::Medium);
    assert(tier_of(10) == FeeTier::Low);
    assert(v >= 1);
    let h = v * 80 / 100;
    let m = v * 90 / 100;
    assert(h <= m) by {
        vstd::arithmetic::div_mod::lemma_div_is_ordered(v * 80, v * 90, 100);
    }
    assert(m < v) by (nonlinear_arith)
        requires
            v >= 1,
            m == v * 90 / 100,
    ;
    if amount >= 6000 {
        assert(v >= 6);
        if v >= 10 {
            assert(h < m) by (nonlinear_arith)
                requires
                    v >= 10,
                    h == v * 80 / 100,
                    m == v * 90 / 100,
            ;
        } else {
            assert(v == 6 || v == 7 || v == 8 || v == 9);
        }
    }
}

} // verus!
