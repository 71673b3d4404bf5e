use vstd::prelude::*;

verus! {

/// Fixed charge included in every fee, in the smallest unit of the asset.
pub const BASE_FEE: u32 = 5;

/// The variable charge is `amount / VARIABLE_FEE_DIVISOR` (0.1%, floored).
pub const VARIABLE_FEE_DIVISOR: u32 = 1000;

/// Volume multipliers are expressed in percent of this value.
pub const PERCENT: u32 = 100;

/// A transaction count above this is charged at the high-volume tier.
pub const HIGH_VOLUME_THRESHOLD: u32 = 100;

/// A transaction count above this (and not above the high threshold) is
/// charged at the medium-volume tier.
pub const MEDIUM_VOLUME_THRESHOLD: u32 = 10;

/// The single failure of a fee computation.
#[derive(Debug, Clone, Copy, PartialEq, Eq, Structural)]
pub enum FeeError {
    /// An intermediate product or the final sum does not fit in `u32`.
    Overflow,
}

/// Volume tier, derived from a transaction count; it selects the discount
/// applied to the variable part of the fee.
#[derive(Debug, Clone, Copy, PartialEq, Eq, Structural)]
pub enum FeeTier {
    /// At most `MEDIUM_VOLUME_THRESHOLD` transactions: no discount.
    Low,
    /// Above `MEDIUM_VOLUME_THRESHOLD`, at most `HIGH_VOLUME_THRESHOLD`: 10% off.
    Medium,
    /// Above `HIGH_VOLUME_THRESHOLD`: 20% off.
    High,
}

/// The tier of a transaction count. Both boundaries are strict: a count equal
/// to a threshold stays in the lower tier.
pub open spec fn tier_of(tx_count: int) -> FeeTier {
    if tx_count > HIGH_VOLUME_THRESHOLD {
        FeeTier::High
    } else if tx_count > MEDIUM_VOLUME_THRESHOLD {
        FeeTier::Medium
    } else {
        FeeTier::Low
    }
}

/// The variable charge before any discount: 0.1% of the amount, floored.
pub open spec fn variable_fee(amount: int) -> int {
    amount / VARIABLE_FEE_DIVISOR as int
}

/// The fee for a given multiplier (in percent), as a mathematical integer.
pub open spec fn fee_with(amount: int, multiplier: int) -> int {
    BASE_FEE + variable_fee(amount) * multiplier / PERCENT as int
}

/// Whether computing the fee for a given multiplier leaves the `u32` range,
/// in the product `variable_fee * multiplier` or in the final sum.
pub open spec fn overflows_with(amount: int, multiplier: int) -> bool {
    variable_fee(amount) * multiplier > u32::MAX || fee_with(amount, multiplier) > u32::MAX
}

/// The outcome of a fee computation for a given multiplier.
pub open spec fn fee_with_result(amount: u32, multiplier: u32) -> Result<u32, FeeError> {
    if overflows_with(amount as int, multiplier as int) {
        Err(FeeError::Overflow)
    } else {
        Ok(fee_with(amount as int, multiplier as int) as u32)
    }
}

/// The fee that the policy charges, as a mathematical integer.
pub open spec fn fee(tx_count: int, amount: int) -> int {
    fee_with(amount, tier_of(tx_count).multiplier_spec())
}

/// The outcome that the policy gives for a transaction count and an amount.
pub open spec fn fee_result(tx_count: u32, amount: u32) -> Result<u32, FeeError> {
    fee_with_result(amount, tier_of(tx_count as int).multiplier_spec() as u32)
}

impl FeeTier {
    /// The share of the variable charge that this tier pays, in percent.
    pub open spec fn multiplier_spec(self) -> int {
        match self {
            FeeTier::Low => 100,
            FeeTier::Medium => 90,
            FeeTier::High => 80,
        }
    }

    /// Selects the tier of a transaction count.
    pub fn from_tx_count(tx_count: u32) -> (r: FeeTier)
        ensures
            r == tier_of(tx_count as int),
    {
        if tx_count > HIGH_VOLUME_THRESHOLD {
            FeeTier::High
        } else if tx_count > MEDIUM_VOLUME_THRESHOLD {
            FeeTier::Medium
        } else {
            FeeTier::Low
        }
    }

    /// The share of the variable charge that this tier pays, in percent.
    pub fn multiplier(&self) -> (r: u32)
        ensures
            r == self.multiplier_spec(),
    {
        match self {
            FeeTier::Low => 100,
            FeeTier::Medium => 90,
            FeeTier::High => 80,
        }
    }
}

/// Computes `BASE_FEE + floor(floor(amount / 1000) * multiplier / 100)`,
/// checking the product and the sum against the `u32` range.
pub fn fee_for_multiplier(amount: u32, multiplier: u32) -> (r: Result<u32, FeeError>)
    ensures
        r == fee_with_result(amount, multiplier),
        r is Err <==> overflows_with(amount as int, multiplier as int),
        r matches Ok(f) ==> f == fee_with(amount as int, multiplier as int),
{
    let variable: u32 = amount / VARIABLE_FEE_DIVISOR;
    let product: u32 = match variable.checked_mul(multiplier) {
        Some(p) => p,
        None => {
            return Err(FeeError::Overflow);
        },
    };
    let discounted: u32 = product / PERCENT;
    match BASE_FEE.checked_add(discounted) {
        Some(total) => Ok(total),
        None => Err(FeeError::Overflow),
    }
}

/// The fee for `tx_count` transactions moving `amount`: the base fee plus the
/// variable charge, discounted by the volume tier of `tx_count`.
///
/// With the tier multipliers the product stays far below `u32::MAX`, so every
/// pair of inputs gets a fee.
pub fn calculate_fee(tx_count: u32, amount: u32) -> (r: Result<u32, FeeError>)
    ensures
        r == fee_result(tx_count, amount),
        r == Ok::<u32, FeeError>(fee(tx_count as int, amount as int) as u32),
        fee(tx_count as int, amount as int) <= u32::MAX,
{
    let tier = FeeTier::from_tx_count(tx_count);
    proof {
        crate::laws::lemma_tier_fee_fits(tx_count, amount);
    }
    fee_for_multiplier(amount, tier.multiplier())
}

} // verus!
