//! Transaction fee policy for cross-border payment events.
//!
//! A fee is a fixed base charge plus a variable charge of 0.1% of the
//! amount, discounted by a volume tier chosen from the transaction count.
//! All arithmetic is on `u32` and is checked: a result that does not fit is
//! reported as [`FeeError::Overflow`], never wrapped.
pub mod contract;
pub mod laws;
pub mod policy;

pub use contract::FeeAdjustmentContract;
pub use policy::{
    calculate_fee, fee_for_multiplier, FeeError, FeeTier, BASE_FEE, HIGH_VOLUME_THRESHOLD,
    MEDIUM_VOLUME_THRESHOLD, PERCENT, VARIABLE_FEE_DIVISOR,
};
