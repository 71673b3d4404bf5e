use vstd::prelude::*;

use crate::policy::{calculate_fee, fee_result, FeeError};

verus! {

/// The fee-adjustment contract. Its one entry point applies the fee policy;
/// the hosting runtime supplies the call and receives the fee or the error.
#[derive(Debug, Clone, Copy, PartialEq, Eq, Structural)]
pub struct FeeAdjustmentContract;

impl FeeAdjustmentContract {
    /// The fee for `tx_count` transactions moving `amount`.
    pub fn calculate_fee(tx_count: u32, amount: u32) -> (r: Result<u32, FeeError>)
        ensures
            r == fee_result(tx_count, amount),
    {
        calculate_fee(tx_count, amount)
    }
}

} // verus!
