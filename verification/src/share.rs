//! The share calculator: a position's slice of its deposit's current weight.

use vstd::prelude::*;

use crate::model::ClaimError;

verus! {

/// The weight share is defined when the deposit is non-empty and the
/// product fits the working 64-bit width.
pub open spec fn weight_share_defined(
    available_weight: int,
    hnt_amount: int,
    amount_deposited_native: int,
) -> bool {
    &&& amount_deposited_native != 0
    &&& available_weight * hnt_amount <= u64::MAX
}

/// The position's share of the deposit's current weight:
/// `floor(available_weight * hnt_amount / amount_deposited_native)`.
pub open spec fn weight_share(
    available_weight: int,
    hnt_amount: int,
    amount_deposited_native: int,
) -> int {
    (available_weight * hnt_amount) / amount_deposited_native
}

/// Scales the deposit's current voting weight down to the part this
/// position's `hnt_amount` stands for. Overflow of the product and an empty
/// deposit are data-invariant violations and are reported, never wrapped or
/// coerced to zero.
pub fn position_weight(
    available_weight: u64,
    hnt_amount: u64,
    amount_deposited_native: u64,
) -> (r: Result<u64, ClaimError>)
    ensures
        weight_share_defined(
            available_weight as int,
            hnt_amount as int,
            amount_deposited_native as int,
        ) ==> (r matches Ok(w) && w == weight_share(
            available_weight as int,
            hnt_amount as int,
            amount_deposited_native as int,
        )),
        !weight_share_defined(
            available_weight as int,
            hnt_amount as int,
            amount_deposited_native as int,
        ) ==> r == Err::<u64, ClaimError>(ClaimError::ArithmeticFailure),
{
    match available_weight.checked_mul(hnt_amount) {
        None => Err(ClaimError::ArithmeticFailure),
        Some(product) => match product.checked_div(amount_deposited_native) {
            None => Err(ClaimError::ArithmeticFailure),
            Some(share) => Ok(share),
        },
    }
}

} // verus!
