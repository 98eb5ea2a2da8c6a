//! The relay's fee: a tenth of a percent of the swapped amount, at least one unit.
use vstd::prelude::*;

verus! {

/// Divisor of the proportional fee: one unit per thousand swapped.
pub const FEE_DIVISOR: u64 = 1000;

/// The fee charged for swapping `amount`: `max(1, amount / 1000)`, rounded down.
pub open spec fn fee_of(amount: u64) -> u64 {
    if amount / FEE_DIVISOR >= 1 {
        (amount / FEE_DIVISOR) as u64
    } else {
        1
    }
}

/// Computes the fee charged for swapping `amount`.
pub fn fee_amount(amount: u64) -> (fee: u64)
    ensures
        fee == fee_of(amount),
        fee >= 1,
        fee <= amount || amount < FEE_DIVISOR,
{
    let proportional = amount / FEE_DIVISOR;
    if proportional >= 1 {
        proportional
    } else {
        1
    }
}

} // verus!
