//! Wide-integer arithmetic for the cross-multiplied price invariant.

use vstd::prelude::*;

verus! {

/// Relies on ethnum::U256 conversion, multiplication and comparison: the
/// product of two 128-bit values fits in 256 bits, so the comparison is the
/// exact integer comparison of the two products.
#[verifier::external_body]
fn wide_mul_ge(a: u128, b: u128, c: u128, d: u128) -> (r: bool)
    ensures
        r == (a * b >= c * d),
{
    ethnum::U256::from(a) * ethnum::U256::from(b) >= ethnum::U256::from(c) * ethnum::U256::from(d)
}

/// The exact-integer price test for a partial fill: the amount actually
/// paid, scaled by the full bid, covers the full ask scaled by the bid
/// amount actually consumed. No division, so no rounding loss.
pub fn price_satisfied(actual_paid: u128, bid_amount: u128, ask_amount: u128, actual_bid: u128) -> (
    r: bool)
    ensures
        r == (actual_paid * bid_amount >= ask_amount * actual_bid),
{
    wide_mul_ge(actual_paid, bid_amount, ask_amount, actual_bid)
}

} // verus!
