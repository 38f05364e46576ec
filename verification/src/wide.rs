//! Multiplication followed by division, without overflow in between.

use primitive_types::U256;
use vstd::prelude::*;

verus! {

/// `a * b / d`, rounded down, where the product may exceed 128 bits.
///
/// Trusted. The body widens the three numbers with `U256::from`, multiplies and
/// divides with the `*` and `/` of `primitive_types::U256`, and narrows the
/// quotient with `U256::as_u128`. The contract claims of them: the product of
/// two 128-bit numbers fits in 256 bits, so `*` neither wraps nor panics; `/`
/// is division rounded down and panics only on a zero divisor; `as_u128`
/// returns a value below 2^128 unchanged and panics on any other.
#[verifier::external_body]
pub(crate) fn mul_div(a: u128, b: u128, d: u128) -> (q: u128)
    requires
        d > 0,
        a * b / (d as int) <= u128::MAX,
    ensures
        q == a * b / (d as int),
{
    (U256::from(a) * U256::from(b) / U256::from(d)).as_u128()
}

} // verus!
