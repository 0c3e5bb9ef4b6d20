//! Fixed-point arithmetic.
//!
//! Every fractional quantity of the sketch (a progress along a line, an angle
//! in radians, a radius in window points) is held as an integer count of
//! millionths, so that all arithmetic on it is exact and its rounding is
//! stated in the contracts.

use vstd::prelude::*;
use vstd::arithmetic::div_mod::lemma_fundamental_div_mod_converse;

verus! {

/// The value one, in millionths.
pub const UNIT: u32 = 1_000_000;

/// The quotient of `numerator` by `divisor`, rounded toward negative
/// infinity. This is the rounding of every division in this crate, for
/// negative numerators too.
pub(crate) fn floor_div(numerator: i128, divisor: u64) -> (quotient: i128)
    requires
        divisor > 0,
        numerator > i128::MIN,
    ensures
        quotient == numerator as int / divisor as int,
{
    let d: u128 = divisor as u128;
    if numerator >= 0 {
        let q: u128 = (numerator as u128) / d;
        q as i128
    } else {
        let m: u128 = (-numerator) as u128;
        let q: u128 = (m + (d - 1)) / d;
        proof {
            let r: int = (m + (d - 1)) as int % d as int;
            assert((m + (d - 1)) as int == d as int * q as int + r && 0 <= r < d)
                by (nonlinear_arith)
                requires
                    d > 0,
                    q as int == (m + (d - 1)) as int / d as int,
                    r == (m + (d - 1)) as int % d as int,
            ;
            assert(numerator as int == (-(q as int)) * d as int + (d as int - 1 - r))
                by (nonlinear_arith)
                requires
                    numerator as int == -(m as int),
                    (m + (d - 1)) as int == d as int * q as int + r,
            ;
            lemma_fundamental_div_mod_converse(
                numerator as int,
                d as int,
                -(q as int),
                d as int - 1 - r,
            );
            assert(q <= m) by (nonlinear_arith)
                requires
                    d >= 1,
                    m >= 1,
                    (m + (d - 1)) as int == d as int * q as int + r,
                    0 <= r,
            ;
        }
        -(q as i128)
    }
}

} // verus!
