//! Decimal fixed-point numbers: the normalizing representation of the
//! fractal-space view. A value is `units / SCALE` with `units: i128` and
//! `SCALE = 10^30`, so every quantity carries thirty decimal digits below the
//! point and about eight above it. This representation is chosen over exact
//! fractions deliberately: exact fractions grow their denominators with every
//! zoom and pan event and stop fitting machine words after a few dozen
//! events, while a fixed scale absorbs any number of events. The cost is
//! truncation: a result is cut toward zero at the thirtieth decimal digit
//! (`div_trunc`), far below both input granularity and display precision.
//! Every division the view model performs on the spec's own scenario values
//! is exact.

use vstd::prelude::*;

verus! {

/// The fixed denominator of every [`Fixed`] value: `10^30`.
pub const SCALE: i128 = 1_000_000_000_000_000_000_000_000_000_000;

/// Whether the mathematical integer `x` fits in `i128`.
pub open spec fn in_i128(x: int) -> bool {
    i128::MIN <= x <= i128::MAX
}

/// Integer division truncating toward zero (the quotient of `n / d` with any
/// fractional part discarded), for a positive divisor.
pub open spec fn div_trunc(n: int, d: int) -> int
    recommends
        d > 0,
{
    if n >= 0 {
        n / d
    } else {
        -((-n) / d)
    }
}

/// A decimal fixed-point number `units / SCALE`.
#[derive(Clone, Copy, PartialEq, Eq, Structural, Debug)]
pub struct Fixed {
    pub units: i128,
}

impl Fixed {
    /// The integer `n` as a fixed-point value.
    pub fn from_int(n: i64) -> (r: Fixed)
        requires
            in_i128(n * SCALE),
        ensures
            r.units == n * SCALE,
    {
        Fixed { units: (n as i128) * SCALE }
    }

    /// Zero.
    pub fn zero() -> (r: Fixed)
        ensures
            r.units == 0,
    {
        Fixed { units: 0 }
    }
}

/// Truncating division never grows the magnitude and never changes the sign.
pub proof fn lemma_div_trunc_bound(n: int, d: int)
    requires
        d > 0,
    ensures
        n >= 0 ==> 0 <= div_trunc(n, d) <= n,
        n < 0 ==> n <= div_trunc(n, d) <= 0,
{
    if n >= 0 {
        vstd::arithmetic::div_mod::lemma_div_is_ordered_by_denominator(n, 1, d);
    } else {
        vstd::arithmetic::div_mod::lemma_div_is_ordered_by_denominator(-n, 1, d);
    }
}

/// Divide, truncating toward zero. The magnitude never grows, so the result
/// always fits.
pub fn div_trunc_i128(n: i128, d: i128) -> (r: i128)
    requires
        n > i128::MIN,
        d > 0,
    ensures
        r == div_trunc(n as int, d as int),
{
    if n >= 0 {
        proof {
            vstd::arithmetic::div_mod::lemma_div_is_ordered_by_denominator(n as int, 1, d as int);
        }
        n / d
    } else {
        let m = -n;
        proof {
            vstd::arithmetic::div_mod::lemma_div_is_ordered_by_denominator(m as int, 1, d as int);
        }
        -(m / d)
    }
}

} // verus!
