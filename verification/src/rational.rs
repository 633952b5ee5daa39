//! Exact fractions `num / den`, used to carry pointer-motion deltas: an
//! input device reports a pixel delta as a small exact fraction, and the pan
//! step divides by it symbolically so that no precision is lost before the
//! one truncating division of the fixed-point offset update.

use vstd::prelude::*;

verus! {

/// An exact fraction `num / den` with `den > 0` (see [`Rational::wf`]).
#[derive(Clone, Copy, PartialEq, Eq, Structural, Debug)]
pub struct Rational {
    pub num: i128,
    pub den: i128,
}

impl Rational {
    /// Well-formedness: the denominator is positive.
    pub open spec fn wf(self) -> bool {
        self.den > 0
    }

    /// The fraction `num / den`.
    pub fn new(num: i128, den: i128) -> (r: Rational)
        requires
            den > 0,
        ensures
            r.num == num,
            r.den == den,
            r.wf(),
    {
        Rational { num, den }
    }

    /// The integer `n` as a fraction.
    pub fn from_int(n: i128) -> (r: Rational)
        ensures
            r.num == n,
            r.den == 1,
            r.wf(),
    {
        Rational { num: n, den: 1 }
    }
}

} // verus!
