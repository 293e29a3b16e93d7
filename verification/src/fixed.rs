//! The scalar of the simulation: a real number held in millionths.
//!
//! Every signal, weight and threshold is a [`Fixed`]: a signed count of
//! millionths in 64 bits.  Sums, differences and products stay inside the
//! representable range by saturating at its two ends, so every operation
//! is total.

use vstd::prelude::*;

verus! {

/// How many raw units make up one.
pub const SCALE: i64 = 1_000_000;

/// A real number, stored as a whole number of millionths.
#[derive(Clone, Copy, Debug, PartialEq, Eq, Structural, PartialOrd, Ord, Hash)]
pub struct Fixed {
    pub raw: i64,
}

/// The representable number nearest to `x` millionths.
pub open spec fn saturated(x: int) -> Fixed {
    if x < i64::MIN {
        Fixed { raw: i64::MIN }
    } else if x > i64::MAX {
        Fixed { raw: i64::MAX }
    } else {
        Fixed { raw: x as i64 }
    }
}

/// The product of `a` and `b` millionths, in millionths, rounded to the
/// nearest unit (halves upwards).
pub open spec fn scaled_product(a: int, b: int) -> int {
    (a * b + SCALE / 2) / (SCALE as int)
}

fn saturate(x: i128) -> (r: Fixed)
    ensures
        r == saturated(x as int),
{
    if x < i64::MIN as i128 {
        Fixed { raw: i64::MIN }
    } else if x > i64::MAX as i128 {
        Fixed { raw: i64::MAX }
    } else {
        Fixed { raw: x as i64 }
    }
}

impl Fixed {
    pub open spec fn spec_zero() -> Fixed {
        Fixed { raw: 0 }
    }

    /// Zero.
    #[verifier::when_used_as_spec(spec_zero)]
    pub fn zero() -> (z: Fixed)
        ensures
            z == Fixed::spec_zero(),
    {
        Fixed { raw: 0 }
    }

    pub open spec fn spec_tenth() -> Fixed {
        Fixed { raw: 100_000 }
    }

    /// One tenth.
    #[verifier::when_used_as_spec(spec_tenth)]
    pub fn tenth() -> (t: Fixed)
        ensures
            t == Fixed::spec_tenth(),
    {
        Fixed { raw: 100_000 }
    }

    pub open spec fn spec_from_raw(raw: i64) -> Fixed {
        Fixed { raw }
    }

    /// The number that is `raw` millionths.
    #[verifier::when_used_as_spec(spec_from_raw)]
    pub fn from_raw(raw: i64) -> (x: Fixed)
        ensures
            x == Fixed::spec_from_raw(raw),
    {
        Fixed { raw }
    }

    pub open spec fn spec_plus(self, other: Fixed) -> Fixed {
        saturated(self.raw + other.raw)
    }

    /// `self + other`, saturating.
    #[verifier::when_used_as_spec(spec_plus)]
    pub fn plus(self, other: Fixed) -> (sum: Fixed)
        ensures
            sum == self.spec_plus(other),
    {
        saturate(self.raw as i128 + other.raw as i128)
    }

    pub open spec fn spec_minus(self, other: Fixed) -> Fixed {
        saturated(self.raw - other.raw)
    }

    /// `self - other`, saturating.
    #[verifier::when_used_as_spec(spec_minus)]
    pub fn minus(self, other: Fixed) -> (difference: Fixed)
        ensures
            difference == self.spec_minus(other),
    {
        saturate(self.raw as i128 - other.raw as i128)
    }

    pub open spec fn spec_negated(self) -> Fixed {
        saturated(-self.raw)
    }

    /// `-self`, saturating: the least number has no counterpart and gives
    /// the greatest.
    #[verifier::when_used_as_spec(spec_negated)]
    pub fn negated(self) -> (opposite: Fixed)
        ensures
            opposite == self.spec_negated(),
    {
        saturate(-(self.raw as i128))
    }

    pub open spec fn spec_times(self, other: Fixed) -> Fixed {
        saturated(scaled_product(self.raw as int, other.raw as int))
    }

    /// `self * other`, rounded to the nearest millionth and saturating.
    #[verifier::when_used_as_spec(spec_times)]
    pub fn times(self, other: Fixed) -> (product: Fixed)
        ensures
            product == self.spec_times(other),
    {
        let a: i128 = self.raw as i128;
        let b: i128 = other.raw as i128;
        assert(-0x4000_0000_0000_0000_0000_0000_0000_0000 <= a * b
            <= 0x4000_0000_0000_0000_0000_0000_0000_0000) by (nonlinear_arith)
            requires
                -0x8000_0000_0000_0000 <= a <= 0x7fff_ffff_ffff_ffff,
                -0x8000_0000_0000_0000 <= b <= 0x7fff_ffff_ffff_ffff,
        ;
        let scale: i128 = SCALE as i128;
        let rounded: i128 = a * b + scale / 2;
        let quotient: i128 = if rounded >= 0 {
            rounded / scale
        } else {
            -((scale - 1 - rounded) / scale)
        };
        saturate(quotient)
    }
}

} // verus!
