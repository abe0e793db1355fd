//! Exact non-negative ratios for per-action-value metrics.
//!
//! Derived metrics such as damage-per-action-value and damage percentages
//! are quotients of accumulated integer quantities. They are kept as exact
//! numerator/denominator pairs; a quotient whose divisor is zero is defined
//! to be the ratio zero, so no derived metric is ever undefined.

use vstd::prelude::*;

verus! {

/// An exact non-negative ratio. The denominator is always at least one.
#[derive(Clone, Copy, Debug)]
pub struct Ratio {
    pub num: u128,
    pub den: u128,
}

impl Ratio {
    /// A ratio is well formed when its denominator is positive.
    pub open spec fn wf(self) -> bool {
        self.den >= 1
    }

    /// The ratio `num / den`, or zero when `den` is zero.
    pub open spec fn spec_of(num: u128, den: u128) -> Ratio {
        if den > 0 {
            Ratio { num: num, den: den }
        } else {
            Ratio { num: 0, den: 1 }
        }
    }

    /// True exactly when the ratio has value zero.
    pub open spec fn is_zero(self) -> bool {
        self.num == 0
    }

    /// Builds the quotient `num / den`, defining division by zero as zero.
    pub fn of(num: u128, den: u128) -> (r: Ratio)
        ensures
            r == Ratio::spec_of(num, den),
            r.wf(),
            den == 0 ==> r.is_zero(),
    {
        if den > 0 {
            Ratio { num, den }
        } else {
            Ratio { num: 0, den: 1 }
        }
    }

    /// Division-by-zero safety: whatever the numerator, a quotient with
    /// divisor zero is the ratio zero — never an undefined value.
    pub proof fn lemma_zero_divisor_is_zero(num: u128)
        ensures
            Ratio::spec_of(num, 0).is_zero(),
            Ratio::spec_of(num, 0).wf(),
            Ratio::spec_of(num, 0) == (Ratio { num: 0, den: 1 }),
    {
    }

    /// The ratio zero.
    pub fn zero() -> (r: Ratio)
        ensures
            r == Ratio::spec_of(0, 1),
            r.wf(),
            r.is_zero(),
    {
        Ratio { num: 0, den: 1 }
    }
}

} // verus!
