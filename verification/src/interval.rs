//! Closed ranges of numbers.

use vstd::prelude::*;
use crate::scalar::Scalar;

verus! {

/// The range of the numbers from `min` to `max`. It is empty where `min` is
/// greater than `max`, and where a bound is a NaN.
#[derive(Clone, Copy, Debug)]
pub struct Interval {
    pub min: Scalar,
    pub max: Scalar,
}

impl Interval {
    /// The range that holds no number: from positive to negative infinity.
    pub open spec fn spec_empty() -> Interval {
        Interval { min: Scalar::infinity(), max: Scalar::neg_infinity() }
    }

    /// The range of every number: from negative to positive infinity.
    pub open spec fn spec_full() -> Interval {
        Interval { min: Scalar::neg_infinity(), max: Scalar::infinity() }
    }

    /// The range from zero to one.
    pub open spec fn spec_unit() -> Interval {
        Interval { min: Scalar::zero(), max: Scalar::one() }
    }

    /// `min <= value <= max`.
    pub open spec fn spec_contains(&self, value: Scalar) -> bool {
        value.ge(self.min) && value.le(self.max)
    }

    /// `min < value < max`.
    pub open spec fn spec_surrounds(&self, value: Scalar) -> bool {
        value.gt(self.min) && value.lt(self.max)
    }

    /// The bound that `value` lies beyond, or `value` itself where it lies
    /// beyond neither. A NaN lies beyond neither.
    pub open spec fn spec_clamp(&self, value: Scalar) -> Scalar {
        if value.lt(self.min) {
            self.min
        } else if value.gt(self.max) {
            self.max
        } else {
            value
        }
    }

    /// The range that holds no number.
    #[verifier::when_used_as_spec(spec_empty)]
    pub fn empty() -> (interval: Interval)
        ensures
            interval == Interval::spec_empty(),
    {
        Interval {
            min: Scalar::infinity(),
            max: Scalar::neg_infinity(),
        }
    }

    /// The range of every number.
    #[verifier::when_used_as_spec(spec_full)]
    pub fn full() -> (interval: Interval)
        ensures
            interval == Interval::spec_full(),
    {
        Interval {
            min: Scalar::neg_infinity(),
            max: Scalar::infinity(),
        }
    }

    /// The range from zero to one.
    #[verifier::when_used_as_spec(spec_unit)]
    pub fn unit() -> (interval: Interval)
        ensures
            interval == Interval::spec_unit(),
    {
        Interval { min: Scalar::zero(), max: Scalar::one() }
    }

    /// The range from `min` to `max`.
    pub fn new(min: Scalar, max: Scalar) -> (interval: Interval)
        ensures
            interval.min == min,
            interval.max == max,
    {
        Interval { min, max }
    }

    /// Whether `value` lies in the range, the bounds included.
    #[verifier::when_used_as_spec(spec_contains)]
    pub fn contains(&self, value: Scalar) -> (r: bool)
        ensures
            r == self.spec_contains(value),
    {
        value.ge(self.min) && value.le(self.max)
    }

    /// Whether `value` lies in the range, the bounds excluded.
    #[verifier::when_used_as_spec(spec_surrounds)]
    pub fn surrounds(&self, value: Scalar) -> (r: bool)
        ensures
            r == self.spec_surrounds(value),
    {
        value.gt(self.min) && value.lt(self.max)
    }

    /// `value` moved to the nearer bound where it lies outside the range.
    #[verifier::when_used_as_spec(spec_clamp)]
    pub fn clamp(&self, value: Scalar) -> (r: Scalar)
        requires
            self.min.le(self.max),
        ensures
            r == self.spec_clamp(value),
    {
        if value.lt(self.min) {
            self.min
        } else if value.gt(self.max) {
            self.max
        } else {
            value
        }
    }
}

/// The empty range contains no number, and no NaN.
pub proof fn lemma_empty_contains_nothing(value: Scalar)
    ensures
        !Interval::empty().contains(value),
        !Interval::empty().surrounds(value),
{
}

/// The full range contains every number, the two infinities too, and
/// surrounds every number but them. It contains no NaN.
pub proof fn lemma_full_contains_every_number(value: Scalar)
    ensures
        Interval::full().contains(value) <==> !value.is_nan(),
        Interval::full().surrounds(value) <==> value.is_finite(),
{
}

/// A clamped number lies in the range, and a number in the range is
/// clamped to itself. Only a NaN is clamped to a NaN.
pub proof fn lemma_clamp_is_inside(range: Interval, value: Scalar)
    requires
        range.min.le(range.max),
    ensures
        !value.is_nan() ==> range.contains(range.clamp(value)),
        range.contains(value) ==> range.clamp(value) == value,
        value.is_nan() ==> range.clamp(value) == value,
{
}

/// What a range surrounds it contains.
pub proof fn lemma_surrounds_implies_contains(range: Interval, value: Scalar)
    requires
        range.surrounds(value),
    ensures
        range.contains(value),
{
}

} // verus!
