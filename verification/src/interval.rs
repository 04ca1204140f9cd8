//! A closed range of single-precision numbers.

use crate::binary32::{lemma_magnitude_increases, Binary32, INFINITY_BITS, NEG_INFINITY_BITS};
use vstd::prelude::*;

verus! {

/// The range from `min` to `max`, both included.
///
/// Nothing orders the two bounds. A range whose `min` lies above its `max`
/// is a valid value that holds no number, and every query is defined on it.
#[derive(Clone, Copy, Debug)]
pub struct Interval {
    pub min: Binary32,
    pub max: Binary32,
}

impl Interval {
    /// The range that holds nothing: from positive to negative infinity.
    pub open spec fn empty_spec() -> Self {
        Interval {
            min: Binary32 { bits: INFINITY_BITS },
            max: Binary32 { bits: NEG_INFINITY_BITS },
        }
    }

    /// The range that holds every number: from negative to positive
    /// infinity.
    pub open spec fn universe_spec() -> Self {
        Interval {
            min: Binary32 { bits: NEG_INFINITY_BITS },
            max: Binary32 { bits: INFINITY_BITS },
        }
    }

    /// `min <= x <= max`.
    pub open spec fn contains_spec(self, x: Binary32) -> bool {
        self.min.le_spec(x) && x.le_spec(self.max)
    }

    /// `min < x < max`.
    pub open spec fn surrounds_spec(self, x: Binary32) -> bool {
        self.min.lt_spec(x) && x.lt_spec(self.max)
    }

    /// `min` where `x` lies below it; else `max` where `x` lies above that;
    /// else `x`. The lower bound is tried first, so on a range whose bounds
    /// are the wrong way round a number below `min` still goes to `min`.
    pub open spec fn clamp_spec(self, x: Binary32) -> Binary32 {
        if x.lt_spec(self.min) {
            self.min
        } else if self.max.lt_spec(x) {
            self.max
        } else {
            x
        }
    }

    pub fn empty() -> (r: Self)
        ensures
            r == Self::empty_spec(),
    {
        Interval {
            min: Binary32::from_bits(INFINITY_BITS),
            max: Binary32::from_bits(NEG_INFINITY_BITS),
        }
    }

    pub fn universe() -> (r: Self)
        ensures
            r == Self::universe_spec(),
    {
        Interval {
            min: Binary32::from_bits(NEG_INFINITY_BITS),
            max: Binary32::from_bits(INFINITY_BITS),
        }
    }

    /// Whether `x` lies in the range, bounds included.
    pub fn contains(&self, x: Binary32) -> (r: bool)
        ensures
            r == self.contains_spec(x),
    {
        self.min.le(x) && x.le(self.max)
    }

    /// Whether `x` lies strictly between the bounds.
    pub fn surrounds(&self, x: Binary32) -> (r: bool)
        ensures
            r == self.surrounds_spec(x),
    {
        self.min.lt(x) && x.lt(self.max)
    }

    /// The number of the range nearest to `x`.
    pub fn clamp(&self, x: Binary32) -> (r: Binary32)
        ensures
            r == self.clamp_spec(x),
    {
        if x.lt(self.min) {
            self.min
        } else if self.max.lt(x) {
            self.max
        } else {
            x
        }
    }
}

impl Default for Interval {
    /// The range that holds zero alone.
    fn default() -> (r: Self)
        ensures
            r.min.bits == 0,
            r.max.bits == 0,
    {
        Interval { min: Binary32::from_bits(0), max: Binary32::from_bits(0) }
    }
}

/// The empty range holds no number at all, and none lies strictly inside
/// it.
pub proof fn lemma_empty_contains_nothing(x: Binary32)
    ensures
        !Interval::empty_spec().contains_spec(x),
        !Interval::empty_spec().surrounds_spec(x),
{
    let e = Interval::empty_spec();
    assert(e.min.magnitude_bits() == INFINITY_BITS && !e.min.is_negative());
    assert(e.max.magnitude_bits() == INFINITY_BITS && e.max.is_negative());
    lemma_magnitude_increases(0, INFINITY_BITS as nat);
}

/// The universe holds every number: all that is finite, and the two
/// infinities. Only a NaN is not in it.
pub proof fn lemma_universe_contains_numbers(x: Binary32)
    ensures
        Interval::universe_spec().contains_spec(x) <==> !x.is_nan(),
        x.is_finite() ==> Interval::universe_spec().contains_spec(x),
{
    let u = Interval::universe_spec();
    assert(u.max.magnitude_bits() == INFINITY_BITS && !u.max.is_negative());
    assert(u.min.magnitude_bits() == INFINITY_BITS && u.min.is_negative());
    if x.magnitude_bits() < INFINITY_BITS {
        lemma_magnitude_increases(x.magnitude_bits(), INFINITY_BITS as nat);
    }
}

/// Where the bounds are in order, clamping a number puts it in the range.
pub proof fn lemma_clamp_lands_inside(i: Interval, x: Binary32)
    requires
        i.min.le_spec(i.max),
        !x.is_nan(),
    ensures
        i.contains_spec(i.clamp_spec(x)),
{
}

/// Clamping leaves alone exactly the numbers that need no clamping: in
/// particular every number of the range.
pub proof fn lemma_clamp_keeps_members(i: Interval, x: Binary32)
    requires
        i.contains_spec(x),
    ensures
        i.clamp_spec(x) == x,
{
}

} // verus!
