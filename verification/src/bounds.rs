//! A closed fixed-point interval with clamp, midpoint and random-sample
//! operations.

use vstd::prelude::*;
use crate::fixed::MAX_POS;
use crate::fixed::trunc_div;
use crate::rng::rand_in_range;

verus! {

/// `x` pinned into `[low, high]`.
pub open spec fn clamp_spec(x: int, low: int, high: int) -> int {
    if x < low {
        low
    } else if x > high {
        high
    } else {
        x
    }
}

/// A closed interval `[low, high]` of fixed-point values.
#[derive(Clone, Copy, Debug)]
pub struct Bounds {
    pub low: i64,
    pub high: i64,
}

impl Bounds {
    /// The interval is ordered and both edges stay within `mag`.
    pub open spec fn wf_within(self, mag: int) -> bool {
        -mag <= self.low <= self.high <= mag
    }

    pub open spec fn contains_spec(self, x: int) -> bool {
        self.low <= x <= self.high
    }

    pub open spec fn mid_point_spec(self) -> int {
        trunc_div(self.low + self.high, 2)
    }

    pub open spec fn span_spec(self) -> int {
        self.high - self.low
    }

    pub fn new(low: i64, high: i64) -> (r: Bounds)
        ensures
            r.low == low,
            r.high == high,
    {
        Bounds { low, high }
    }

    pub fn mid_point(&self) -> (r: i64)
        requires
            self.wf_within(MAX_POS as int),
        ensures
            r == self.mid_point_spec(),
    {
        (self.low + self.high) / 2
    }

    pub fn contains(&self, x: i64) -> (r: bool)
        ensures
            r == self.contains_spec(x as int),
    {
        x >= self.low && x <= self.high
    }

    pub fn span(&self) -> (r: i64)
        requires
            self.wf_within(MAX_POS as int),
        ensures
            r == self.span_spec(),
    {
        self.high - self.low
    }

    pub fn clamp(&self, x: i64) -> (r: i64)
        requires
            self.low <= self.high,
        ensures
            r == clamp_spec(x as int, self.low as int, self.high as int),
    {
        clamp_i64(x, self.low, self.high)
    }

    /// A random value inside the interval; a collapsed interval yields its
    /// only member.
    pub fn rand_inside(&self) -> (r: i64)
        requires
            self.low <= self.high,
        ensures
            self.contains_spec(r as int),
            self.low < self.high ==> r < self.high,
    {
        if self.low == self.high {
            self.low
        } else {
            rand_in_range(self.low, self.high)
        }
    }
}

/// Relies on `num::clamp` (num 0.4, re-exported from num-traits): returns
/// `min` when `input < min`, `max` when `input > max`, and `input`
/// otherwise; it never panics in release builds and its debug assertion
/// `min <= max` is met by the precondition.
#[verifier::external_body]
fn clamp_i64(x: i64, low: i64, high: i64) -> (r: i64)
    requires
        low <= high,
    ensures
        r == clamp_spec(x as int, low as int, high as int),
{
    num::clamp(x, low, high)
}

} // verus!
