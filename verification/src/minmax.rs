//! Closed intervals that double as sampling distributions.

use crate::fixed::{lemma_times_shrinks, minus, plus, spec_half, times, ONE};
use crate::random::random_u64;
use vstd::prelude::*;

verus! {

/// The interval from `min` to `max`, both included. Nothing stops a caller
/// from building a reversed interval; the sampling functions ask for
/// `min <= max`.
#[derive(Debug)]
pub struct MinMax<T> {
    pub min: T,
    pub max: T,
}

impl<T: Copy> Clone for MinMax<T> {
    fn clone(&self) -> (r: Self)
        ensures
            r == *self,
    {
        *self
    }
}

impl<T: Copy> Copy for MinMax<T> {
}

impl<T> MinMax<T> {
    pub fn new(min: T, max: T) -> (r: Self)
        ensures
            r.min == min,
            r.max == max,
    {
        Self { min, max }
    }
}

/// Intervals of fixed-point scalars.
impl MinMax<i32> {
    /// Whether the lower end is not above the upper end.
    pub open spec fn ordered(self) -> bool {
        self.min <= self.max
    }

    /// The fraction that a draw selects: a scalar from 0 to [`ONE`], both
    /// included.
    pub open spec fn unit(draw: u64) -> i32 {
        (draw % ((ONE + 1) as u64)) as i32
    }

    /// The sample that a draw selects: `min + unit * (max - min)`, where the
    /// unit is the fraction that the draw selects. A fraction of 0 gives
    /// `min`, a fraction of [`ONE`] gives `max`.
    pub open spec fn pick(self, draw: u64) -> i32
        recommends
            self.ordered(),
    {
        if self.min == self.max {
            self.min
        } else {
            plus(self.min, times(Self::unit(draw), minus(self.max, self.min)))
        }
    }

    /// The point halfway between the two ends, rounded toward `min`.
    pub open spec fn midpoint(self) -> i32 {
        (self.min + spec_half(self.max - self.min)) as i32
    }

    /// The smallest interval that holds this one and `v`.
    pub open spec fn widened(self, v: i32) -> Self {
        MinMax {
            min: if v < self.min { v } else { self.min },
            max: if v > self.max { v } else { self.max },
        }
    }

    /// The sample for a given draw.
    pub fn rand_with(&self, draw: u64) -> (r: i32)
        requires
            self.ordered(),
        ensures
            r == self.pick(draw),
            self.min <= r <= self.max,
            self.min == self.max ==> r == self.min,
    {
        if self.min == self.max {
            return self.min;
        }
        let dist: i32 = minus(self.max, self.min);
        let unit: i32 = (draw % (ONE as u64 + 1)) as i32;
        proof {
            lemma_scalar_within(*self, draw);
        }
        plus(self.min, times(unit, dist))
    }

    /// A random sample of the interval.
    pub fn rand(&self) -> (r: i32)
        requires
            self.ordered(),
        ensures
            exists|draw: u64| r == #[trigger] self.pick(draw),
            self.min <= r <= self.max,
            self.min == self.max ==> r == self.min,
    {
        let draw: u64 = random_u64();
        self.rand_with(draw)
    }

    /// Grows the interval to include `v`.
    pub fn append(self, v: i32) -> (r: Self)
        ensures
            r == self.widened(v),
    {
        let mut grown = self;
        if v < grown.min {
            grown.min = v;
        }
        if v > grown.max {
            grown.max = v;
        }
        grown
    }

    /// The midpoint of the interval.
    pub fn avg(&self) -> (r: i32)
        ensures
            r == self.midpoint(),
            self.min == self.max ==> r == self.min,
            self.ordered() ==> self.min <= r <= self.max,
    {
        if self.min == self.max {
            return self.min;
        }
        let dist: i64 = self.max as i64 - self.min as i64;
        let half: i64 = if dist >= 0 {
            dist / 2
        } else {
            -((-dist) / 2)
        };
        (self.min as i64 + half) as i32
    }
}

/// Intervals of small counts.
impl MinMax<u8> {
    /// Whether the lower end is not above the upper end.
    pub open spec fn ordered_int(self) -> bool {
        self.min <= self.max
    }

    /// The count that a draw selects: `min` plus the draw modulo the width.
    /// Unlike a scalar sample it never reaches `max`, unless the interval is
    /// a single count.
    pub open spec fn pick_int(self, draw: u64) -> u8
        recommends
            self.ordered_int(),
    {
        if self.min == self.max {
            self.min
        } else {
            (self.min + (draw as int) % (self.max - self.min)) as u8
        }
    }

    /// The count for a given draw.
    pub fn rand_int_with(&self, draw: u64) -> (r: u8)
        requires
            self.ordered_int(),
        ensures
            r == self.pick_int(draw),
            self.min <= r <= self.max,
            self.min < self.max ==> r < self.max,
            self.min == self.max ==> r == self.min,
    {
        if self.min == self.max {
            return self.min;
        }
        let dist: u8 = self.max - self.min;
        let offset: u64 = draw % (dist as u64);
        self.min + offset as u8
    }

    /// A random count of the interval.
    pub fn rand_int(&self) -> (r: u8)
        requires
            self.ordered_int(),
        ensures
            exists|draw: u64| r == #[trigger] self.pick_int(draw),
            self.min <= r <= self.max,
            self.min < self.max ==> r < self.max,
            self.min == self.max ==> r == self.min,
    {
        let draw: u64 = random_u64();
        self.rand_int_with(draw)
    }
}

/// Sampling reaches both ends of an interval: the fraction 0 gives `min`,
/// and the fraction [`ONE`] gives `max`, unless the interval is wider than
/// the largest scalar.
pub proof fn lemma_ends_are_sampled(range: MinMax<i32>)
    requires
        range.ordered(),
    ensures
        range.pick(0) == range.min,
        range.max - range.min <= i32::MAX ==> range.pick(ONE as u64) == range.max,
{
    crate::fixed::lemma_times_one(minus(range.max, range.min));
    assert(MinMax::<i32>::unit(0) == 0);
    assert(MinMax::<i32>::unit(ONE as u64) == ONE);
}

/// A sampled count lies in its interval and, where the interval is wider
/// than a single count, below its upper end.
pub proof fn lemma_count_below_max(range: MinMax<u8>, draw: u64)
    requires
        range.ordered_int(),
    ensures
        range.min <= range.pick_int(draw) <= range.max,
        range.min < range.max ==> range.pick_int(draw) < range.max,
        range.min == range.max ==> range.pick_int(draw) == range.min,
{
}

/// A sampled scalar lies in its interval, and is the single value of a
/// degenerate one; so is the midpoint.
pub proof fn lemma_scalar_within(range: MinMax<i32>, draw: u64)
    requires
        range.ordered(),
    ensures
        range.min <= range.pick(draw) <= range.max,
        range.min <= range.midpoint() <= range.max,
        range.min == range.max ==> range.pick(draw) == range.min && range.midpoint() == range.min,
{
    let dist = minus(range.max, range.min);
    let unit = MinMax::<i32>::unit(draw);
    lemma_times_shrinks(unit, dist);
    assert(unit * dist >= 0) by (nonlinear_arith)
        requires
            unit >= 0,
            dist >= 0,
    ;
}

/// Widening keeps what the interval held and takes `v` in.
pub proof fn lemma_widened_holds(range: MinMax<i32>, v: i32)
    requires
        range.ordered(),
    ensures
        range.widened(v).ordered(),
        range.widened(v).min <= v <= range.widened(v).max,
        range.widened(v).min <= range.min,
        range.max <= range.widened(v).max,
        range.min <= v <= range.max ==> range.widened(v) == range,
{
}

} // verus!
