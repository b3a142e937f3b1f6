//! Countdown timers.

use crate::alive::IsAlive;
use crate::fixed::minus;
use crate::updateable::Updateable;
use vstd::prelude::*;

verus! {

/// A countdown: alive while time is left on it.
#[derive(Debug, Clone, Copy, PartialEq, Eq, Structural)]
pub struct AliveTimer {
    /// Seconds left.
    pub ttl: i32,
}

impl AliveTimer {
    pub fn new(ttl: i32) -> (r: Self)
        ensures
            r.ttl == ttl,
    {
        Self { ttl }
    }

    /// The timer after `delta_time` seconds: a live timer counts down, a
    /// finished one stays as it is.
    pub open spec fn updated(self, delta_time: i32) -> Self {
        if self.ttl > 0 {
            AliveTimer { ttl: minus(self.ttl, delta_time) }
        } else {
            self
        }
    }
}

impl IsAlive for AliveTimer {
    open spec fn alive(&self) -> bool {
        self.ttl > 0
    }

    fn is_alive(&self) -> (r: bool)
        ensures
            r == (self.ttl > 0),
    {
        self.ttl > 0
    }
}

impl Updateable for AliveTimer {
    open spec fn advances_to(&self, delta_time: i32, after: &Self) -> bool {
        *after == self.updated(delta_time)
    }

    fn update(&mut self, delta_time: i32)
        ensures
            *final(self) == old(self).updated(delta_time),
    {
        if self.is_alive() {
            self.ttl = minus(self.ttl, delta_time);
        }
    }
}

} // verus!
