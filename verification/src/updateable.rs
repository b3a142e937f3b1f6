//! Things that change as time passes.

use vstd::prelude::*;

verus! {

/// What changes as time passes.
pub trait Updateable {
    /// Whether `after` is this value once `delta_time` seconds have passed.
    spec fn advances_to(&self, delta_time: i32, after: &Self) -> bool;

    /// Lets `delta_time` seconds pass.
    fn update(&mut self, delta_time: i32)
        ensures
            old(self).advances_to(delta_time, final(self)),
    ;
}

/// Something that time does not change.
pub struct EmptyUpdatable;

impl Updateable for EmptyUpdatable {
    open spec fn advances_to(&self, delta_time: i32, after: &Self) -> bool {
        after == self
    }

    fn update(&mut self, _delta_time: i32)
        ensures
            *final(self) == *old(self),
    {
    }
}

/// A list advances element by element.
impl<T: Updateable> Updateable for Vec<T> {
    open spec fn advances_to(&self, delta_time: i32, after: &Self) -> bool {
        &&& after@.len() == self@.len()
        &&& forall|i: int|
            0 <= i < self@.len() ==> (#[trigger] self@[i]).advances_to(delta_time, &after@[i])
    }

    fn update(&mut self, delta_time: i32)
        ensures
            final(self)@.len() == old(self)@.len(),
            forall|i: int|
                0 <= i < old(self)@.len() ==> (#[trigger] old(self)@[i]).advances_to(
                    delta_time,
                    &final(self)@[i],
                ),
    {
        let n: usize = self.len();
        let mut i: usize = 0;
        while i < n
            invariant
                i <= n,
                self@.len() == n,
                old(self)@.len() == n,
                forall|j: int|
                    0 <= j < i ==> (#[trigger] old(self)@[j]).advances_to(delta_time, &self@[j]),
                forall|j: int| i <= j < n ==> self@[j] == old(self)@[j],
            decreases n - i,
        {
            self[i].update(delta_time);
            i += 1;
        }
    }
}

} // verus!
