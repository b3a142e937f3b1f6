//! Things that live for a while and then are done.

use vstd::prelude::*;

verus! {

/// What has an end.
pub trait IsAlive {
    /// Whether the value still takes part in the simulation.
    spec fn alive(&self) -> bool;

    fn is_alive(&self) -> (r: bool)
        ensures
            r == self.alive(),
    ;
}

} // verus!
