//! Health: a scalar that starts positive and only decreases through damage.
//! Between the collision phase and the despawn phase of one tick it may be
//! observed as zero or negative; the reaper then removes the entity.

use vstd::prelude::*;

verus! {

#[derive(Clone, Copy, Debug, PartialEq, Eq, Structural)]
pub struct Health {
    pub value: i64,
}

impl Health {
    pub fn new(value: i64) -> (h: Health)
        ensures
            h.value == value,
    {
        Health { value }
    }
}

} // verus!
