//! The shared mutable entity store plus the tick-global resources threaded
//! through every phase: the spawn countdown and the next fresh identifier.
//! Correctness of mutation comes from the phase order, not from locking;
//! each phase function takes the whole world by `&mut` and its contract says
//! exactly which part it changes.

use vstd::prelude::*;
use crate::entity::{Entity, wf_entity};
use crate::timer::SpawnTimer;

verus! {

pub struct World {
    pub entities: Vec<Entity>,
    pub spawn_timer: SpawnTimer,
    /// Identifier handed to the next created entity.
    pub next_id: u64,
}

/// Every stored entity structurally sound, and the countdown in its band.
pub open spec fn wf_world(w: World) -> bool {
    &&& forall|i: int| 0 <= i < w.entities@.len() ==> wf_entity(#[trigger] w.entities@[i])
    &&& w.spawn_timer.wf()
}

impl World {
    /// An empty store with a fresh countdown of the given period.
    pub fn new(spawn_interval_ms: u64) -> (w: World)
        requires
            spawn_interval_ms >= 1,
        ensures
            w.entities@.len() == 0,
            w.spawn_timer.interval_ms == spawn_interval_ms,
            w.spawn_timer.elapsed_ms == 0,
            w.next_id == 0,
            wf_world(w),
    {
        World { entities: Vec::new(), spawn_timer: SpawnTimer::new(spawn_interval_ms), next_id: 0 }
    }

    pub fn entity_count(&self) -> (n: usize)
        ensures
            n == self.entities@.len(),
    {
        self.entities.len()
    }
}

} // verus!
