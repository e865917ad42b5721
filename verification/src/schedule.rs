//! The phase scheduler: one tick runs entity updates, then collision
//! detection, then despawning, each phase complete before the next begins.
//! This total order is the core's correctness mechanism — damage applied by
//! the collision phase is visible to the reaper of the same tick, a reaped
//! entity is gone before any phase of the next tick, and an entity created
//! by the spawner is admitted at the phase boundary, after integration.

use vstd::prelude::*;
use crate::asteroids::{is_spawned_asteroid, next_id_after, rotate_all, rotate_asteroids, spawn_asteroid};
use crate::collision_detection::{apply_collisions, resolve_all};
use crate::despawn::{despawn_dead_entities, despawn_far_away_entities, lemma_reap_composition, lemma_reaped_absent, lemma_survivors_not_reaped, reaped, survivors};
use crate::entity::Entity;
use crate::movement::{integrate_all, update_movement};
use crate::timer::{timer_fires, timer_next};
use crate::world::{World, wf_world};

verus! {

/// The three phases of a tick, in their one admissible order. Systems
/// within a phase touch disjoint component sets, so they carry no order
/// among themselves.
#[derive(Clone, Copy, Debug, PartialEq, Eq, Structural)]
pub enum InGameSet {
    EntityUpdates,
    CollisionDetection,
    DespawnEntities,
}

/// Position of a phase in the tick; lower runs first.
pub open spec fn phase_rank(p: InGameSet) -> int {
    match p {
        InGameSet::EntityUpdates => 0,
        InGameSet::CollisionDetection => 1,
        InGameSet::DespawnEntities => 2,
    }
}

/// The store a tick hands to its collision phase: the previous store spun
/// and integrated, with the tick's one spawned entity — if the countdown
/// fired — admitted at the entity-updates boundary.
pub open spec fn pre_collision(s: Seq<Entity>, dt: int, spawned: Option<Entity>) -> Seq<Entity> {
    let moved = integrate_all(rotate_all(s, dt), dt);
    match spawned {
        Some(a) => moved.push(a),
        None => moved,
    }
}

/// The whole store transformation of one tick.
pub open spec fn tick_result(s: Seq<Entity>, dt: int, spawned: Option<Entity>) -> Seq<Entity> {
    survivors(resolve_all(pre_collision(s, dt, spawned)))
}

/// One full simulation tick over the store.
pub fn run_tick(world: &mut World, rng: &mut rand::rngs::StdRng, dt: u64) -> (spawned: Option<
    Entity,
>)
    requires
        wf_world(*old(world)),
    ensures
        wf_world(*final(world)),
        final(world).entities@ == tick_result(old(world).entities@, dt as int, spawned),
        final(world).spawn_timer.interval_ms == old(world).spawn_timer.interval_ms,
        final(world).spawn_timer.elapsed_ms as int == timer_next(
            old(world).spawn_timer.interval_ms as int,
            old(world).spawn_timer.elapsed_ms as int,
            dt as int,
        ),
        spawned is Some <==> timer_fires(
            old(world).spawn_timer.interval_ms as int,
            old(world).spawn_timer.elapsed_ms as int,
            dt as int,
        ),
        spawned is Some ==> is_spawned_asteroid(spawned.unwrap(), old(world).next_id)
            && final(world).next_id == next_id_after(old(world).next_id),
        spawned is None ==> final(world).next_id == old(world).next_id,
{
    rotate_asteroids(world, dt);
    update_movement(world, dt);
    let spawned = spawn_asteroid(world, rng, dt);
    apply_collisions(world);
    despawn_far_away_entities(world);
    despawn_dead_entities(world);
    proof {
        lemma_reap_composition(resolve_all(pre_collision(old(world).entities@, dt as int, spawned)));
    }
    spawned
}

/// What a tick hands to the next: no entity with exhausted health and no
/// entity beyond the distance bound is ever observed by a later tick's
/// phases — negative health exists only between the collision phase and
/// the despawn phase of the tick that caused it.
pub proof fn lemma_tick_leaves_live_store(s: Seq<Entity>, dt: int, spawned: Option<Entity>)
    ensures
        forall|i: int|
            0 <= i < tick_result(s, dt, spawned).len() ==> !reaped(
                #[trigger] tick_result(s, dt, spawned)[i],
            ),
{
    lemma_survivors_not_reaped(resolve_all(pre_collision(s, dt, spawned)));
}

/// Despawn ordering: an entity whose health the collision phase of this
/// tick brought to zero (or below) takes part in that whole collision pass
/// — `resolve_all` reads the full pre-phase store — yet is absent from the
/// store the next tick begins with.
pub proof fn lemma_despawn_ordering(s: Seq<Entity>, dt: int, spawned: Option<Entity>, i: int)
    requires
        0 <= i < pre_collision(s, dt, spawned).len(),
        resolve_all(pre_collision(s, dt, spawned))[i].health is Some,
        resolve_all(pre_collision(s, dt, spawned))[i].health.unwrap().value <= 0,
    ensures
        !tick_result(s, dt, spawned).contains(resolve_all(pre_collision(s, dt, spawned))[i]),
{
    let resolved = resolve_all(pre_collision(s, dt, spawned));
    assert(reaped(resolved[i]));
    lemma_reaped_absent(resolved, resolved[i]);
}

} // verus!
