//! The integrator: advances every entity's velocity by its acceleration and
//! its translation by the updated velocity, the same elapsed time for all
//! entities in the tick. Runs in the entity-updates phase, after spawning,
//! so an entity created this tick is first integrated next tick.

use vstd::prelude::*;
use crate::entity::{Entity, wf_entity};
use crate::fx::{fx_bounded, scale_by_time};
use crate::vec3::{scalar_step, vec_step};
use crate::world::{World, wf_world};

verus! {

/// One entity advanced by `dt` milliseconds: the velocity takes up the
/// acceleration first, then the translation takes up the updated velocity.
pub open spec fn integrate_entity(e: Entity, dt: int) -> Entity {
    let v = vec_step(e.velocity, e.acceleration, dt);
    Entity { velocity: v, translation: vec_step(e.translation, v, dt), ..e }
}

/// The whole store advanced by `dt`.
pub open spec fn integrate_all(s: Seq<Entity>, dt: int) -> Seq<Entity> {
    s.map_values(|e: Entity| integrate_entity(e, dt))
}

/// Advance velocity and translation of every stored entity by `dt`.
pub fn update_movement(world: &mut World, dt: u64)
    requires
        wf_world(*old(world)),
    ensures
        final(world).entities@ == integrate_all(old(world).entities@, dt as int),
        final(world).spawn_timer == old(world).spawn_timer,
        final(world).next_id == old(world).next_id,
        wf_world(*final(world)),
{
    let ghost orig = world.entities@;
    let mut out: Vec<Entity> = Vec::new();
    let mut i: usize = 0;
    while i < world.entities.len()
        invariant
            world.entities@ == orig,
            forall|j: int| 0 <= j < orig.len() ==> wf_entity(#[trigger] orig[j]),
            i <= orig.len(),
            out@.len() == i,
            forall|j: int| 0 <= j < i ==> out@[j] == integrate_entity(orig[j], dt as int),
            forall|j: int| 0 <= j < i ==> wf_entity(#[trigger] out@[j]),
        decreases orig.len() - i,
    {
        let e = world.entities[i];
        let v = e.velocity.step(e.acceleration, dt);
        let t = e.translation.step(v, dt);
        let ne = Entity { velocity: v, translation: t, ..e };
        out.push(ne);
        i = i + 1;
    }
    assert(out@ =~= integrate_all(orig, dt as int));
    world.entities = out;
}

/// `|scale_by_time(x, dt)| <= (bx * bd) / 1000` for `|x| <= bx`, `dt <= bd`.
proof fn lemma_scale_bound(x: int, dt: int, bx: int, bd: int)
    requires
        -bx <= x <= bx,
        0 <= dt <= bd,
        0 <= bx,
    ensures
        -((bx * bd) / 1000) <= scale_by_time(x, dt) <= (bx * bd) / 1000,
{
    if x >= 0 {
        assert(0 <= x * dt <= bx * bd) by (nonlinear_arith)
            requires
                0 <= x <= bx,
                0 <= dt <= bd,
        ;
        vstd::arithmetic::div_mod::lemma_div_is_ordered(x * dt, bx * bd, 1000);
        vstd::arithmetic::div_mod::lemma_div_is_ordered(0, x * dt, 1000);
    } else {
        assert(0 <= (-x) * dt <= bx * bd) by (nonlinear_arith)
            requires
                0 <= -x <= bx,
                0 <= dt <= bd,
        ;
        vstd::arithmetic::div_mod::lemma_div_is_ordered((-x) * dt, bx * bd, 1000);
        vstd::arithmetic::div_mod::lemma_div_is_ordered(0, (-x) * dt, 1000);
    }
}

/// Exact scalar integration step whenever nothing saturates.
proof fn lemma_scalar_step_exact(v: int, rate: int, dt: int)
    requires
        fx_bounded(scale_by_time(rate, dt)),
        fx_bounded(v + scale_by_time(rate, dt)),
    ensures
        scalar_step(v, rate, dt) == v + scale_by_time(rate, dt),
{
}

/// Integration law: for an entity with velocity `v` and acceleration `a`,
/// one tick of duration `dt` yields velocity `v + a*dt` and translation
/// `p + (v + a*dt)*dt`, exactly — saturation excluded by keeping every
/// input comfortably inside the representable band.
pub proof fn lemma_integration_exact(e: Entity, dt: int)
    requires
        0 <= dt <= 1_000_000,
        -100_000_000_000 <= e.velocity.x <= 100_000_000_000,
        -100_000_000_000 <= e.velocity.y <= 100_000_000_000,
        -100_000_000_000 <= e.velocity.z <= 100_000_000_000,
        -100_000_000_000 <= e.acceleration.x <= 100_000_000_000,
        -100_000_000_000 <= e.acceleration.y <= 100_000_000_000,
        -100_000_000_000 <= e.acceleration.z <= 100_000_000_000,
        -1_000_000_000_000 <= e.translation.x <= 1_000_000_000_000,
        -1_000_000_000_000 <= e.translation.y <= 1_000_000_000_000,
        -1_000_000_000_000 <= e.translation.z <= 1_000_000_000_000,
    ensures
        integrate_entity(e, dt).velocity.x == e.velocity.x + scale_by_time(e.acceleration.x as int, dt),
        integrate_entity(e, dt).velocity.y == e.velocity.y + scale_by_time(e.acceleration.y as int, dt),
        integrate_entity(e, dt).velocity.z == e.velocity.z + scale_by_time(e.acceleration.z as int, dt),
        integrate_entity(e, dt).translation.x == e.translation.x + scale_by_time(
            integrate_entity(e, dt).velocity.x as int, dt),
        integrate_entity(e, dt).translation.y == e.translation.y + scale_by_time(
            integrate_entity(e, dt).velocity.y as int, dt),
        integrate_entity(e, dt).translation.z == e.translation.z + scale_by_time(
            integrate_entity(e, dt).velocity.z as int, dt),
{
    lemma_exact_axis(e.velocity.x as int, e.acceleration.x as int, e.translation.x as int, dt);
    lemma_exact_axis(e.velocity.y as int, e.acceleration.y as int, e.translation.y as int, dt);
    lemma_exact_axis(e.velocity.z as int, e.acceleration.z as int, e.translation.z as int, dt);
}

/// One axis of the integration law.
proof fn lemma_exact_axis(v: int, a: int, p: int, dt: int)
    requires
        0 <= dt <= 1_000_000,
        -100_000_000_000 <= v <= 100_000_000_000,
        -100_000_000_000 <= a <= 100_000_000_000,
        -1_000_000_000_000 <= p <= 1_000_000_000_000,
    ensures
        scalar_step(v, a, dt) == v + scale_by_time(a, dt),
        scalar_step(p, scalar_step(v, a, dt), dt) == p + scale_by_time(v + scale_by_time(a, dt), dt),
{
    let b: int = 100_000_000_000;
    let bd: int = 1_000_000;
    lemma_scale_bound(a, dt, b, bd);
    assert((b * bd) / 1000 == 100_000_000_000_000);
    lemma_scalar_step_exact(v, a, dt);
    let v2 = v + scale_by_time(a, dt);
    lemma_scale_bound(v2, dt, 100_100_000_000_000, bd);
    assert((100_100_000_000_000 * bd) / 1000 == 100_100_000_000_000_000);
    lemma_scalar_step_exact(p, v2, dt);
}

} // verus!
