//! The spawner and the asteroid spin system. On each tick the spawner
//! advances the repeating countdown by the elapsed frame time; when the
//! countdown has just completed its period it creates exactly one asteroid
//! with randomized translation, velocity direction, and acceleration
//! direction, and fixed radius, health, and contact damage.

use vstd::prelude::*;
use crate::entity::{Entity, Kind, wf_entity};
use crate::health::Health;
use crate::rng::sample_range_i64;
use crate::timer::{timer_fires, timer_next};
use crate::vec3::{Vec3Fx, dir_scaled, dir_scaled_spec, scalar_step};
use crate::world::{World, wf_world};

verus! {

/// Speed given to a fresh asteroid, fixed-point units per second.
pub const VELOCITY_SCALAR: i64 = 5_000;

/// Magnitude of a fresh asteroid's acceleration.
pub const ACCELERATION_SCALAR: i64 = 1_000;

pub const SPAWN_RANGE_X_MIN: i64 = -25_000;

pub const SPAWN_RANGE_X_MAX: i64 = 25_000;

pub const SPAWN_RANGE_Z_MIN: i64 = 0;

pub const SPAWN_RANGE_Z_MAX: i64 = 25_000;

/// Period of the spawn countdown, milliseconds.
pub const SPAWN_TIME_MS: u64 = 1_000;

/// Spin rate of an asteroid about its local z axis, fixed-point radians
/// per second.
pub const ROTATE_SPEED: i64 = 1_000;

/// Collider radius of an asteroid.
pub const RADIUS: i64 = 2_500;

/// Health a fresh asteroid starts with.
pub const HEALTH: i64 = 100_000;

/// Damage an asteroid deals on contact.
pub const COLLISION_DAMAGE: i64 = 35_000;

/// Half-width of the raw direction sample, per axis.
pub const DIR_RANGE: i64 = 1_000;

/// A velocity or acceleration a fresh asteroid can carry: some raw x/z
/// sample within range, normalized and scaled to magnitude `mag`.
pub open spec fn sampled_direction(v: Vec3Fx, mag: int) -> bool {
    exists|rx: int, rz: int|
        -(DIR_RANGE as int) <= rx <= DIR_RANGE as int && -(DIR_RANGE as int) <= rz <= DIR_RANGE
            as int && v == #[trigger] dir_scaled_spec(rx, rz, mag)
}

/// Everything the spawner promises about the one entity it creates.
pub open spec fn is_spawned_asteroid(e: Entity, id: u64) -> bool {
    &&& e.id == id
    &&& e.kind is Asteroid
    &&& SPAWN_RANGE_X_MIN as int <= e.translation.x <= SPAWN_RANGE_X_MAX as int
    &&& e.translation.y == 0
    &&& SPAWN_RANGE_Z_MIN as int <= e.translation.z <= SPAWN_RANGE_Z_MAX as int
    &&& e.yaw == 0
    &&& e.roll == 0
    &&& sampled_direction(e.velocity, VELOCITY_SCALAR as int)
    &&& sampled_direction(e.acceleration, ACCELERATION_SCALAR as int)
    &&& e.collider == Some(RADIUS)
    &&& e.health == Some(Health { value: HEALTH })
    &&& e.damage == Some(COLLISION_DAMAGE)
    &&& wf_entity(e)
}

/// The identifier counter after handing one identifier out.
pub open spec fn next_id_after(id: u64) -> u64 {
    if id < u64::MAX {
        (id + 1) as u64
    } else {
        id
    }
}

/// Advance the spawn countdown by `dt`; when it completes its period,
/// create exactly one randomized asteroid. Never removes or mutates
/// existing entities. Runs in the entity-updates phase; the entity it
/// creates is admitted at the phase boundary, so it is first integrated
/// next tick.
pub fn spawn_asteroid(world: &mut World, rng: &mut rand::rngs::StdRng, dt: u64) -> (spawned: Option<
    Entity,
>)
    requires
        wf_world(*old(world)),
    ensures
        wf_world(*final(world)),
        final(world).spawn_timer.interval_ms == old(world).spawn_timer.interval_ms,
        final(world).spawn_timer.elapsed_ms as int == timer_next(
            old(world).spawn_timer.interval_ms as int,
            old(world).spawn_timer.elapsed_ms as int,
            dt as int,
        ),
        spawned is Some <==> timer_fires(
            old(world).spawn_timer.interval_ms as int,
            old(world).spawn_timer.elapsed_ms as int,
            dt as int,
        ),
        spawned is None ==> final(world).entities@ == old(world).entities@
            && final(world).next_id == old(world).next_id,
        spawned is Some ==> is_spawned_asteroid(spawned.unwrap(), old(world).next_id)
            && final(world).entities@ == old(world).entities@.push(spawned.unwrap())
            && final(world).next_id == next_id_after(old(world).next_id),
{
    let finished = world.spawn_timer.tick(dt);
    if !finished {
        return None;
    }
    let tx = sample_range_i64(rng, SPAWN_RANGE_X_MIN, SPAWN_RANGE_X_MAX);
    let tz = sample_range_i64(rng, SPAWN_RANGE_Z_MIN, SPAWN_RANGE_Z_MAX);
    let vx = sample_range_i64(rng, -DIR_RANGE, DIR_RANGE);
    let vz = sample_range_i64(rng, -DIR_RANGE, DIR_RANGE);
    let ax = sample_range_i64(rng, -DIR_RANGE, DIR_RANGE);
    let az = sample_range_i64(rng, -DIR_RANGE, DIR_RANGE);
    let velocity = dir_scaled(vx, vz, VELOCITY_SCALAR);
    let acceleration = dir_scaled(ax, az, ACCELERATION_SCALAR);
    let id = world.next_id;
    world.next_id = if id < u64::MAX {
        id + 1
    } else {
        id
    };
    let e = Entity {
        id,
        kind: Kind::Asteroid,
        translation: Vec3Fx { x: tx, y: 0, z: tz },
        yaw: 0,
        roll: 0,
        velocity,
        acceleration,
        collider: Some(RADIUS),
        health: Some(Health::new(HEALTH)),
        damage: Some(COLLISION_DAMAGE),
    };
    assert(sampled_direction(e.velocity, VELOCITY_SCALAR as int)) by {
        assert(e.velocity == dir_scaled_spec(vx as int, vz as int, VELOCITY_SCALAR as int));
    }
    assert(sampled_direction(e.acceleration, ACCELERATION_SCALAR as int)) by {
        assert(e.acceleration == dir_scaled_spec(ax as int, az as int, ACCELERATION_SCALAR as int));
    }
    world.entities.push(e);
    Some(e)
}

/// One entity after the spin system: an asteroid's local-z rotation is
/// advanced by the fixed angular rate, independent of its kinematics;
/// everything else is untouched.
pub open spec fn rotated_entity(e: Entity, dt: int) -> Entity {
    if e.kind is Asteroid {
        Entity { roll: scalar_step(e.roll as int, ROTATE_SPEED as int, dt) as i64, ..e }
    } else {
        e
    }
}

pub open spec fn rotate_all(s: Seq<Entity>, dt: int) -> Seq<Entity> {
    s.map_values(|e: Entity| rotated_entity(e, dt))
}

/// Advance every asteroid's spin by the fixed rate times `dt`.
pub fn rotate_asteroids(world: &mut World, dt: u64)
    requires
        wf_world(*old(world)),
    ensures
        final(world).entities@ == rotate_all(old(world).entities@, dt as int),
        final(world).spawn_timer == old(world).spawn_timer,
        final(world).next_id == old(world).next_id,
        wf_world(*final(world)),
{
    let ghost orig = world.entities@;
    let mut out: Vec<Entity> = Vec::new();
    let mut i: usize = 0;
    while i < world.entities.len()
        invariant
            world.entities@ == orig,
            forall|j: int| 0 <= j < orig.len() ==> wf_entity(#[trigger] orig[j]),
            i <= orig.len(),
            out@.len() == i,
            forall|j: int| 0 <= j < i ==> out@[j] == rotated_entity(orig[j], dt as int),
            forall|j: int| 0 <= j < i ==> wf_entity(#[trigger] out@[j]),
        decreases orig.len() - i,
    {
        let e = world.entities[i];
        let ne = match e.kind {
            Kind::Asteroid => Entity {
                roll: crate::fx::fx_add(e.roll, crate::fx::fx_scale_time(ROTATE_SPEED, dt)),
                ..e
            },
            _ => e,
        };
        out.push(ne);
        i = i + 1;
    }
    assert(out@ =~= rotate_all(orig, dt as int));
    world.entities = out;
}

} // verus!
