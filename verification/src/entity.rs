//! An entity record: an identifier plus its component values. Marker roles
//! (ship, missile, asteroid) are a kind field, not separate types; component
//! absence is an `Option`, so querying "entities bearing health" is a field
//! test, not a type test.

use vstd::prelude::*;
use crate::fx::{FX_MAX, fx_bounded};
use crate::health::Health;
use crate::vec3::{Vec3Fx, vec_bounded};

verus! {

/// Which role the entity plays; tag only, no payload.
#[derive(Clone, Copy, Debug, PartialEq, Eq, Structural)]
pub enum Kind {
    Spaceship,
    SpaceshipMissile,
    Asteroid,
}

#[derive(Clone, Copy, Debug, PartialEq, Eq, Structural)]
pub struct Entity {
    /// Opaque identifier; relations between entities go through this, never
    /// through ownership.
    pub id: u64,
    pub kind: Kind,
    /// Centre of the entity, mutated only by the integrator.
    pub translation: Vec3Fx,
    /// Rotation about the world y axis, fixed-point radians.
    pub yaw: i64,
    /// Rotation about the local z axis, fixed-point radians.
    pub roll: i64,
    pub velocity: Vec3Fx,
    /// Read-only input to the integrator.
    pub acceleration: Vec3Fx,
    /// Bounding-sphere radius, if the entity takes part in collision.
    pub collider: Option<i64>,
    pub health: Option<Health>,
    /// How much health this entity subtracts from anything it overlaps.
    pub damage: Option<i64>,
}

/// Structural bounds every stored entity obeys: scalars representable, a
/// collider radius strictly positive, damage nonnegative.
pub open spec fn wf_entity(e: Entity) -> bool {
    &&& vec_bounded(e.translation)
    &&& vec_bounded(e.velocity)
    &&& vec_bounded(e.acceleration)
    &&& fx_bounded(e.yaw as int)
    &&& fx_bounded(e.roll as int)
    &&& (e.health is Some ==> fx_bounded(e.health.unwrap().value as int))
    &&& (e.collider is Some ==> 0 < e.collider.unwrap() <= FX_MAX)
    &&& (e.damage is Some ==> 0 <= e.damage.unwrap() <= FX_MAX)
}

} // verus!
