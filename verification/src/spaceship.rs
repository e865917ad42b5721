//! Ship control and weapon fire. These systems consume the same store as
//! the pipeline but run from player intent: each tick the surrounding loop
//! reads the raw key states once, computes the ship's forward unit vector
//! from its orientation, and hands both in as plain values. They assume —
//! as a fatal precondition of the surrounding game, not a recoverable
//! error — that exactly one ship exists.

use vstd::prelude::*;
use crate::entity::{Entity, Kind, wf_entity};
use crate::fx::{fx_clip, fx_mul, fx_mul_spec, fx_add, fx_scale_time};
use crate::vec3::{Vec3Fx, scalar_step, vec_bounded};
use crate::world::{World, wf_world};

verus! {

pub const STARTING_TRANSLATION_Z: i64 = -20_000;

/// Forward speed of the ship, fixed-point units per second.
pub const SPACESHIP_SPEED: i64 = 25_000;

/// Yaw rate while a turn key is held, fixed-point radians per second.
pub const SPACESHIP_ROTATION_SPEED: i64 = 2_500;

pub const SPACESHIP_ROLL_SPEED: i64 = 2_500;

pub const SPACESHIP_RADIUS: i64 = 5_000;

pub const MISSILE_RADIUS: i64 = 1_000;

pub const MISSILE_SPEED: i64 = 50_000;

/// How far ahead of the ship's nose a missile appears.
pub const MISSILE_FORWARD_SPAWN_SCALAR: i64 = 7_500;

/// The raw key states the controls read once per tick.
#[derive(Clone, Copy, Debug, PartialEq, Eq, Structural)]
pub struct InputState {
    pub forward: bool,
    pub backward: bool,
    pub turn_left: bool,
    pub turn_right: bool,
    pub roll_left: bool,
    pub roll_right: bool,
    pub fire: bool,
}

/// Yaw rate chosen by the turn keys; turning right is the negative sense.
pub open spec fn yaw_rate(input: InputState) -> int {
    if input.turn_right {
        -(SPACESHIP_ROTATION_SPEED as int)
    } else if input.turn_left {
        SPACESHIP_ROTATION_SPEED as int
    } else {
        0
    }
}

pub open spec fn roll_rate(input: InputState) -> int {
    if input.roll_left {
        -(SPACESHIP_ROLL_SPEED as int)
    } else if input.roll_right {
        SPACESHIP_ROLL_SPEED as int
    } else {
        0
    }
}

/// Signed speed chosen by the thrust keys; backward wins over forward.
pub open spec fn movement_amount(input: InputState) -> int {
    if input.backward {
        -(SPACESHIP_SPEED as int)
    } else if input.forward {
        SPACESHIP_SPEED as int
    } else {
        0
    }
}

/// A vector scaled against the ship's forward direction: component-wise
/// fixed-point product of `-fwd` with the signed amount, saturating.
pub open spec fn along_forward(fwd: Vec3Fx, amount: int) -> Vec3Fx {
    Vec3Fx {
        x: fx_clip(fx_mul_spec(-(fwd.x as int), amount)) as i64,
        y: fx_clip(fx_mul_spec(-(fwd.y as int), amount)) as i64,
        z: fx_clip(fx_mul_spec(-(fwd.z as int), amount)) as i64,
    }
}

/// The ship after one control tick: orientation advanced by the chosen
/// rates, velocity overwritten with the new forward intent.
pub open spec fn ship_updated(e: Entity, input: InputState, fwd: Vec3Fx, dt: int) -> Entity {
    Entity {
        yaw: scalar_step(e.yaw as int, yaw_rate(input), dt) as i64,
        roll: scalar_step(e.roll as int, roll_rate(input), dt) as i64,
        velocity: along_forward(fwd, movement_amount(input)),
        ..e
    }
}

/// How many of the first `n` entities are the ship.
pub open spec fn ship_count_upto(s: Seq<Entity>, n: int) -> int
    decreases n,
{
    if n <= 0 {
        0
    } else {
        ship_count_upto(s, n - 1) + if s[n - 1].kind is Spaceship {
            1int
        } else {
            0int
        }
    }
}

pub open spec fn ships_in(s: Seq<Entity>) -> int {
    ship_count_upto(s, s.len() as int)
}

/// The controls applied across the store: the one ship is updated, every
/// other entity untouched.
pub open spec fn controls_applied(s: Seq<Entity>, input: InputState, fwd: Vec3Fx, dt: int) -> Seq<
    Entity,
> {
    s.map_values(
        |e: Entity|
            if e.kind is Spaceship {
                ship_updated(e, input, fwd, dt)
            } else {
                e
            },
    )
}

/// Component-wise `-fwd * amount`, saturating.
fn scale_against_forward(fwd: Vec3Fx, amount: i64) -> (v: Vec3Fx)
    requires
        vec_bounded(fwd),
        -100_000 <= amount <= 100_000,
    ensures
        v == along_forward(fwd, amount as int),
        vec_bounded(v),
{
    Vec3Fx { x: fx_mul(-fwd.x, amount), y: fx_mul(-fwd.y, amount), z: fx_mul(-fwd.z, amount) }
}

/// Read the turn, roll and thrust keys and steer the ship: yaw and local
/// roll advance by the chosen rate times `dt`, and the velocity is
/// overwritten with the new forward direction times the chosen speed.
pub fn spaceship_movement_controls(world: &mut World, input: InputState, fwd: Vec3Fx, dt: u64)
    requires
        wf_world(*old(world)),
        ships_in(old(world).entities@) == 1,
        vec_bounded(fwd),
    ensures
        final(world).entities@ == controls_applied(old(world).entities@, input, fwd, dt as int),
        final(world).spawn_timer == old(world).spawn_timer,
        final(world).next_id == old(world).next_id,
        wf_world(*final(world)),
{
    let rot: i64 = if input.turn_right {
        -SPACESHIP_ROTATION_SPEED
    } else if input.turn_left {
        SPACESHIP_ROTATION_SPEED
    } else {
        0
    };
    let roll: i64 = if input.roll_left {
        -SPACESHIP_ROLL_SPEED
    } else if input.roll_right {
        SPACESHIP_ROLL_SPEED
    } else {
        0
    };
    let movement: i64 = if input.backward {
        -SPACESHIP_SPEED
    } else if input.forward {
        SPACESHIP_SPEED
    } else {
        0
    };
    let ghost orig = world.entities@;
    let mut out: Vec<Entity> = Vec::new();
    let mut i: usize = 0;
    while i < world.entities.len()
        invariant
            world.entities@ == orig,
            forall|j: int| 0 <= j < orig.len() ==> wf_entity(#[trigger] orig[j]),
            i <= orig.len(),
            out@.len() == i,
            rot as int == yaw_rate(input),
            roll as int == roll_rate(input),
            movement as int == movement_amount(input),
            vec_bounded(fwd),
            forall|j: int|
                0 <= j < i ==> out@[j] == (if orig[j].kind is Spaceship {
                    ship_updated(orig[j], input, fwd, dt as int)
                } else {
                    orig[j]
                }),
            forall|j: int| 0 <= j < i ==> wf_entity(#[trigger] out@[j]),
        decreases orig.len() - i,
    {
        let e = world.entities[i];
        let ne = match e.kind {
            Kind::Spaceship => Entity {
                yaw: fx_add(e.yaw, fx_scale_time(rot, dt)),
                roll: fx_add(e.roll, fx_scale_time(roll, dt)),
                velocity: scale_against_forward(fwd, movement),
                ..e
            },
            _ => e,
        };
        out.push(ne);
        i = i + 1;
    }
    assert(out@ =~= controls_applied(orig, input, fwd, dt as int));
    world.entities = out;
}

/// The missile a fire press creates: it leaves the ship's nose along the
/// ship's forward direction at missile speed, carrying only a collider —
/// no health and no contact damage of its own.
pub open spec fn missile_from(ship: Entity, fwd: Vec3Fx, id: u64) -> Entity {
    Entity {
        id,
        kind: Kind::SpaceshipMissile,
        translation: Vec3Fx {
            x: fx_clip(ship.translation.x + fx_clip(fx_mul_spec(-(fwd.x as int), MISSILE_FORWARD_SPAWN_SCALAR as int))) as i64,
            y: fx_clip(ship.translation.y + fx_clip(fx_mul_spec(-(fwd.y as int), MISSILE_FORWARD_SPAWN_SCALAR as int))) as i64,
            z: fx_clip(ship.translation.z + fx_clip(fx_mul_spec(-(fwd.z as int), MISSILE_FORWARD_SPAWN_SCALAR as int))) as i64,
        },
        yaw: ship.yaw,
        roll: ship.roll,
        velocity: along_forward(fwd, MISSILE_SPEED as int),
        acceleration: Vec3Fx { x: 0i64, y: 0i64, z: 0i64 },
        collider: Some(MISSILE_RADIUS),
        health: None,
        damage: None,
    }
}

/// No ship among the first `n` entities means a count of zero.
proof fn lemma_no_ship_prefix(s: Seq<Entity>, n: int)
    requires
        0 <= n <= s.len(),
        forall|j: int| 0 <= j < n ==> !((#[trigger] s[j]).kind is Spaceship),
    ensures
        ship_count_upto(s, n) == 0,
    decreases n,
{
    if n > 0 {
        lemma_no_ship_prefix(s, n - 1);
    }
}

/// Read the fire key; on a press, create one missile at the ship's nose.
pub fn spaceship_weapon_controls(world: &mut World, input: InputState, fwd: Vec3Fx)
    requires
        wf_world(*old(world)),
        ships_in(old(world).entities@) == 1,
        vec_bounded(fwd),
    ensures
        wf_world(*final(world)),
        final(world).spawn_timer == old(world).spawn_timer,
        !input.fire ==> final(world).entities@ == old(world).entities@ && final(world).next_id
            == old(world).next_id,
        input.fire ==> final(world).next_id == crate::asteroids::next_id_after(
            old(world).next_id,
        ) && exists|i: int|
            0 <= i < old(world).entities@.len() && (#[trigger] old(world).entities@[i]).kind
                is Spaceship && final(world).entities@ == old(world).entities@.push(
                missile_from(old(world).entities@[i], fwd, old(world).next_id),
            ),
{
    if !input.fire {
        return ;
    }
    let ghost orig = world.entities@;
    let n: usize = world.entities.len();
    let mut i: usize = 0;
    while i < n
        invariant
            world.entities@ == orig,
            orig == old(world).entities@,
            world.spawn_timer == old(world).spawn_timer,
            world.next_id == old(world).next_id,
            n == orig.len(),
            i <= n,
            forall|j: int| 0 <= j < orig.len() ==> wf_entity(#[trigger] orig[j]),
            world.spawn_timer.wf(),
            vec_bounded(fwd),
            input.fire,
            forall|j: int| 0 <= j < i ==> !((#[trigger] orig[j]).kind is Spaceship),
            ships_in(orig) == 1,
        decreases n - i,
    {
        let e = world.entities[i];
        let is_ship = match e.kind {
            Kind::Spaceship => true,
            _ => false,
        };
        if is_ship {
            let id = world.next_id;
            world.next_id = if id < u64::MAX {
                id + 1
            } else {
                id
            };
            let tr = Vec3Fx {
                x: fx_add(e.translation.x, fx_mul(-fwd.x, MISSILE_FORWARD_SPAWN_SCALAR)),
                y: fx_add(e.translation.y, fx_mul(-fwd.y, MISSILE_FORWARD_SPAWN_SCALAR)),
                z: fx_add(e.translation.z, fx_mul(-fwd.z, MISSILE_FORWARD_SPAWN_SCALAR)),
            };
            let m = Entity {
                id,
                kind: Kind::SpaceshipMissile,
                translation: tr,
                yaw: e.yaw,
                roll: e.roll,
                velocity: scale_against_forward(fwd, MISSILE_SPEED),
                acceleration: Vec3Fx { x: 0, y: 0, z: 0 },
                collider: Some(MISSILE_RADIUS),
                health: None,
                damage: None,
            };
            assert(m == missile_from(orig[i as int], fwd, id));
            world.entities.push(m);
            assert(0 <= i < orig.len() && orig[i as int].kind is Spaceship
                && world.entities@ == orig.push(missile_from(orig[i as int], fwd, id)));
            return ;
        }
        i = i + 1;
    }
    proof {
        lemma_no_ship_prefix(orig, orig.len() as int);
    }
    assert(false);
}

/// The ship as game start creates it: at the starting translation, at
/// rest, with its collider and no health or damage component.
pub open spec fn fresh_spaceship(id: u64) -> Entity {
    Entity {
        id,
        kind: Kind::Spaceship,
        translation: Vec3Fx { x: 0i64, y: 0i64, z: STARTING_TRANSLATION_Z },
        yaw: 0i64,
        roll: 0i64,
        velocity: Vec3Fx { x: 0i64, y: 0i64, z: 0i64 },
        acceleration: Vec3Fx { x: 0i64, y: 0i64, z: 0i64 },
        collider: Some(SPACESHIP_RADIUS),
        health: None,
        damage: None,
    }
}

/// Create the player ship at game start.
pub fn spawn_spaceship(world: &mut World)
    requires
        wf_world(*old(world)),
    ensures
        final(world).entities@ == old(world).entities@.push(fresh_spaceship(old(world).next_id)),
        final(world).spawn_timer == old(world).spawn_timer,
        final(world).next_id == crate::asteroids::next_id_after(old(world).next_id),
        wf_world(*final(world)),
{
    let id = world.next_id;
    world.next_id = if id < u64::MAX {
        id + 1
    } else {
        id
    };
    let e = Entity {
        id,
        kind: Kind::Spaceship,
        translation: Vec3Fx { x: 0, y: 0, z: STARTING_TRANSLATION_Z },
        yaw: 0,
        roll: 0,
        velocity: Vec3Fx { x: 0, y: 0, z: 0 },
        acceleration: Vec3Fx { x: 0, y: 0, z: 0 },
        collider: Some(SPACESHIP_RADIUS),
        health: None,
        damage: None,
    };
    world.entities.push(e);
}

} // verus!
