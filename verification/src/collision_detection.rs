//! The collision resolver: every unordered pair of distinct entities that
//! both carry colliders is tested for overlap, and each overlapping side
//! loses the other's damage value from its health. The phase reads the
//! pre-phase snapshot of positions and radii, writes only health, and never
//! removes anything: death is enacted one phase later by the reaper.

use vstd::prelude::*;
use crate::entity::{Entity, wf_entity};
use crate::fx::{FX_MAX, fx_bounded, fx_clip, fx_clip128};
use crate::health::Health;
use crate::vec3::dist_sq;
use crate::world::{World, wf_world};

verus! {

/// Both entities carry colliders and their bounding spheres overlap:
/// centre distance at most the sum of the radii, boundary inclusive.
pub open spec fn touching(a: Entity, b: Entity) -> bool {
    &&& a.collider is Some
    &&& b.collider is Some
    &&& dist_sq(a.translation, b.translation) <= (a.collider.unwrap() + b.collider.unwrap()) * (
    a.collider.unwrap() + b.collider.unwrap())
}

/// Damage dealt to `s[i]` by `s[j]`: `j`'s own damage value when the two
/// are distinct entities, they overlap, and `j` carries damage; else zero.
/// An entity is never tested against itself.
pub open spec fn pair_damage(s: Seq<Entity>, i: int, j: int) -> int {
    if i != j && touching(s[i], s[j]) && s[j].damage is Some {
        s[j].damage.unwrap() as int
    } else {
        0
    }
}

/// Total damage entity `i` takes this phase from the first `n` entities;
/// simultaneous contacts each apply independently.
pub open spec fn incoming_damage_upto(s: Seq<Entity>, i: int, n: int) -> int
    decreases n,
{
    if n <= 0 {
        0
    } else {
        incoming_damage_upto(s, i, n - 1) + pair_damage(s, i, n - 1)
    }
}

pub open spec fn incoming_damage(s: Seq<Entity>, i: int) -> int {
    incoming_damage_upto(s, i, s.len() as int)
}

/// Entity `i` after the phase: bearing health, it loses its total incoming
/// damage (saturating at the representable band); otherwise unchanged.
pub open spec fn damaged_entity(s: Seq<Entity>, i: int) -> Entity {
    let e = s[i];
    if e.health is Some {
        Entity {
            health: Some(
                Health { value: fx_clip(e.health.unwrap().value - incoming_damage(s, i)) as i64 },
            ),
            ..e
        }
    } else {
        e
    }
}

/// The whole store after one collision phase.
pub open spec fn resolve_all(s: Seq<Entity>) -> Seq<Entity> {
    s.map(|i: int, e: Entity| damaged_entity(s, i))
}

/// Overlap test on the snapshot values.
fn touches(a: &Entity, b: &Entity) -> (r: bool)
    requires
        wf_entity(*a),
        wf_entity(*b),
    ensures
        r == touching(*a, *b),
{
    match (a.collider, b.collider) {
        (Some(ra), Some(rb)) => {
            let dx: i128 = a.translation.x as i128 - b.translation.x as i128;
            let dy: i128 = a.translation.y as i128 - b.translation.y as i128;
            let dz: i128 = a.translation.z as i128 - b.translation.z as i128;
            assert(dx * dx <= 4_000_000_000_000_000_000_000_000_000_000_000_000
                && dy * dy <= 4_000_000_000_000_000_000_000_000_000_000_000_000
                && dz * dz <= 4_000_000_000_000_000_000_000_000_000_000_000_000
                && dx * dx >= 0 && dy * dy >= 0 && dz * dz >= 0) by (nonlinear_arith)
                requires
                    -2_000_000_000_000_000_000 <= dx <= 2_000_000_000_000_000_000,
                    -2_000_000_000_000_000_000 <= dy <= 2_000_000_000_000_000_000,
                    -2_000_000_000_000_000_000 <= dz <= 2_000_000_000_000_000_000,
            ;
            let d2: i128 = dx * dx + dy * dy + dz * dz;
            let rsum: i128 = ra as i128 + rb as i128;
            assert(rsum * rsum <= 4_000_000_000_000_000_000_000_000_000_000_000_000)
                by (nonlinear_arith)
                requires
                    0 <= rsum <= 2_000_000_000_000_000_000,
            ;
            d2 <= rsum * rsum
        },
        _ => false,
    }
}

/// Apply one collision phase to the store.
pub fn apply_collisions(world: &mut World)
    requires
        wf_world(*old(world)),
    ensures
        final(world).entities@ == resolve_all(old(world).entities@),
        final(world).spawn_timer == old(world).spawn_timer,
        final(world).next_id == old(world).next_id,
        wf_world(*final(world)),
{
    let ghost orig = world.entities@;
    let n: usize = world.entities.len();
    let mut out: Vec<Entity> = Vec::new();
    let mut i: usize = 0;
    while i < n
        invariant
            world.entities@ == orig,
            n == orig.len(),
            forall|k: int| 0 <= k < orig.len() ==> wf_entity(#[trigger] orig[k]),
            i <= n,
            out@.len() == i,
            forall|k: int| 0 <= k < i ==> out@[k] == damaged_entity(orig, k),
            forall|k: int| 0 <= k < i ==> wf_entity(#[trigger] out@[k]),
        decreases n - i,
    {
        let e = world.entities[i];
        if e.health.is_some() {
            let mut acc: i128 = 0;
            let mut j: usize = 0;
            while j < n
                invariant
                    world.entities@ == orig,
                    n == orig.len(),
                    forall|k: int| 0 <= k < orig.len() ==> wf_entity(#[trigger] orig[k]),
                    i < n,
                    j <= n,
                    e == orig[i as int],
                    acc == incoming_damage_upto(orig, i as int, j as int),
                    0 <= acc <= (j as int) * (FX_MAX as int),
                decreases n - j,
            {
                if j != i {
                    let o = world.entities[j];
                    if o.damage.is_some() && touches(&e, &o) {
                        acc = acc + o.damage.unwrap() as i128;
                    }
                }
                j = j + 1;
            }
            let h = match e.health {
                Some(hh) => hh.value,
                None => 0,
            };
            let nh: i64 = fx_clip128(h as i128 - acc);
            let ne = Entity { health: Some(Health::new(nh)), ..e };
            out.push(ne);
        } else {
            out.push(e);
        }
        i = i + 1;
    }
    assert(out@ =~= resolve_all(orig));
    world.entities = out;
}

/// Overlap is mutual: the two sides of a pair see the same contact.
pub proof fn lemma_touching_symmetric(a: Entity, b: Entity)
    ensures
        touching(a, b) == touching(b, a),
{
    assert(dist_sq(a.translation, b.translation) == dist_sq(b.translation, a.translation))
        by (nonlinear_arith);
}

/// Collision symmetry: in a store of two overlapping entities A and B that
/// both bear health and damage, one phase subtracts exactly B's damage from
/// A's health and exactly A's damage from B's health — saturation excluded
/// by keeping the values inside the representable band.
pub proof fn lemma_collision_symmetry(s: Seq<Entity>)
    requires
        s.len() == 2,
        s[0].health is Some,
        s[1].health is Some,
        s[0].damage is Some,
        s[1].damage is Some,
        touching(s[0], s[1]),
        fx_bounded(s[0].health.unwrap().value - s[1].damage.unwrap()),
        fx_bounded(s[1].health.unwrap().value - s[0].damage.unwrap()),
    ensures
        resolve_all(s)[0].health.unwrap().value == s[0].health.unwrap().value
            - s[1].damage.unwrap(),
        resolve_all(s)[1].health.unwrap().value == s[1].health.unwrap().value
            - s[0].damage.unwrap(),
{
    lemma_touching_symmetric(s[0], s[1]);
    assert(incoming_damage_upto(s, 0, 0) == 0);
    assert(incoming_damage_upto(s, 0, 1) == 0);
    assert(incoming_damage(s, 0) == s[1].damage.unwrap());
    assert(incoming_damage_upto(s, 1, 0) == 0);
    assert(incoming_damage_upto(s, 1, 1) == s[0].damage.unwrap());
    assert(incoming_damage(s, 1) == s[0].damage.unwrap());
}

/// No self-collision: a store holding a single entity comes through the
/// phase unchanged, even though the entity's own sphere trivially overlaps
/// itself.
pub proof fn lemma_no_self_collision(s: Seq<Entity>)
    requires
        s.len() == 1,
        wf_entity(s[0]),
    ensures
        resolve_all(s) == s,
{
    assert(incoming_damage_upto(s, 0, 0) == 0);
    assert(incoming_damage(s, 0) == 0);
    if s[0].health is Some {
        assert(damaged_entity(s, 0) == s[0]);
    }
    assert(resolve_all(s) =~= s);
}

} // verus!
