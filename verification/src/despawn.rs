//! The lifecycle reaper: strictly after collision resolution it removes
//! every entity whose health has dropped to zero or below, and every entity
//! that has drifted strictly beyond the distance bound. Removal is total at
//! the phase boundary — a removed entity is gone before the next tick's
//! phases see the store.

use vstd::prelude::*;
use crate::entity::{Entity, wf_entity};
use crate::world::{World, wf_world};
use crate::vec3::norm_sq;

verus! {

/// Distance from the origin beyond which an entity has left the play area.
pub const DESPAWN_DISTANCE: i64 = 100_000;

/// Health present and exhausted.
pub open spec fn dead(e: Entity) -> bool {
    e.health is Some && e.health.unwrap().value <= 0
}

/// Strictly beyond the distance bound; the boundary itself stays in play.
pub open spec fn far_away(e: Entity) -> bool {
    norm_sq(e.translation) > (DESPAWN_DISTANCE as int) * (DESPAWN_DISTANCE as int)
}

/// What the despawn phase removes; an entity matching both conditions is
/// removed once like any other.
pub open spec fn reaped(e: Entity) -> bool {
    dead(e) || far_away(e)
}

/// The store with the far-away entities removed, order kept.
pub open spec fn without_far(s: Seq<Entity>) -> Seq<Entity>
    decreases s.len(),
{
    if s.len() == 0 {
        Seq::empty()
    } else {
        let rest = without_far(s.drop_last());
        if far_away(s.last()) {
            rest
        } else {
            rest.push(s.last())
        }
    }
}

/// The store with the dead entities removed, order kept.
pub open spec fn without_dead(s: Seq<Entity>) -> Seq<Entity>
    decreases s.len(),
{
    if s.len() == 0 {
        Seq::empty()
    } else {
        let rest = without_dead(s.drop_last());
        if dead(s.last()) {
            rest
        } else {
            rest.push(s.last())
        }
    }
}

/// The store after the whole despawn phase, order kept.
pub open spec fn survivors(s: Seq<Entity>) -> Seq<Entity>
    decreases s.len(),
{
    if s.len() == 0 {
        Seq::empty()
    } else {
        let rest = survivors(s.drop_last());
        if reaped(s.last()) {
            rest
        } else {
            rest.push(s.last())
        }
    }
}

/// Remove every entity strictly farther from the origin than the bound.
pub fn despawn_far_away_entities(world: &mut World)
    requires
        wf_world(*old(world)),
    ensures
        final(world).entities@ == without_far(old(world).entities@),
        final(world).spawn_timer == old(world).spawn_timer,
        final(world).next_id == old(world).next_id,
        wf_world(*final(world)),
{
    let ghost orig = world.entities@;
    let mut out: Vec<Entity> = Vec::new();
    let mut i: usize = 0;
    while i < world.entities.len()
        invariant
            world.entities@ == orig,
            forall|k: int| 0 <= k < orig.len() ==> wf_entity(#[trigger] orig[k]),
            i <= orig.len(),
            out@ == without_far(orig.subrange(0, i as int)),
            forall|k: int| 0 <= k < out@.len() ==> wf_entity(#[trigger] out@[k]),
        decreases orig.len() - i,
    {
        let e = world.entities[i];
        let keep = !is_far_away(&e);
        proof {
            assert(orig.subrange(0, i as int + 1).drop_last() =~= orig.subrange(0, i as int));
            assert(orig.subrange(0, i as int + 1).last() == orig[i as int]);
        }
        if keep {
            out.push(e);
        }
        i = i + 1;
    }
    proof {
        assert(orig.subrange(0, orig.len() as int) =~= orig);
    }
    world.entities = out;
}

/// Remove every entity whose health has dropped to zero or below.
pub fn despawn_dead_entities(world: &mut World)
    requires
        wf_world(*old(world)),
    ensures
        final(world).entities@ == without_dead(old(world).entities@),
        final(world).spawn_timer == old(world).spawn_timer,
        final(world).next_id == old(world).next_id,
        wf_world(*final(world)),
{
    let ghost orig = world.entities@;
    let mut out: Vec<Entity> = Vec::new();
    let mut i: usize = 0;
    while i < world.entities.len()
        invariant
            world.entities@ == orig,
            forall|k: int| 0 <= k < orig.len() ==> wf_entity(#[trigger] orig[k]),
            i <= orig.len(),
            out@ == without_dead(orig.subrange(0, i as int)),
            forall|k: int| 0 <= k < out@.len() ==> wf_entity(#[trigger] out@[k]),
        decreases orig.len() - i,
    {
        let e = world.entities[i];
        let keep = match e.health {
            Some(h) => h.value > 0,
            None => true,
        };
        proof {
            assert(orig.subrange(0, i as int + 1).drop_last() =~= orig.subrange(0, i as int));
            assert(orig.subrange(0, i as int + 1).last() == orig[i as int]);
        }
        if keep {
            out.push(e);
        }
        i = i + 1;
    }
    proof {
        assert(orig.subrange(0, orig.len() as int) =~= orig);
    }
    world.entities = out;
}

/// Exact distance test against the bound, strict.
fn is_far_away(e: &Entity) -> (r: bool)
    requires
        wf_entity(*e),
    ensures
        r == far_away(*e),
{
    let x: i128 = e.translation.x as i128;
    let y: i128 = e.translation.y as i128;
    let z: i128 = e.translation.z as i128;
    assert(x * x <= 4_000_000_000_000_000_000_000_000_000_000_000_000
        && y * y <= 4_000_000_000_000_000_000_000_000_000_000_000_000
        && z * z <= 4_000_000_000_000_000_000_000_000_000_000_000_000
        && x * x >= 0 && y * y >= 0 && z * z >= 0) by (nonlinear_arith)
        requires
            -2_000_000_000_000_000_000 <= x <= 2_000_000_000_000_000_000,
            -2_000_000_000_000_000_000 <= y <= 2_000_000_000_000_000_000,
            -2_000_000_000_000_000_000 <= z <= 2_000_000_000_000_000_000,
    ;
    let d2: i128 = x * x + y * y + z * z;
    let bound: i128 = 10_000_000_000;
    assert(bound == (DESPAWN_DISTANCE as int) * (DESPAWN_DISTANCE as int));
    d2 > bound
}

/// Running the far filter and then the dead filter — the order the phase
/// happens to use — removes exactly the reaped entities.
pub proof fn lemma_reap_composition(s: Seq<Entity>)
    ensures
        without_dead(without_far(s)) == survivors(s),
    decreases s.len(),
{
    if s.len() == 0 {
        assert(without_dead(without_far(s)) =~= survivors(s));
    } else {
        lemma_reap_composition(s.drop_last());
        let e = s.last();
        if far_away(e) {
            assert(without_far(s) == without_far(s.drop_last()));
        } else {
            assert(without_far(s) == without_far(s.drop_last()).push(e));
            lemma_without_dead_push(without_far(s.drop_last()), e);
        }
    }
}

/// Filtering after appending one entity keeps the filtered prefix.
proof fn lemma_without_dead_push(s: Seq<Entity>, e: Entity)
    ensures
        without_dead(s.push(e)) == (if dead(e) {
            without_dead(s)
        } else {
            without_dead(s).push(e)
        }),
{
    assert(s.push(e).drop_last() =~= s);
    assert(s.push(e).last() == e);
}

/// Nothing the phase keeps is dead or out of bounds.
pub proof fn lemma_survivors_not_reaped(s: Seq<Entity>)
    ensures
        forall|i: int| 0 <= i < survivors(s).len() ==> !reaped(#[trigger] survivors(s)[i]),
    decreases s.len(),
{
    if s.len() > 0 {
        lemma_survivors_not_reaped(s.drop_last());
        let r0 = survivors(s.drop_last());
        if !reaped(s.last()) {
            assert forall|i: int| 0 <= i < survivors(s).len() implies !reaped(
                survivors(s)[i],
            ) by {
                if i < r0.len() {
                    assert(survivors(s)[i] == r0[i]);
                } else {
                    assert(survivors(s)[i] == s.last());
                }
            }
        }
    }
}

/// Despawn is total: a reaped entity is absent from the store the next
/// tick starts with.
pub proof fn lemma_reaped_absent(s: Seq<Entity>, e: Entity)
    requires
        reaped(e),
    ensures
        !survivors(s).contains(e),
{
    lemma_survivors_not_reaped(s);
    if survivors(s).contains(e) {
        let i = choose|i: int| 0 <= i < survivors(s).len() && survivors(s)[i] == e;
        assert(!reaped(survivors(s)[i]));
    }
}

/// The distance check is strict: an entity sitting exactly at the bound
/// stays in play (health permitting); one strictly beyond it goes.
pub proof fn lemma_distance_despawn(s: Seq<Entity>, i: int)
    requires
        0 <= i < s.len(),
        !dead(s[i]),
    ensures
        norm_sq(s[i].translation) == (DESPAWN_DISTANCE as int) * (DESPAWN_DISTANCE as int)
            ==> survivors(s).contains(s[i]),
        norm_sq(s[i].translation) > (DESPAWN_DISTANCE as int) * (DESPAWN_DISTANCE as int)
            ==> !survivors(s).contains(s[i]),
{
    if norm_sq(s[i].translation) > (DESPAWN_DISTANCE as int) * (DESPAWN_DISTANCE as int) {
        lemma_reaped_absent(s, s[i]);
    } else {
        lemma_kept_present(s, i);
    }
}

/// Despawn touches nothing else: an entity neither dead nor out of bounds
/// is still there afterwards.
pub proof fn lemma_kept_present(s: Seq<Entity>, i: int)
    requires
        0 <= i < s.len(),
        !reaped(s[i]),
    ensures
        survivors(s).contains(s[i]),
    decreases s.len(),
{
    if i == s.len() - 1 {
        assert(s.last() == s[i]);
        let r = survivors(s);
        assert(r == survivors(s.drop_last()).push(s[i]));
        assert(r[r.len() - 1] == s[i]);
    } else {
        lemma_kept_present(s.drop_last(), i);
        assert(s.drop_last()[i] == s[i]);
        let r0 = survivors(s.drop_last());
        let j = choose|j: int| 0 <= j < r0.len() && r0[j] == s[i];
        if reaped(s.last()) {
            assert(survivors(s)[j] == s[i]);
        } else {
            assert(survivors(s) == r0.push(s.last()));
            assert(survivors(s)[j] == s[i]);
        }
    }
}

} // verus!
