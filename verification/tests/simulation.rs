//! End-to-end checks of the tick pipeline on concrete stores.

use asteroids::asteroids::{spawn_asteroid, SPAWN_TIME_MS};
use asteroids::collision_detection::apply_collisions;
use asteroids::despawn::{despawn_dead_entities, despawn_far_away_entities};
use asteroids::entity::{Entity, Kind};
use asteroids::health::Health;
use asteroids::movement::update_movement;
use asteroids::schedule::run_tick;
use asteroids::timer::SpawnTimer;
use asteroids::vec3::Vec3Fx;
use asteroids::world::World;
use rand::SeedableRng;

fn rng_for_tests() -> rand::rngs::StdRng {
    rand::rngs::StdRng::seed_from_u64(0x5eed)
}

fn plain_entity(id: u64, x: i64, y: i64, z: i64) -> Entity {
    Entity {
        id,
        kind: Kind::Asteroid,
        translation: Vec3Fx { x, y, z },
        yaw: 0,
        roll: 0,
        velocity: Vec3Fx { x: 0, y: 0, z: 0 },
        acceleration: Vec3Fx { x: 0, y: 0, z: 0 },
        collider: None,
        health: None,
        damage: None,
    }
}

fn world_of(entities: Vec<Entity>) -> World {
    World {
        entities,
        spawn_timer: SpawnTimer::new(1_000_000),
        next_id: 1000,
    }
}

#[test]
fn integration_one_second() {
    let e = Entity {
        velocity: Vec3Fx { x: 1000, y: 0, z: -2000 },
        acceleration: Vec3Fx { x: 500, y: 0, z: 250 },
        ..plain_entity(1, 0, 0, 0)
    };
    let mut w = world_of(vec![e]);
    update_movement(&mut w, 1000);
    let e = w.entities[0];
    assert_eq!(e.velocity, Vec3Fx { x: 1500, y: 0, z: -1750 });
    assert_eq!(e.translation, Vec3Fx { x: 1500, y: 0, z: -1750 });
}

#[test]
fn integration_half_second() {
    let e = Entity {
        velocity: Vec3Fx { x: 1000, y: 0, z: 0 },
        acceleration: Vec3Fx { x: 500, y: 0, z: 0 },
        ..plain_entity(1, 100, 0, 0)
    };
    let mut w = world_of(vec![e]);
    update_movement(&mut w, 500);
    let e = w.entities[0];
    // v = 1000 + 500*500/1000 = 1250; p = 100 + 1250*500/1000 = 725
    assert_eq!(e.velocity.x, 1250);
    assert_eq!(e.translation.x, 725);
}

#[test]
fn spawn_scenario_one_tick() {
    // Spawn interval 1.0 s, one tick of 1.0 s: exactly one asteroid with
    // the configured health, damage and radius, and y exactly 0.
    let mut w = World::new(1000);
    let mut rng = rng_for_tests();
    let spawned = spawn_asteroid(&mut w, &mut rng, 1000);
    let a = spawned.expect("the countdown completed, one asteroid is owed");
    assert_eq!(w.entity_count(), 1);
    assert_eq!(a.health, Some(Health { value: 100_000 }));
    assert_eq!(a.damage, Some(35_000));
    assert_eq!(a.collider, Some(2_500));
    assert_eq!(a.translation.y, 0);
    assert_eq!(a.kind, Kind::Asteroid);
}

#[test]
fn spawn_waits_for_the_interval() {
    let mut w = World::new(1000);
    let mut rng = rng_for_tests();
    assert!(spawn_asteroid(&mut w, &mut rng, 999).is_none());
    assert_eq!(w.entity_count(), 0);
    // The missing millisecond completes the period.
    assert!(spawn_asteroid(&mut w, &mut rng, 1).is_some());
    assert_eq!(w.entity_count(), 1);
}

#[test]
fn spawn_bounds_hold_over_many_spawns() {
    let mut w = World::new(1000);
    let mut rng = rng_for_tests();
    for _ in 0..50 {
        let a = spawn_asteroid(&mut w, &mut rng, 1000).expect("one spawn per interval");
        assert!(-25_000 <= a.translation.x && a.translation.x <= 25_000);
        assert!(0 <= a.translation.z && a.translation.z <= 25_000);
        assert_eq!(a.translation.y, 0);
        // Velocity is a unit direction scaled by 5 units per second.
        let v = a.velocity;
        assert_eq!(v.y, 0);
        assert!(v.x.abs() <= 5_000 && v.z.abs() <= 5_000);
    }
    assert_eq!(w.entity_count(), 50);
}

#[test]
fn collision_symmetric_damage() {
    let a = Entity {
        collider: Some(2_500),
        health: Some(Health::new(100_000)),
        damage: Some(35_000),
        ..plain_entity(1, 0, 0, 0)
    };
    let b = Entity {
        collider: Some(2_500),
        health: Some(Health::new(80_000)),
        damage: Some(10_000),
        ..plain_entity(2, 3_000, 0, 0)
    };
    let mut w = world_of(vec![a, b]);
    apply_collisions(&mut w);
    assert_eq!(w.entities[0].health, Some(Health { value: 90_000 }));
    assert_eq!(w.entities[1].health, Some(Health { value: 45_000 }));
}

#[test]
fn zero_damage_side_still_takes_damage() {
    let a = Entity {
        collider: Some(2_500),
        health: Some(Health::new(10_000)),
        damage: Some(0),
        ..plain_entity(1, 0, 0, 0)
    };
    let b = Entity {
        collider: Some(2_500),
        health: Some(Health::new(50_000)),
        damage: Some(35_000),
        ..plain_entity(2, 1_000, 0, 0)
    };
    let mut w = world_of(vec![a, b]);
    apply_collisions(&mut w);
    assert_eq!(w.entities[0].health, Some(Health { value: -25_000 }));
    assert_eq!(w.entities[1].health, Some(Health { value: 50_000 }));
}

#[test]
fn no_self_collision_single_entity() {
    let a = Entity {
        collider: Some(2_500),
        health: Some(Health::new(100_000)),
        damage: Some(35_000),
        ..plain_entity(1, 0, 0, 0)
    };
    let mut w = world_of(vec![a]);
    apply_collisions(&mut w);
    assert_eq!(w.entities[0].health, Some(Health { value: 100_000 }));
}

#[test]
fn collision_boundary_is_inclusive() {
    // Radius 1.0 each: at centre distance exactly 2.0 the spheres touch.
    let a = Entity {
        collider: Some(1_000),
        health: Some(Health::new(100_000)),
        damage: Some(5_000),
        ..plain_entity(1, 0, 0, 0)
    };
    let b = Entity {
        collider: Some(1_000),
        health: Some(Health::new(100_000)),
        damage: Some(5_000),
        ..plain_entity(2, 2_000, 0, 0)
    };
    let mut w = world_of(vec![a, b]);
    apply_collisions(&mut w);
    assert_eq!(w.entities[0].health, Some(Health { value: 95_000 }));
    assert_eq!(w.entities[1].health, Some(Health { value: 95_000 }));
}

#[test]
fn collision_beyond_sum_of_radii_misses() {
    let a = Entity {
        collider: Some(1_000),
        health: Some(Health::new(100_000)),
        damage: Some(5_000),
        ..plain_entity(1, 0, 0, 0)
    };
    let b = Entity {
        collider: Some(1_000),
        health: Some(Health::new(100_000)),
        damage: Some(5_000),
        ..plain_entity(2, 2_001, 0, 0)
    };
    let mut w = world_of(vec![a, b]);
    apply_collisions(&mut w);
    assert_eq!(w.entities[0].health, Some(Health { value: 100_000 }));
    assert_eq!(w.entities[1].health, Some(Health { value: 100_000 }));
}

#[test]
fn distance_despawn_is_strict() {
    // Exactly at the bound (100 units): kept. Beyond it: removed.
    let at_bound = plain_entity(1, 100_000, 0, 0);
    let beyond = plain_entity(2, 100_001, 0, 0);
    let far = plain_entity(3, 0, 0, 101_000);
    let mut w = world_of(vec![at_bound, beyond, far]);
    despawn_far_away_entities(&mut w);
    assert_eq!(w.entity_count(), 1);
    assert_eq!(w.entities[0].id, 1);
}

#[test]
fn dead_entities_are_removed_exactly_at_zero() {
    let dead = Entity { health: Some(Health::new(0)), ..plain_entity(1, 0, 0, 0) };
    let alive = Entity { health: Some(Health::new(1)), ..plain_entity(2, 0, 0, 0) };
    let no_health = plain_entity(3, 0, 0, 0);
    let mut w = world_of(vec![dead, alive, no_health]);
    despawn_dead_entities(&mut w);
    assert_eq!(w.entity_count(), 2);
    assert_eq!(w.entities[0].id, 2);
    assert_eq!(w.entities[1].id, 3);
}

#[test]
fn despawn_ordering_within_one_tick() {
    // A's health exactly matches B's damage: A takes part in this tick's
    // collision pass (B feels A's damage) and is gone at the tick's end.
    let a = Entity {
        collider: Some(2_500),
        health: Some(Health::new(35_000)),
        damage: Some(10_000),
        ..plain_entity(1, 0, 0, 0)
    };
    let b = Entity {
        collider: Some(2_500),
        health: Some(Health::new(100_000)),
        damage: Some(35_000),
        ..plain_entity(2, 1_000, 0, 0)
    };
    let mut w = world_of(vec![a, b]);
    let mut rng = rng_for_tests();
    let spawned = run_tick(&mut w, &mut rng, 0);
    assert!(spawned.is_none());
    assert_eq!(w.entity_count(), 1);
    assert_eq!(w.entities[0].id, 2);
    assert_eq!(w.entities[0].health, Some(Health { value: 90_000 }));
}

#[test]
fn run_tick_spawn_scenario() {
    let mut w = World::new(SPAWN_TIME_MS);
    let mut rng = rng_for_tests();
    let spawned = run_tick(&mut w, &mut rng, 1000);
    let a = spawned.expect("interval of 1.0 s elapsed in one tick");
    assert_eq!(w.entity_count(), 1);
    // The fresh asteroid is admitted after integration: it still sits at
    // its spawn translation.
    assert_eq!(w.entities[0], a);
    assert_eq!(a.health, Some(Health { value: 100_000 }));
    assert_eq!(a.damage, Some(35_000));
    assert_eq!(a.collider, Some(2_500));
    assert_eq!(a.translation.y, 0);
}

#[test]
fn run_tick_cadence_split_across_ticks() {
    // 0.6 s + 0.4 s sums to the 1.0 s interval: exactly one asteroid.
    let mut w = World::new(1000);
    let mut rng = rng_for_tests();
    assert!(run_tick(&mut w, &mut rng, 600).is_none());
    assert!(run_tick(&mut w, &mut rng, 400).is_some());
    assert_eq!(w.entity_count(), 1);
}

#[test]
fn long_stalled_frame_spawns_at_most_once() {
    // 3.5 intervals in one frame still admit one asteroid only.
    let mut w = World::new(1000);
    let mut rng = rng_for_tests();
    assert!(run_tick(&mut w, &mut rng, 3_500).is_some());
    assert_eq!(w.entity_count(), 1);
    assert_eq!(w.spawn_timer.elapsed_ms, 500);
}
