//! Checks of the individual systems and helpers on concrete values.

use asteroids::asteroids::rotate_asteroids;
use asteroids::entity::{Entity, Kind};
use asteroids::fx::{fx_add, fx_mul, fx_scale_time, isqrt64, FX_MAX};
use asteroids::health::Health;
use asteroids::spaceship::{
    spaceship_movement_controls, spaceship_weapon_controls, spawn_spaceship, InputState,
};
use asteroids::state::{game_state_input_events, GameState};
use asteroids::timer::SpawnTimer;
use asteroids::vec3::{dir_scaled, Vec3Fx};
use asteroids::world::World;

fn idle_input() -> InputState {
    InputState {
        forward: false,
        backward: false,
        turn_left: false,
        turn_right: false,
        roll_left: false,
        roll_right: false,
        fire: false,
    }
}

#[test]
fn timer_fires_once_when_splits_sum_to_interval() {
    for split in [vec![1000], vec![600, 400], vec![300, 300, 400], vec![999, 1], vec![1, 999]] {
        let mut t = SpawnTimer::new(1000);
        let mut fires = 0;
        for dt in split {
            if t.tick(dt) {
                fires += 1;
            }
        }
        assert_eq!(fires, 1);
        assert_eq!(t.elapsed_ms, 0);
    }
}

#[test]
fn timer_keeps_overshoot() {
    let mut t = SpawnTimer::new(1000);
    assert!(t.tick(1700));
    assert_eq!(t.elapsed_ms, 700);
    assert!(t.tick(300));
    assert_eq!(t.elapsed_ms, 0);
}

#[test]
fn fx_scaling_rounds_toward_zero() {
    assert_eq!(fx_scale_time(1500, 2000), 3000);
    assert_eq!(fx_scale_time(-1500, 2000), -3000);
    assert_eq!(fx_scale_time(999, 1), 0);
    assert_eq!(fx_scale_time(-999, 1), 0);
    assert_eq!(fx_add(FX_MAX, FX_MAX), FX_MAX);
    assert_eq!(fx_mul(-2000, 3000), -6000);
}

#[test]
fn isqrt_exact_values() {
    assert_eq!(isqrt64(0), 0);
    assert_eq!(isqrt64(1), 1);
    assert_eq!(isqrt64(3), 1);
    assert_eq!(isqrt64(4), 2);
    assert_eq!(isqrt64(999_999), 999);
    assert_eq!(isqrt64(1_000_000), 1000);
    assert_eq!(isqrt64(2_000_000), 1414);
}

#[test]
fn direction_scaling_normalizes() {
    // A 3-4-5 direction scaled to 5 units per second.
    let v = dir_scaled(600, 800, 5_000);
    assert_eq!(v, Vec3Fx { x: 3_000, y: 0, z: 4_000 });
    let w = dir_scaled(-600, 800, 5_000);
    assert_eq!(w, Vec3Fx { x: -3_000, y: 0, z: 4_000 });
}

#[test]
fn zero_direction_yields_zero_vector() {
    // The degenerate sample spawns a stationary entity, not an error.
    let v = dir_scaled(0, 0, 5_000);
    assert_eq!(v, Vec3Fx { x: 0, y: 0, z: 0 });
}

#[test]
fn rotate_asteroids_advances_roll_only() {
    let mut w = World::new(1000);
    spawn_spaceship(&mut w);
    w.entities.push(Entity {
        id: 7,
        kind: Kind::Asteroid,
        translation: Vec3Fx { x: 0, y: 0, z: 0 },
        yaw: 0,
        roll: 100,
        velocity: Vec3Fx { x: 0, y: 0, z: 0 },
        acceleration: Vec3Fx { x: 0, y: 0, z: 0 },
        collider: Some(2_500),
        health: Some(Health::new(100_000)),
        damage: Some(35_000),
    });
    rotate_asteroids(&mut w, 500);
    // The ship does not spin passively; the asteroid gains 1.0 rad/s * 0.5 s.
    assert_eq!(w.entities[0].roll, 0);
    assert_eq!(w.entities[1].roll, 600);
}

#[test]
fn spawned_spaceship_is_at_the_start() {
    let mut w = World::new(1000);
    spawn_spaceship(&mut w);
    let s = w.entities[0];
    assert_eq!(s.kind, Kind::Spaceship);
    assert_eq!(s.translation, Vec3Fx { x: 0, y: 0, z: -20_000 });
    assert_eq!(s.collider, Some(5_000));
    assert!(s.health.is_none());
    assert!(s.damage.is_none());
}

#[test]
fn movement_controls_set_velocity_from_forward() {
    let mut w = World::new(1000);
    spawn_spaceship(&mut w);
    // Forward is the -z direction while the ship is unrotated.
    let fwd = Vec3Fx { x: 0, y: 0, z: -1_000 };
    let input = InputState { forward: true, ..idle_input() };
    spaceship_movement_controls(&mut w, input, fwd, 16);
    assert_eq!(w.entities[0].velocity, Vec3Fx { x: 0, y: 0, z: 25_000 });
    let input = InputState { backward: true, ..idle_input() };
    spaceship_movement_controls(&mut w, input, fwd, 16);
    assert_eq!(w.entities[0].velocity, Vec3Fx { x: 0, y: 0, z: -25_000 });
}

#[test]
fn movement_controls_turn_and_roll() {
    let mut w = World::new(1000);
    spawn_spaceship(&mut w);
    let fwd = Vec3Fx { x: 0, y: 0, z: -1_000 };
    let input = InputState { turn_left: true, roll_right: true, ..idle_input() };
    spaceship_movement_controls(&mut w, input, fwd, 1000);
    assert_eq!(w.entities[0].yaw, 2_500);
    assert_eq!(w.entities[0].roll, 2_500);
    let input = InputState { turn_right: true, roll_left: true, ..idle_input() };
    spaceship_movement_controls(&mut w, input, fwd, 2000);
    assert_eq!(w.entities[0].yaw, -2_500);
    assert_eq!(w.entities[0].roll, -2_500);
}

#[test]
fn weapon_controls_fire_one_missile() {
    let mut w = World::new(1000);
    spawn_spaceship(&mut w);
    let fwd = Vec3Fx { x: 0, y: 0, z: -1_000 };
    spaceship_weapon_controls(&mut w, idle_input(), fwd);
    assert_eq!(w.entity_count(), 1);
    let input = InputState { fire: true, ..idle_input() };
    spaceship_weapon_controls(&mut w, input, fwd);
    assert_eq!(w.entity_count(), 2);
    let m = w.entities[1];
    assert_eq!(m.kind, Kind::SpaceshipMissile);
    // The missile leaves the nose: 7.5 units ahead of z = -20.
    assert_eq!(m.translation, Vec3Fx { x: 0, y: 0, z: -12_500 });
    assert_eq!(m.velocity, Vec3Fx { x: 0, y: 0, z: 50_000 });
    assert_eq!(m.collider, Some(1_000));
    assert!(m.health.is_none());
    assert!(m.damage.is_none());
}

#[test]
fn game_state_toggles_on_escape() {
    assert_eq!(game_state_input_events(GameState::InGame, true), Some(GameState::Paused));
    assert_eq!(game_state_input_events(GameState::Paused, true), Some(GameState::InGame));
    assert_eq!(game_state_input_events(GameState::GameOver, true), None);
    assert_eq!(game_state_input_events(GameState::InGame, false), None);
    assert_eq!(game_state_input_events(GameState::Paused, false), None);
}
