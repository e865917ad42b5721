//! Simulation core of an arcade space-combat game: a store of entities
//! (ship, missiles, asteroids) advanced once per tick through three strictly
//! ordered phases — entity updates (spawning, integration), collision
//! resolution, and despawning.
//!
//! All quantities are fixed-point: a stored scalar `x` stands for `x / 1000`
//! world units, and durations are in milliseconds, so the same scale serves
//! both space and time.

pub mod asteroids;
pub mod collision_detection;
pub mod despawn;
pub mod entity;
pub mod fx;
pub mod health;
pub mod movement;
pub mod rng;
pub mod schedule;
pub mod spaceship;
pub mod state;
pub mod timer;
pub mod vec3;
pub mod world;
