//! Fixed-timestep simulation core of a small arcade shooter.
//!
//! Time is counted in ticks of one sixtieth of a second. Positions and
//! extents are integers in sub-pixels, six hundred to the pixel, so that a
//! speed of `v` pixels per second moves an entity by exactly `10 * v`
//! sub-pixels per tick.
//!
//! [`world::World::step`] runs one tick in a fixed order: the game-state
//! machine ([`control`]), the player's movement and firing ([`player`]),
//! the flight of projectiles ([`projectile`]), explosions ([`explosion`]),
//! the collision pass ([`collision`]), the removal of projectiles that left
//! the screen, the score ([`score`]) and the enemy formation
//! ([`formation`]). Each stage is a function with an exact contract, and
//! the laws that relate several ticks are proof functions beside it.

pub mod timer;
pub mod geometry;
pub mod projectile;
pub mod formation;
pub mod collision;
pub mod control;
pub mod player;
pub mod score;
pub mod explosion;
pub mod world;
