//! Simulation core of a 2D wave shooter: entity motion, projectile/enemy
//! collision, the bounds reaper, enemy spawning and wave progression.
//!
//! All geometry is fixed point. Positions are in thousandths of a world unit,
//! directions are unit vectors scaled by `DIR_ONE`, durations are in
//! microseconds and the time scale is in thousandths.

pub mod geometry;
pub mod timer;
pub mod bullet;
pub mod player;
pub mod enemy;
pub mod level;
pub mod game;
