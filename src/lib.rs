//! Gameplay core of a small survival game: a player holding a flashlight
//! fends off enemies through timed nights.
//!
//! Every quantity is a fixed-point integer: lengths in thousandths of a world
//! unit, times in milliseconds, health in thousandths of a point, angles in
//! milliradians and ratios in thousandths. Rendering, physics, trigonometry
//! and input plumbing are left to the embedding application, which hands in
//! what they produce (positions, ray hits, wave samples) each tick.

pub mod controls;
pub mod enemy;
pub mod geometry;
pub mod level;
pub mod light;
pub mod mirror;
mod random;
pub mod spawner;
pub mod state;
pub mod survival;

pub use rand::rngs::SmallRng;
