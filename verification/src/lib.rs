//! Collision and projectile-response core of a 2D side-scrolling action game.
//!
//! Every quantity is an integer. Lengths are fixed-point: one world unit is
//! [`utils::UNIT`] sub-units, and all coordinates live in the square
//! `[-WORLD_MAX, WORLD_MAX]`. Time is counted in milliseconds, so a speed in
//! world units per second is, number for number, a speed in sub-units per
//! millisecond.

pub mod entities;
pub mod resources;
pub mod states;
pub mod systems;
pub mod utils;
