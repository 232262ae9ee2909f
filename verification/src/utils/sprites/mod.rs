//! Sizes shared by everything that is drawn from the sprite sheets.

use vstd::prelude::*;

pub mod plasma_doors;

verus! {

/// Height of the visible screen, in sub-units.
pub const SCREEN_HEIGHT: i64 = 576_000;

/// Width of the visible screen, in sub-units.
pub const SCREEN_WIDTH: i64 = 704_000;

/// The visual code of a grid cell that holds no tile.
pub const NO_TILE_ID: i32 = -1;

/// Side of one level tile, in sub-units.
pub const TILE_SIZE: i64 = 32_000;

/// The visual code of the blade of a blade saw.
pub const BLADE_SAW_SPRITE: usize = 78;

} // verus!
