//! The blade saws of a level.

use vstd::prelude::*;

verus! {

/// A blade saw, by the cell of the grid where it starts. Rows are counted
/// from the top of the level.
#[derive(Clone, Copy, Debug, PartialEq, Eq, Structural)]
pub struct BladeSaw {
    pub start_x: u32,
    pub start_y: u32,
}

} // verus!
