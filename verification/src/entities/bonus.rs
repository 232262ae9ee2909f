//! The bonuses that a level holds for the craft to take.

use vstd::prelude::*;

verus! {

/// What a bonus gives.
#[derive(Clone, Copy, Debug, PartialEq, Eq, Structural)]
pub enum BonusKind {
    Fuel,
    Life,
    Coin,
}

/// A bonus: the visual code that the level gave it, what it gives, and
/// whether the craft has taken it.
#[derive(Clone, Copy, Debug, PartialEq, Eq, Structural)]
pub struct Bonus {
    pub initial_sprite: usize,
    pub kind: BonusKind,
    pub taken: bool,
}

} // verus!
