//! Plasma doors as the level holds them.

use vstd::prelude::*;

verus! {

/// Whether a door stands closed or cycles through its open phases.
#[derive(Clone, Copy, Debug, PartialEq, Eq, Structural)]
pub enum DoorState {
    Closed,
    Cycling,
}

/// A door: the visual code that the level gave it, and its state. Its hitbox
/// never changes; only the code that is drawn does.
#[derive(Clone, Copy, Debug, PartialEq, Eq, Structural)]
pub struct PlasmaDoor {
    pub initial_sprite: usize,
    pub state: DoorState,
}

} // verus!
