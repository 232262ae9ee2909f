//! The sprite-state machine of the plasma doors.
//!
//! A door is drawn with one of twenty visual codes. Sixteen are animation
//! phases: two orientations, four pairs for each, and two phases, A and B,
//! for each pair. Four are the closed edges that a door can come to rest on.

use vstd::prelude::*;

verus! {

pub const CLOSED_PLASMA_LEFT: usize = 144;

pub const CLOSED_PLASMA_RIGHT: usize = 154;

pub const CLOSED_PLASMA_TOP: usize = 134;

pub const CLOSED_PLASMA_BOTTOM: usize = 164;

pub const HORIZONTAL_PLASMA_0_A: usize = 114;

pub const HORIZONTAL_PLASMA_0_B: usize = 124;

pub const HORIZONTAL_PLASMA_1_A: usize = 115;

pub const HORIZONTAL_PLASMA_1_B: usize = 125;

pub const HORIZONTAL_PLASMA_2_A: usize = 116;

pub const HORIZONTAL_PLASMA_2_B: usize = 126;

pub const HORIZONTAL_PLASMA_3_A: usize = 117;

pub const HORIZONTAL_PLASMA_3_B: usize = 127;

pub const VERTICAL_PLASMA_0_A: usize = 135;

pub const VERTICAL_PLASMA_0_B: usize = 136;

pub const VERTICAL_PLASMA_1_A: usize = 145;

pub const VERTICAL_PLASMA_1_B: usize = 146;

pub const VERTICAL_PLASMA_2_A: usize = 155;

pub const VERTICAL_PLASMA_2_B: usize = 156;

pub const VERTICAL_PLASMA_3_A: usize = 165;

pub const VERTICAL_PLASMA_3_B: usize = 166;

/// The passage left fully open.
pub const EMPTY: usize = 41;

/// Is `sprite_nb` phase A of one of the eight pairs?
pub open spec fn is_phase_a(sprite_nb: usize) -> bool {
    sprite_nb == HORIZONTAL_PLASMA_0_A || sprite_nb == HORIZONTAL_PLASMA_1_A || sprite_nb
        == HORIZONTAL_PLASMA_2_A || sprite_nb == HORIZONTAL_PLASMA_3_A || sprite_nb
        == VERTICAL_PLASMA_0_A || sprite_nb == VERTICAL_PLASMA_1_A || sprite_nb
        == VERTICAL_PLASMA_2_A || sprite_nb == VERTICAL_PLASMA_3_A
}

/// Is `sprite_nb` phase B of one of the eight pairs?
pub open spec fn is_phase_b(sprite_nb: usize) -> bool {
    sprite_nb == HORIZONTAL_PLASMA_0_B || sprite_nb == HORIZONTAL_PLASMA_1_B || sprite_nb
        == HORIZONTAL_PLASMA_2_B || sprite_nb == HORIZONTAL_PLASMA_3_B || sprite_nb
        == VERTICAL_PLASMA_0_B || sprite_nb == VERTICAL_PLASMA_1_B || sprite_nb
        == VERTICAL_PLASMA_2_B || sprite_nb == VERTICAL_PLASMA_3_B
}

/// Is `sprite_nb` one of the sixteen animation phases?
pub open spec fn is_phase(sprite_nb: usize) -> bool {
    is_phase_a(sprite_nb) || is_phase_b(sprite_nb)
}

/// Is `sprite_nb` a phase of a horizontal door?
pub open spec fn is_horizontal_phase(sprite_nb: usize) -> bool {
    is_phase(sprite_nb) && sprite_nb < CLOSED_PLASMA_TOP
}

/// Is `sprite_nb` a phase of a vertical door?
pub open spec fn is_vertical_phase(sprite_nb: usize) -> bool {
    is_phase(sprite_nb) && sprite_nb > CLOSED_PLASMA_TOP
}

/// Is `sprite_nb` one of the four closed edges?
pub open spec fn is_closed_edge(sprite_nb: usize) -> bool {
    sprite_nb == CLOSED_PLASMA_LEFT || sprite_nb == CLOSED_PLASMA_RIGHT || sprite_nb
        == CLOSED_PLASMA_TOP || sprite_nb == CLOSED_PLASMA_BOTTOM
}

/// The other phase of the pair that `sprite_nb` belongs to, and 0 for a code
/// that is no phase. Within a horizontal pair the phases lie ten codes apart,
/// within a vertical pair one code.
pub open spec fn other_phase(sprite_nb: usize) -> usize {
    if !is_phase(sprite_nb) {
        0
    } else if is_horizontal_phase(sprite_nb) {
        if is_phase_a(sprite_nb) {
            (sprite_nb + 10) as usize
        } else {
            (sprite_nb - 10) as usize
        }
    } else if is_phase_a(sprite_nb) {
        (sprite_nb + 1) as usize
    } else {
        (sprite_nb - 1) as usize
    }
}

/// Is `sprite_nb` a visual code of a door: a phase or a closed edge?
pub open spec fn is_door_part(sprite_nb: usize) -> bool {
    is_phase(sprite_nb) || is_closed_edge(sprite_nb)
}

/// The code that a door showing `sprite_nb` comes to rest on, and 0 for a
/// code that is no door's. The first pair of a horizontal door closes on the
/// left edge and the last on the right edge; the first pair of a vertical
/// door closes on the top edge and the last on the bottom edge; the two pairs
/// in between leave the passage empty. A closed edge rests where it is.
pub open spec fn resting_code(sprite_nb: usize) -> usize {
    if sprite_nb == HORIZONTAL_PLASMA_0_A || sprite_nb == HORIZONTAL_PLASMA_0_B {
        CLOSED_PLASMA_LEFT
    } else if sprite_nb == HORIZONTAL_PLASMA_3_A || sprite_nb == HORIZONTAL_PLASMA_3_B {
        CLOSED_PLASMA_RIGHT
    } else if sprite_nb == VERTICAL_PLASMA_0_A || sprite_nb == VERTICAL_PLASMA_0_B {
        CLOSED_PLASMA_TOP
    } else if sprite_nb == VERTICAL_PLASMA_3_A || sprite_nb == VERTICAL_PLASMA_3_B {
        CLOSED_PLASMA_BOTTOM
    } else if is_phase(sprite_nb) {
        EMPTY
    } else if is_closed_edge(sprite_nb) {
        sprite_nb
    } else {
        0
    }
}

/// Tells whether `sprite_nb` is a visual code of a plasma door: one of the
/// sixteen animation phases or one of the four closed edges.
pub fn is_plasma_door_part(sprite_nb: usize) -> (r: bool)
    ensures
        r == is_door_part(sprite_nb),
{
    match sprite_nb {
        CLOSED_PLASMA_LEFT | CLOSED_PLASMA_RIGHT | CLOSED_PLASMA_TOP | CLOSED_PLASMA_BOTTOM => true,
        HORIZONTAL_PLASMA_0_A | HORIZONTAL_PLASMA_0_B | HORIZONTAL_PLASMA_1_A
        | HORIZONTAL_PLASMA_1_B | HORIZONTAL_PLASMA_2_A | HORIZONTAL_PLASMA_2_B
        | HORIZONTAL_PLASMA_3_A | HORIZONTAL_PLASMA_3_B => true,
        VERTICAL_PLASMA_0_A | VERTICAL_PLASMA_0_B | VERTICAL_PLASMA_1_A | VERTICAL_PLASMA_1_B
        | VERTICAL_PLASMA_2_A | VERTICAL_PLASMA_2_B | VERTICAL_PLASMA_3_A | VERTICAL_PLASMA_3_B => true,
        _ => false,
    }
}

/// The next sprite of an open door: the other phase of the same pair. A code
/// that is no phase gives 0.
pub fn plasma_door_next_sprite(sprite_nb: usize) -> (r: usize)
    ensures
        r == other_phase(sprite_nb),
        is_phase(sprite_nb) ==> is_phase(r) && other_phase(r) == sprite_nb,
{
    match sprite_nb {
        HORIZONTAL_PLASMA_0_A => HORIZONTAL_PLASMA_0_B,
        HORIZONTAL_PLASMA_0_B => HORIZONTAL_PLASMA_0_A,
        HORIZONTAL_PLASMA_1_A => HORIZONTAL_PLASMA_1_B,
        HORIZONTAL_PLASMA_1_B => HORIZONTAL_PLASMA_1_A,
        HORIZONTAL_PLASMA_2_A => HORIZONTAL_PLASMA_2_B,
        HORIZONTAL_PLASMA_2_B => HORIZONTAL_PLASMA_2_A,
        HORIZONTAL_PLASMA_3_A => HORIZONTAL_PLASMA_3_B,
        HORIZONTAL_PLASMA_3_B => HORIZONTAL_PLASMA_3_A,
        VERTICAL_PLASMA_0_A => VERTICAL_PLASMA_0_B,
        VERTICAL_PLASMA_0_B => VERTICAL_PLASMA_0_A,
        VERTICAL_PLASMA_1_A => VERTICAL_PLASMA_1_B,
        VERTICAL_PLASMA_1_B => VERTICAL_PLASMA_1_A,
        VERTICAL_PLASMA_2_A => VERTICAL_PLASMA_2_B,
        VERTICAL_PLASMA_2_B => VERTICAL_PLASMA_2_A,
        VERTICAL_PLASMA_3_A => VERTICAL_PLASMA_3_B,
        VERTICAL_PLASMA_3_B => VERTICAL_PLASMA_3_A,
        _ => 0,
    }
}

/// The sprite that a closing door comes to rest on: a closed edge or the
/// empty passage for every code of a door, and 0 for any other code.
pub fn plasma_door_close_sprite(sprite_nb: usize) -> (r: usize)
    ensures
        r == resting_code(sprite_nb),
        !is_phase(r),
        is_door_part(sprite_nb) ==> is_closed_edge(r) || r == EMPTY,
        !is_door_part(sprite_nb) ==> r == 0,
{
    match sprite_nb {
        HORIZONTAL_PLASMA_0_A => CLOSED_PLASMA_LEFT,
        HORIZONTAL_PLASMA_0_B => CLOSED_PLASMA_LEFT,
        HORIZONTAL_PLASMA_1_A => EMPTY,
        HORIZONTAL_PLASMA_1_B => EMPTY,
        HORIZONTAL_PLASMA_2_A => EMPTY,
        HORIZONTAL_PLASMA_2_B => EMPTY,
        HORIZONTAL_PLASMA_3_A => CLOSED_PLASMA_RIGHT,
        HORIZONTAL_PLASMA_3_B => CLOSED_PLASMA_RIGHT,
        VERTICAL_PLASMA_0_A => CLOSED_PLASMA_TOP,
        VERTICAL_PLASMA_0_B => CLOSED_PLASMA_TOP,
        VERTICAL_PLASMA_1_A => EMPTY,
        VERTICAL_PLASMA_1_B => EMPTY,
        VERTICAL_PLASMA_2_A => EMPTY,
        VERTICAL_PLASMA_2_B => EMPTY,
        VERTICAL_PLASMA_3_A => CLOSED_PLASMA_BOTTOM,
        VERTICAL_PLASMA_3_B => CLOSED_PLASMA_BOTTOM,
        CLOSED_PLASMA_LEFT => CLOSED_PLASMA_LEFT,
        CLOSED_PLASMA_RIGHT => CLOSED_PLASMA_RIGHT,
        CLOSED_PLASMA_TOP => CLOSED_PLASMA_TOP,
        CLOSED_PLASMA_BOTTOM => CLOSED_PLASMA_BOTTOM,
        _ => 0,
    }
}

/// Toggling an animation phase twice gives the phase back.
pub proof fn next_sprite_is_involution(sprite_nb: usize)
    requires
        is_phase(sprite_nb),
    ensures
        other_phase(other_phase(sprite_nb)) == sprite_nb,
        other_phase(sprite_nb) != sprite_nb,
{
}

/// A closing door never comes to rest on an animation phase. From every
/// code of a door, phase or closed edge, it comes to rest on a closed edge or
/// on the empty passage, and on 0 from no code of a door. Both phases of a
/// pair rest on the same code, and a closed edge rests where it is, so that
/// closing a closed door changes nothing.
pub proof fn close_sprite_is_terminal(sprite_nb: usize)
    ensures
        !is_phase(resting_code(sprite_nb)),
        is_door_part(sprite_nb) ==> is_closed_edge(resting_code(sprite_nb)) || resting_code(
            sprite_nb,
        ) == EMPTY,
        is_door_part(sprite_nb) ==> resting_code(sprite_nb) != 0,
        is_phase(sprite_nb) ==> resting_code(other_phase(sprite_nb)) == resting_code(sprite_nb),
        is_closed_edge(sprite_nb) ==> resting_code(sprite_nb) == sprite_nb,
        is_closed_edge(resting_code(sprite_nb)) ==> resting_code(resting_code(sprite_nb))
            == resting_code(sprite_nb),
        !is_door_part(sprite_nb) ==> resting_code(sprite_nb) == 0,
{
}

/// A door keeps to the codes of its orientation: toggling a horizontal
/// phase gives a horizontal phase, and closing it gives the left edge, the
/// right edge or the empty passage; toggling a vertical phase gives a
/// vertical phase, and closing it gives the top edge, the bottom edge or the
/// empty passage.
pub proof fn door_keeps_its_orientation(sprite_nb: usize)
    requires
        is_phase(sprite_nb),
    ensures
        is_horizontal_phase(sprite_nb) != is_vertical_phase(sprite_nb),
        is_horizontal_phase(sprite_nb) ==> {
            &&& is_horizontal_phase(other_phase(sprite_nb))
            &&& resting_code(sprite_nb) == CLOSED_PLASMA_LEFT || resting_code(sprite_nb)
                == CLOSED_PLASMA_RIGHT || resting_code(sprite_nb) == EMPTY
        },
        is_vertical_phase(sprite_nb) ==> {
            &&& is_vertical_phase(other_phase(sprite_nb))
            &&& resting_code(sprite_nb) == CLOSED_PLASMA_TOP || resting_code(sprite_nb)
                == CLOSED_PLASMA_BOTTOM || resting_code(sprite_nb) == EMPTY
        },
{
}

} // verus!
