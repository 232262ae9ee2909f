//! The rule table from a wall tile's visual code to its hitbox.

use crate::entities::collision::{rects_proper, Collider, Colliders};
use crate::utils::{placeable, Point2D};
use vstd::prelude::*;

verus! {

pub const TOP_LEFT_WALL: usize = 30;

pub const TOP_WALL: usize = 31;

pub const TOP_RIGHT_WALL: usize = 32;

pub const LEFT_WALL: usize = 40;

pub const RIGHT_WALL: usize = 42;

pub const BOTTOM_LEFT_WALL: usize = 50;

pub const BOTTOM_WALL: usize = 51;

pub const BOTTOM_RIGHT_WALL: usize = 52;

/// Long side of an edge rectangle: the side of a tile.
pub const EDGE_LENGTH: i64 = 32_000;

/// Short side of an edge rectangle.
pub const EDGE_THICKNESS: i64 = 8_000;

/// How far the right and the bottom edge sit from the tile's anchor, so that
/// they lie flush against the far side of the tile.
pub const EDGE_OFFSET: i64 = 24_000;

/// The edge along the top of the tile anchored at `(x, y)`.
pub open spec fn top_edge(x: int, y: int) -> Collider {
    Collider {
        anchor: Point2D { x: x as i64, y: y as i64 },
        width: EDGE_LENGTH,
        height: (-EDGE_THICKNESS) as i64,
    }
}

/// The edge down the left side of the tile anchored at `(x, y)`.
pub open spec fn left_edge(x: int, y: int) -> Collider {
    Collider {
        anchor: Point2D { x: x as i64, y: y as i64 },
        width: EDGE_THICKNESS,
        height: (-EDGE_LENGTH) as i64,
    }
}

/// The edge down the right side of the tile anchored at `(x, y)`.
pub open spec fn right_edge(x: int, y: int) -> Collider {
    Collider {
        anchor: Point2D { x: (x + EDGE_OFFSET) as i64, y: y as i64 },
        width: EDGE_THICKNESS,
        height: (-EDGE_LENGTH) as i64,
    }
}

/// The edge along the bottom of the tile anchored at `(x, y)`.
pub open spec fn bottom_edge(x: int, y: int) -> Collider {
    Collider {
        anchor: Point2D { x: x as i64, y: (y - EDGE_OFFSET) as i64 },
        width: EDGE_LENGTH,
        height: (-EDGE_THICKNESS) as i64,
    }
}

/// Is `sprite_nb` one of the eight wall codes?
pub open spec fn is_wall(sprite_nb: usize) -> bool {
    sprite_nb == TOP_LEFT_WALL || sprite_nb == TOP_WALL || sprite_nb == TOP_RIGHT_WALL || sprite_nb
        == LEFT_WALL || sprite_nb == RIGHT_WALL || sprite_nb == BOTTOM_LEFT_WALL || sprite_nb
        == BOTTOM_WALL || sprite_nb == BOTTOM_RIGHT_WALL
}

/// The rectangles of the wall `sprite_nb` on the tile anchored at `(x, y)`;
/// none for a code that is no wall.
pub open spec fn wall_rects(sprite_nb: usize, x: int, y: int) -> Seq<Collider> {
    if sprite_nb == TOP_LEFT_WALL {
        seq![top_edge(x, y), left_edge(x, y)]
    } else if sprite_nb == TOP_WALL {
        seq![top_edge(x, y)]
    } else if sprite_nb == TOP_RIGHT_WALL {
        seq![top_edge(x, y), right_edge(x, y)]
    } else if sprite_nb == LEFT_WALL {
        seq![left_edge(x, y)]
    } else if sprite_nb == RIGHT_WALL {
        seq![right_edge(x, y)]
    } else if sprite_nb == BOTTOM_LEFT_WALL {
        seq![bottom_edge(x, y), left_edge(x, y)]
    } else if sprite_nb == BOTTOM_WALL {
        seq![bottom_edge(x, y)]
    } else if sprite_nb == BOTTOM_RIGHT_WALL {
        seq![bottom_edge(x, y), right_edge(x, y)]
    } else {
        Seq::empty()
    }
}

fn make_top(x: i64, y: i64) -> (c: Collider)
    requires
        placeable(x as int),
        placeable(y as int),
    ensures
        c == top_edge(x as int, y as int),
        c.wf(),
{
    Collider::new(Point2D { x, y }, EDGE_LENGTH, -EDGE_THICKNESS)
}

fn make_left(x: i64, y: i64) -> (c: Collider)
    requires
        placeable(x as int),
        placeable(y as int),
    ensures
        c == left_edge(x as int, y as int),
        c.wf(),
{
    Collider::new(Point2D { x, y }, EDGE_THICKNESS, -EDGE_LENGTH)
}

fn make_right(x: i64, y: i64) -> (c: Collider)
    requires
        placeable(x as int),
        placeable(y as int),
    ensures
        c == right_edge(x as int, y as int),
        c.wf(),
{
    Collider::new(Point2D { x: x + EDGE_OFFSET, y }, EDGE_THICKNESS, -EDGE_LENGTH)
}

fn make_bottom(x: i64, y: i64) -> (c: Collider)
    requires
        placeable(x as int),
        placeable(y as int),
    ensures
        c == bottom_edge(x as int, y as int),
        c.wf(),
{
    Collider::new(Point2D { x, y: y - EDGE_OFFSET }, EDGE_LENGTH, -EDGE_THICKNESS)
}

fn one(a: Collider) -> (r: Colliders)
    requires
        a.wf(),
    ensures
        r@ == seq![a],
        r.wf(),
{
    let mut v: Vec<Collider> = Vec::new();
    v.push(a);
    assert(v@ =~= seq![a]);
    Colliders::from_vec(v)
}

fn two(a: Collider, b: Collider) -> (r: Colliders)
    requires
        a.wf(),
        b.wf(),
    ensures
        r@ == seq![a, b],
        r.wf(),
{
    let mut v: Vec<Collider> = Vec::new();
    v.push(a);
    v.push(b);
    assert(v@ =~= seq![a, b]);
    Colliders::from_vec(v)
}

/// The hitbox of the tile with visual code `sprite_nb` anchored at
/// `(pos_x, pos_y)`: the rectangles of the rule table for a wall code, and
/// nothing for any other code.
pub fn sprite_to_colliders(sprite_nb: usize, pos_x: i64, pos_y: i64) -> (r: Option<Colliders>)
    requires
        placeable(pos_x as int),
        placeable(pos_y as int),
    ensures
        r.is_some() == is_wall(sprite_nb),
        r.is_some() ==> r.unwrap()@ == wall_rects(sprite_nb, pos_x as int, pos_y as int)
            && r.unwrap().wf() && rects_proper(r.unwrap()@),
{
    if sprite_nb == TOP_LEFT_WALL {
        Some(two(make_top(pos_x, pos_y), make_left(pos_x, pos_y)))
    } else if sprite_nb == TOP_WALL {
        Some(one(make_top(pos_x, pos_y)))
    } else if sprite_nb == TOP_RIGHT_WALL {
        Some(two(make_top(pos_x, pos_y), make_right(pos_x, pos_y)))
    } else if sprite_nb == LEFT_WALL {
        Some(one(make_left(pos_x, pos_y)))
    } else if sprite_nb == RIGHT_WALL {
        Some(one(make_right(pos_x, pos_y)))
    } else if sprite_nb == BOTTOM_LEFT_WALL {
        Some(two(make_bottom(pos_x, pos_y), make_left(pos_x, pos_y)))
    } else if sprite_nb == BOTTOM_WALL {
        Some(one(make_bottom(pos_x, pos_y)))
    } else if sprite_nb == BOTTOM_RIGHT_WALL {
        Some(two(make_bottom(pos_x, pos_y), make_right(pos_x, pos_y)))
    } else {
        None
    }
}

} // verus!
