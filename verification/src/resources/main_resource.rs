//! The state that one tick shares with the rest of the game, and the
//! craft's hitbox.

use crate::entities::collision::{polygons_wf, rings_of, Collider, Polygon};
use crate::utils::{placeable, Point2D};
use vstd::prelude::*;

verus! {

/// The counters and accumulators that the systems of one tick read and
/// write. A tick holds it exclusively.
#[derive(Clone, Copy, Debug, PartialEq, Eq, Structural)]
pub struct MainResource {
    /// Horizontal force on the craft, in thousandths.
    pub x_force: i64,
    /// How many bullets have hit the craft.
    pub bullet_hits: u64,
    pub victory: bool,
    pub current_level: usize,
    pub should_go_to_next_level: bool,
}

/// `v`, held within the range of `i64`.
pub open spec fn saturated(v: int) -> i64 {
    if v < i64::MIN {
        i64::MIN
    } else if v > i64::MAX {
        i64::MAX
    } else {
        v as i64
    }
}

/// One more than `n`, unless `n` is the largest count there is.
pub open spec fn one_more(n: u64) -> u64 {
    if n < u64::MAX {
        (n + 1) as u64
    } else {
        n
    }
}

/// The body of the craft at `(x, y)` as a rectangle: it reaches 12 units to
/// either side of the craft, 16 units below it and 4 units above.
pub open spec fn craft_body_rect(x: int, y: int) -> Collider {
    Collider {
        anchor: Point2D { x: (x - 12000) as i64, y: (y - 16000) as i64 },
        width: 24000,
        height: 20000,
    }
}

/// The body of the craft at `(x, y)`: a rectangle below the nose.
pub open spec fn craft_body(x: int, y: int) -> Seq<Point2D> {
    craft_body_rect(x, y).ring()
}

/// The nose of the craft at `(x, y)`: a triangle on top of the body.
pub open spec fn craft_nose(x: int, y: int) -> Seq<Point2D> {
    seq![
        Point2D { x: (x - 12000) as i64, y: (y + 4000) as i64 },
        Point2D { x: (x + 12000) as i64, y: (y + 4000) as i64 },
        Point2D { x: x as i64, y: (y + 16000) as i64 },
    ]
}

/// The hitbox of the craft at `(x, y)`: its body and its nose.
pub open spec fn craft_rings(x: int, y: int) -> Seq<Seq<Point2D>> {
    seq![craft_body(x, y), craft_nose(x, y)]
}

impl MainResource {
    /// The state at the start of level `current_level`.
    pub fn new(current_level: usize) -> (r: MainResource)
        ensures
            r == (MainResource {
                x_force: 0,
                bullet_hits: 0,
                victory: false,
                current_level,
                should_go_to_next_level: false,
            }),
    {
        MainResource {
            x_force: 0,
            bullet_hits: 0,
            victory: false,
            current_level,
            should_go_to_next_level: false,
        }
    }

    /// Counts one bullet that hit the craft.
    pub fn bullet_hit(&mut self)
        ensures
            *final(self) == (MainResource { bullet_hits: one_more(old(self).bullet_hits), ..*old(self) }),
    {
        if self.bullet_hits < u64::MAX {
            self.bullet_hits = self.bullet_hits + 1;
        }
    }

    /// Adds `delta` to the horizontal force, which stops at the ends of its
    /// range.
    pub fn add_x_force(&mut self, delta: i64)
        ensures
            *final(self) == (MainResource {
                x_force: saturated(old(self).x_force + delta),
                ..*old(self)
            }),
    {
        match self.x_force.checked_add(delta) {
            Some(v) => {
                self.x_force = v;
            },
            None => {
                if delta < 0 {
                    self.x_force = i64::MIN;
                } else {
                    self.x_force = i64::MAX;
                }
            },
        }
    }

    /// The craft's hitbox for a craft at `(x, y)`, computed afresh from the
    /// position at every call.
    pub fn get_colliders_for_collision(&self, x: i64, y: i64) -> (r: Vec<Polygon>)
        requires
            placeable(x as int),
            placeable(y as int),
        ensures
            rings_of(r@) == craft_rings(x as int, y as int),
            polygons_wf(r@),
    {
        let mut body: Vec<Point2D> = Vec::new();
        body.push(Point2D { x: x - 12000, y: y - 16000 });
        body.push(Point2D { x: x + 12000, y: y - 16000 });
        body.push(Point2D { x: x + 12000, y: y + 4000 });
        body.push(Point2D { x: x - 12000, y: y + 4000 });
        let mut nose: Vec<Point2D> = Vec::new();
        nose.push(Point2D { x: x - 12000, y: y + 4000 });
        nose.push(Point2D { x: x + 12000, y: y + 4000 });
        nose.push(Point2D { x, y: y + 16000 });
        assert(body@ =~= craft_body(x as int, y as int));
        assert(nose@ =~= craft_nose(x as int, y as int));
        let mut r: Vec<Polygon> = Vec::new();
        r.push(Polygon { exterior: body });
        r.push(Polygon { exterior: nose });
        assert(rings_of(r@) =~= craft_rings(x as int, y as int));
        r
    }
}

} // verus!
