//! Rectangle-union hitboxes and the two-phase collision test.

use crate::utils::{in_world, Point2D, WORLD_MAX};
use vstd::prelude::*;

verus! {

/// One axis-aligned rectangle: an anchor point and two signed extents. A
/// negative extent grows from the anchor toward the lower coordinate.
#[derive(Clone, Copy, Debug, PartialEq, Eq, Structural)]
pub struct Collider {
    pub anchor: Point2D,
    pub width: i64,
    pub height: i64,
}

/// A simple polygon, given by the vertices of its outer ring in order. The
/// ring is closed implicitly: the last vertex joins the first.
#[derive(Clone, Debug, PartialEq, Eq)]
pub struct Polygon {
    pub exterior: Vec<Point2D>,
}

/// The rectangles of one logical hitbox.
#[derive(Clone, Debug, PartialEq, Eq)]
pub struct Colliders {
    pub colliders: Vec<Collider>,
}

/// Every vertex of the ring lies inside the world.
pub open spec fn ring_in_world(ring: Seq<Point2D>) -> bool {
    forall|i: int| 0 <= i < ring.len() ==> (#[trigger] ring[i]).wf()
}

impl Collider {
    /// The x coordinate of the corner opposite the anchor.
    pub open spec fn far_x(self) -> int {
        self.anchor.x + self.width
    }

    /// The y coordinate of the corner opposite the anchor.
    pub open spec fn far_y(self) -> int {
        self.anchor.y + self.height
    }

    /// The anchor and the opposite corner both lie inside the world.
    pub open spec fn wf(self) -> bool {
        self.anchor.wf() && in_world(self.far_x()) && in_world(self.far_y())
    }

    /// The lowest x coordinate of the rectangle.
    pub open spec fn min_x(self) -> int {
        if self.width >= 0 {
            self.anchor.x as int
        } else {
            self.far_x()
        }
    }

    /// The highest x coordinate of the rectangle.
    pub open spec fn max_x(self) -> int {
        if self.width >= 0 {
            self.far_x()
        } else {
            self.anchor.x as int
        }
    }

    /// The lowest y coordinate of the rectangle.
    pub open spec fn min_y(self) -> int {
        if self.height >= 0 {
            self.anchor.y as int
        } else {
            self.far_y()
        }
    }

    /// The highest y coordinate of the rectangle.
    pub open spec fn max_y(self) -> int {
        if self.height >= 0 {
            self.far_y()
        } else {
            self.anchor.y as int
        }
    }

    /// The rectangle has an interior: neither extent is zero.
    pub open spec fn is_proper(self) -> bool {
        self.width != 0 && self.height != 0
    }

    /// The two rectangles, boundaries included, have a point in common: their
    /// intervals overlap on both axes.
    pub open spec fn overlaps(self, other: Collider) -> bool {
        &&& self.min_x() <= other.max_x()
        &&& other.min_x() <= self.max_x()
        &&& self.min_y() <= other.max_y()
        &&& other.min_y() <= self.max_y()
    }

    /// The four corners, starting at the anchor: along the width, then along
    /// the height, then back along the width.
    pub open spec fn ring(self) -> Seq<Point2D> {
        seq![
            self.anchor,
            Point2D { x: self.far_x() as i64, y: self.anchor.y },
            Point2D { x: self.far_x() as i64, y: self.far_y() as i64 },
            Point2D { x: self.anchor.x, y: self.far_y() as i64 },
        ]
    }

    /// Would a rectangle with this anchor and these extents lie inside the
    /// world?
    pub open spec fn fits_spec(anchor: Point2D, width: i64, height: i64) -> bool {
        (Collider { anchor, width, height }).wf()
    }

    /// Tells whether `new` may be called with these arguments.
    pub fn fits(anchor: Point2D, width: i64, height: i64) -> (r: bool)
        ensures
            r == Self::fits_spec(anchor, width, height),
    {
        if !(-WORLD_MAX <= anchor.x && anchor.x <= WORLD_MAX && -WORLD_MAX <= anchor.y && anchor.y
            <= WORLD_MAX) {
            return false;
        }
        let fx = anchor.x.checked_add(width);
        let fy = anchor.y.checked_add(height);
        match (fx, fy) {
            (Some(fx), Some(fy)) => -WORLD_MAX <= fx && fx <= WORLD_MAX && -WORLD_MAX <= fy && fy
                <= WORLD_MAX,
            _ => false,
        }
    }

    /// Tells whether the rectangle lies inside the world.
    pub fn is_valid(&self) -> (r: bool)
        ensures
            r == self.wf(),
    {
        Self::fits(self.anchor, self.width, self.height)
    }

    /// Builds the rectangle with the given anchor and signed extents.
    pub fn new(anchor: Point2D, width: i64, height: i64) -> (c: Collider)
        requires
            Self::fits_spec(anchor, width, height),
        ensures
            c == (Collider { anchor, width, height }),
            c.wf(),
    {
        Collider { anchor, width, height }
    }

    /// The rectangle as a polygon.
    pub fn polygon(&self) -> (p: Polygon)
        requires
            self.wf(),
        ensures
            p@ == self.ring(),
            p.wf(),
    {
        let fx: i64 = self.anchor.x + self.width;
        let fy: i64 = self.anchor.y + self.height;
        let mut exterior: Vec<Point2D> = Vec::new();
        exterior.push(self.anchor);
        exterior.push(Point2D { x: fx, y: self.anchor.y });
        exterior.push(Point2D { x: fx, y: fy });
        exterior.push(Point2D { x: self.anchor.x, y: fy });
        assert(exterior@ =~= self.ring());
        Polygon { exterior }
    }
}

impl View for Polygon {
    type V = Seq<Point2D>;

    open spec fn view(&self) -> Seq<Point2D> {
        self.exterior@
    }
}

impl Polygon {
    /// Every vertex lies inside the world.
    pub open spec fn wf(self) -> bool {
        ring_in_world(self@)
    }

    /// Tells whether every vertex lies inside the world.
    pub fn is_valid(&self) -> (r: bool)
        ensures
            r == self.wf(),
    {
        let mut i: usize = 0;
        while i < self.exterior.len()
            invariant
                i <= self.exterior.len(),
                forall|k: int| 0 <= k < i ==> (#[trigger] self@[k]).wf(),
            decreases self.exterior.len() - i,
        {
            let p = self.exterior[i];
            if !(-WORLD_MAX <= p.x && p.x <= WORLD_MAX && -WORLD_MAX <= p.y && p.y <= WORLD_MAX) {
                assert(!self@[i as int].wf());
                return false;
            }
            i += 1;
        }
        true
    }

    /// Builds the polygon with the given ring, or nothing if a vertex lies
    /// outside the world.
    pub fn new(exterior: Vec<Point2D>) -> (r: Option<Polygon>)
        ensures
            r.is_some() == ring_in_world(exterior@),
            r.is_some() ==> r.unwrap()@ == exterior@,
    {
        let p = Polygon { exterior };
        if p.is_valid() {
            Some(p)
        } else {
            None
        }
    }
}

/// The rings of a sequence of polygons.
pub open spec fn rings_of(polygons: Seq<Polygon>) -> Seq<Seq<Point2D>> {
    Seq::new(polygons.len(), |i: int| polygons[i]@)
}

/// Every polygon of the sequence lies inside the world.
pub open spec fn polygons_wf(polygons: Seq<Polygon>) -> bool {
    forall|i: int| 0 <= i < polygons.len() ==> (#[trigger] polygons[i]).wf()
}

impl View for Colliders {
    type V = Seq<Collider>;

    open spec fn view(&self) -> Seq<Collider> {
        self.colliders@
    }
}

/// The rings of a sequence of rectangles, one for each, in order.
pub open spec fn rect_rings(rects: Seq<Collider>) -> Seq<Seq<Point2D>> {
    Seq::new(rects.len(), |i: int| rects[i].ring())
}

/// Every rectangle of the sequence lies inside the world.
pub open spec fn rects_wf(rects: Seq<Collider>) -> bool {
    forall|i: int| 0 <= i < rects.len() ==> (#[trigger] rects[i]).wf()
}

impl Colliders {
    /// The hitbox has at least one rectangle, and each lies inside the world.
    pub open spec fn wf(self) -> bool {
        self@.len() >= 1 && rects_wf(self@)
    }

    /// The rings of the member rectangles, in order.
    pub open spec fn rings(self) -> Seq<Seq<Point2D>> {
        rect_rings(self@)
    }

    /// Tells whether the hitbox has a rectangle and all its rectangles lie
    /// inside the world.
    pub fn is_valid(&self) -> (r: bool)
        ensures
            r == self.wf(),
    {
        if self.colliders.len() == 0 {
            return false;
        }
        let mut i: usize = 0;
        while i < self.colliders.len()
            invariant
                i <= self.colliders.len(),
                forall|k: int| 0 <= k < i ==> (#[trigger] self@[k]).wf(),
            decreases self.colliders.len() - i,
        {
            if !self.colliders[i].is_valid() {
                return false;
            }
            i += 1;
        }
        true
    }

    /// Builds the hitbox made of the given rectangles.
    pub fn from_vec(colliders: Vec<Collider>) -> (r: Colliders)
        requires
            colliders@.len() >= 1,
            rects_wf(colliders@),
        ensures
            r@ == colliders@,
            r.wf(),
    {
        Colliders { colliders }
    }

    /// The member rectangles as polygons, in order. A hitbox without
    /// rectangles has none.
    pub fn polygons(&self) -> (r: Vec<Polygon>)
        requires
            rects_wf(self@),
        ensures
            rings_of(r@) == self.rings(),
            polygons_wf(r@),
    {
        let mut out: Vec<Polygon> = Vec::new();
        let mut i: usize = 0;
        while i < self.colliders.len()
            invariant
                i <= self.colliders.len(),
                rects_wf(self@),
                out@.len() == i,
                forall|k: int| 0 <= k < i ==> (#[trigger] out@[k])@ == self@[k].ring(),
                polygons_wf(out@),
            decreases self.colliders.len() - i,
        {
            let p = self.colliders[i].polygon();
            out.push(p);
            i += 1;
        }
        assert(rings_of(out@) =~= self.rings());
        out
    }

    /// The member rectangles as polygons that the caller owns.
    pub fn to_owned_polygons(&self) -> (r: Vec<Polygon>)
        requires
            rects_wf(self@),
        ensures
            rings_of(r@) == self.rings(),
            polygons_wf(r@),
    {
        self.polygons()
    }
}

/// The smallest axis-aligned box that holds a hitbox.
#[derive(Clone, Copy, Debug, PartialEq, Eq, Structural)]
pub struct Bounds {
    pub min_x: i64,
    pub max_x: i64,
    pub min_y: i64,
    pub max_y: i64,
}

/// `b` is the bounding box of the rectangles `rects`: it holds each of them,
/// and each of its sides touches one of them.
pub open spec fn is_bounds_of(b: Bounds, rects: Seq<Collider>) -> bool {
    &&& forall|i: int|
        0 <= i < rects.len() ==> {
            &&& b.min_x <= (#[trigger] rects[i]).min_x()
            &&& rects[i].max_x() <= b.max_x
            &&& b.min_y <= rects[i].min_y()
            &&& rects[i].max_y() <= b.max_y
        }
    &&& exists|i: int| 0 <= i < rects.len() && b.min_x == (#[trigger] rects[i]).min_x()
    &&& exists|i: int| 0 <= i < rects.len() && b.max_x == (#[trigger] rects[i]).max_x()
    &&& exists|i: int| 0 <= i < rects.len() && b.min_y == (#[trigger] rects[i]).min_y()
    &&& exists|i: int| 0 <= i < rects.len() && b.max_y == (#[trigger] rects[i]).max_y()
}

impl Collider {
    fn low_x(&self) -> (r: i64)
        requires
            self.wf(),
        ensures
            r == self.min_x(),
    {
        if self.width >= 0 {
            self.anchor.x
        } else {
            self.anchor.x + self.width
        }
    }

    fn high_x(&self) -> (r: i64)
        requires
            self.wf(),
        ensures
            r == self.max_x(),
    {
        if self.width >= 0 {
            self.anchor.x + self.width
        } else {
            self.anchor.x
        }
    }

    fn low_y(&self) -> (r: i64)
        requires
            self.wf(),
        ensures
            r == self.min_y(),
    {
        if self.height >= 0 {
            self.anchor.y
        } else {
            self.anchor.y + self.height
        }
    }

    fn high_y(&self) -> (r: i64)
        requires
            self.wf(),
        ensures
            r == self.max_y(),
    {
        if self.height >= 0 {
            self.anchor.y + self.height
        } else {
            self.anchor.y
        }
    }
}

impl Colliders {
    /// The bounding box of the hitbox.
    pub fn bounds(&self) -> (b: Bounds)
        requires
            self.wf(),
        ensures
            is_bounds_of(b, self@),
    {
        let first = &self.colliders[0];
        let mut b = Bounds {
            min_x: first.low_x(),
            max_x: first.high_x(),
            min_y: first.low_y(),
            max_y: first.high_y(),
        };
        let mut i: usize = 1;
        proof {
            let head = self@.subrange(0, 1);
            assert(head[0] == self@[0]);
            assert(b.min_x == head[0].min_x() && b.max_x == head[0].max_x());
            assert(b.min_y == head[0].min_y() && b.max_y == head[0].max_y());
        }
        while i < self.colliders.len()
            invariant
                1 <= i <= self.colliders.len(),
                self.wf(),
                is_bounds_of(b, self@.subrange(0, i as int)),
            decreases self.colliders.len() - i,
        {
            let c = &self.colliders[i];
            let ghost before = self@.subrange(0, i as int);
            let ghost after = self@.subrange(0, i + 1);
            let ghost old_b = b;
            let ghost w_min_x = choose|k: int| 0 <= k < before.len() && old_b.min_x == (#[trigger] before[k]).min_x();
            let ghost w_max_x = choose|k: int| 0 <= k < before.len() && old_b.max_x == (#[trigger] before[k]).max_x();
            let ghost w_min_y = choose|k: int| 0 <= k < before.len() && old_b.min_y == (#[trigger] before[k]).min_y();
            let ghost w_max_y = choose|k: int| 0 <= k < before.len() && old_b.max_y == (#[trigger] before[k]).max_y();
            let lx = c.low_x();
            let hx = c.high_x();
            let ly = c.low_y();
            let hy = c.high_y();
            if lx < b.min_x {
                b.min_x = lx;
            }
            if hx > b.max_x {
                b.max_x = hx;
            }
            if ly < b.min_y {
                b.min_y = ly;
            }
            if hy > b.max_y {
                b.max_y = hy;
            }
            proof {
                assert(after[i as int] == self@[i as int]);
                assert forall|k: int| 0 <= k < before.len() implies before[k] == after[k] by {}
                assert(after[w_min_x] == before[w_min_x]);
                assert(after[w_max_x] == before[w_max_x]);
                assert(after[w_min_y] == before[w_min_y]);
                assert(after[w_max_y] == before[w_max_y]);
                assert forall|k: int| 0 <= k < after.len() implies {
                    &&& b.min_x <= (#[trigger] after[k]).min_x()
                    &&& after[k].max_x() <= b.max_x
                    &&& b.min_y <= after[k].min_y()
                    &&& after[k].max_y() <= b.max_y
                } by {
                    if k < i {
                        assert(after[k] == before[k]);
                    }
                }
            }
            i += 1;
        }
        assert(self@.subrange(0, i as int) =~= self@);
        b
    }
}

/// What `geo`'s polygon intersection test answers for two rings.
pub uninterp spec fn geo_polygon_intersects(a: Seq<Point2D>, b: Seq<Point2D>) -> bool;

/// The bounding boxes of the two rings are disjoint: along one axis every
/// vertex of one ring lies strictly before every vertex of the other. An
/// empty ring is apart from everything.
pub open spec fn rings_apart(a: Seq<Point2D>, b: Seq<Point2D>) -> bool {
    ||| forall|i: int, j: int|
        0 <= i < a.len() && 0 <= j < b.len() ==> (#[trigger] a[i]).x < (#[trigger] b[j]).x
    ||| forall|i: int, j: int|
        0 <= i < a.len() && 0 <= j < b.len() ==> (#[trigger] a[i]).x > (#[trigger] b[j]).x
    ||| forall|i: int, j: int|
        0 <= i < a.len() && 0 <= j < b.len() ==> (#[trigger] a[i]).y < (#[trigger] b[j]).y
    ||| forall|i: int, j: int|
        0 <= i < a.len() && 0 <= j < b.len() ==> (#[trigger] a[i]).y > (#[trigger] b[j]).y
}

/// The ring is that of an axis-aligned rectangle with an interior: four
/// corners, the first side along the x axis, no side of length zero.
pub open spec fn is_rectangle(ring: Seq<Point2D>) -> bool {
    &&& ring.len() == 4
    &&& ring[0].y == ring[1].y
    &&& ring[1].x == ring[2].x
    &&& ring[2].y == ring[3].y
    &&& ring[3].x == ring[0].x
    &&& ring[0].x != ring[1].x
    &&& ring[1].y != ring[2].y
}

/// Two rings intersect when their bounding boxes are not disjoint and, unless
/// both are rectangles, which are their own bounding boxes, the intersection
/// test says so whichever ring comes first.
pub open spec fn rings_intersect(a: Seq<Point2D>, b: Seq<Point2D>) -> bool {
    &&& !rings_apart(a, b)
    &&& (is_rectangle(a) && is_rectangle(b)) || (geo_polygon_intersects(a, b)
        && geo_polygon_intersects(b, a))
}

/// Some ring of `a` intersects some ring of `b`.
pub open spec fn polygons_collide(a: Seq<Seq<Point2D>>, b: Seq<Seq<Point2D>>) -> bool {
    exists|i: int, j: int|
        0 <= i < a.len() && 0 <= j < b.len() && rings_intersect(#[trigger] a[i], #[trigger] b[j])
}

/// Calls `geo::Intersects::intersects` on the two polygons, each built by
/// `geo::Polygon::new` from its ring and no holes.
///
/// The contract names the answer and claims three things of it. The test is
/// symmetric, as the documentation of `Intersects` says. It answers no
/// whenever the bounding boxes of the two polygons are disjoint or one of
/// them has no vertex: `geo` checks the boxes first. And of two axis-aligned
/// rectangles with an interior it answers yes exactly when their boxes are
/// not disjoint: the documentation defines the test as the two polygons,
/// boundary and interior, having a point in common, and such a rectangle is
/// its own bounding box. The vertices must lie inside the world, so that the
/// orientation test, which multiplies differences of coordinates, stays
/// within `i64`.
#[verifier::external_body]
fn polygon_intersects(a: &Polygon, b: &Polygon) -> (r: bool)
    requires
        a.wf(),
        b.wf(),
    ensures
        r == geo_polygon_intersects(a@, b@),
        r == geo_polygon_intersects(b@, a@),
        r ==> !rings_apart(a@, b@),
        is_rectangle(a@) && is_rectangle(b@) ==> r == !rings_apart(a@, b@),
{
    let ring_a: Vec<(i64, i64)> = a.exterior.iter().map(|p| (p.x, p.y)).collect();
    let ring_b: Vec<(i64, i64)> = b.exterior.iter().map(|p| (p.x, p.y)).collect();
    let pa = geo::Polygon::new(geo::LineString::from(ring_a), Vec::new());
    let pb = geo::Polygon::new(geo::LineString::from(ring_b), Vec::new());
    geo::Intersects::intersects(&pa, &pb)
}

/// Narrow phase: does any polygon of `a` intersect any polygon of `b`?
pub fn are_colliding(a: &Vec<Polygon>, b: &Vec<Polygon>) -> (r: bool)
    requires
        polygons_wf(a@),
        polygons_wf(b@),
    ensures
        r == polygons_collide(rings_of(a@), rings_of(b@)),
        a@.len() == 0 || b@.len() == 0 ==> !r,
{
    let ghost ra = rings_of(a@);
    let ghost rb = rings_of(b@);
    let mut i: usize = 0;
    while i < a.len()
        invariant
            i <= a.len(),
            polygons_wf(a@),
            polygons_wf(b@),
            ra == rings_of(a@),
            rb == rings_of(b@),
            forall|k: int, j: int|
                0 <= k < i && 0 <= j < rb.len() ==> !rings_intersect(#[trigger] ra[k], #[trigger] rb[j]),
        decreases a.len() - i,
    {
        let mut j: usize = 0;
        while j < b.len()
            invariant
                i < a.len(),
                j <= b.len(),
                polygons_wf(a@),
                polygons_wf(b@),
                ra == rings_of(a@),
                rb == rings_of(b@),
                forall|k: int, j: int|
                    0 <= k < i && 0 <= j < rb.len() ==> !rings_intersect(#[trigger] ra[k], #[trigger] rb[j]),
                forall|l: int| 0 <= l < j ==> !rings_intersect(ra[i as int], #[trigger] rb[l]),
            decreases b.len() - j,
        {
            if polygon_intersects(&a[i], &b[j]) {
                assert(rings_intersect(ra[i as int], rb[j as int]));
                return true;
            }
            j += 1;
        }
        i += 1;
    }
    false
}

/// Along one axis every rectangle of one hitbox ends strictly before every
/// rectangle of the other begins: the bounding boxes of the two hitboxes are
/// disjoint.
pub open spec fn hitboxes_apart(a: Seq<Collider>, b: Seq<Collider>) -> bool {
    ||| forall|i: int, j: int|
        0 <= i < a.len() && 0 <= j < b.len() ==> (#[trigger] a[i]).max_x() < (#[trigger] b[j]).min_x()
    ||| forall|i: int, j: int|
        0 <= i < a.len() && 0 <= j < b.len() ==> (#[trigger] a[i]).min_x() > (#[trigger] b[j]).max_x()
    ||| forall|i: int, j: int|
        0 <= i < a.len() && 0 <= j < b.len() ==> (#[trigger] a[i]).max_y() < (#[trigger] b[j]).min_y()
    ||| forall|i: int, j: int|
        0 <= i < a.len() && 0 <= j < b.len() ==> (#[trigger] a[i]).min_y() > (#[trigger] b[j]).max_y()
}

/// Broad phase: can the two hitboxes possibly intersect? They can unless
/// their bounding boxes are disjoint; boxes that only touch still count. A
/// hitbox without rectangles can intersect nothing.
pub fn compute_is_eligible_for_collision(a: &Colliders, b: &Colliders) -> (r: bool)
    requires
        rects_wf(a@),
        rects_wf(b@),
    ensures
        r == !hitboxes_apart(a@, b@),
        a@.len() == 0 || b@.len() == 0 ==> !r,
{
    if a.colliders.len() == 0 || b.colliders.len() == 0 {
        return false;
    }
    let ba = a.bounds();
    let bb = b.bounds();
    proof {
        lemma_bounds_decide(ba, a@, bb, b@);
    }
    !(ba.max_x < bb.min_x || ba.min_x > bb.max_x || ba.max_y < bb.min_y || ba.min_y > bb.max_y)
}

/// Two hitboxes are apart exactly when their bounding boxes are disjoint.
proof fn lemma_bounds_decide(ba: Bounds, a: Seq<Collider>, bb: Bounds, b: Seq<Collider>)
    requires
        is_bounds_of(ba, a),
        is_bounds_of(bb, b),
    ensures
        hitboxes_apart(a, b) == (ba.max_x < bb.min_x || ba.min_x > bb.max_x || ba.max_y < bb.min_y
            || ba.min_y > bb.max_y),
{
    let a_min_x = choose|k: int| 0 <= k < a.len() && ba.min_x == (#[trigger] a[k]).min_x();
    let a_max_x = choose|k: int| 0 <= k < a.len() && ba.max_x == (#[trigger] a[k]).max_x();
    let a_min_y = choose|k: int| 0 <= k < a.len() && ba.min_y == (#[trigger] a[k]).min_y();
    let a_max_y = choose|k: int| 0 <= k < a.len() && ba.max_y == (#[trigger] a[k]).max_y();
    let b_min_x = choose|k: int| 0 <= k < b.len() && bb.min_x == (#[trigger] b[k]).min_x();
    let b_max_x = choose|k: int| 0 <= k < b.len() && bb.max_x == (#[trigger] b[k]).max_x();
    let b_min_y = choose|k: int| 0 <= k < b.len() && bb.min_y == (#[trigger] b[k]).min_y();
    let b_max_y = choose|k: int| 0 <= k < b.len() && bb.max_y == (#[trigger] b[k]).max_y();
    if hitboxes_apart(a, b) {
        assert(a[a_max_x].max_x() < b[b_min_x].min_x() || a[a_min_x].min_x() > b[b_max_x].max_x()
            || a[a_max_y].max_y() < b[b_min_y].min_y() || a[a_min_y].min_y() > b[b_max_y].max_y());
    }
}

/// The collision test does not depend on the order of its arguments.
pub proof fn collide_symmetric(a: Seq<Seq<Point2D>>, b: Seq<Seq<Point2D>>)
    ensures
        polygons_collide(a, b) == polygons_collide(b, a),
{
    assert forall|x: Seq<Point2D>, y: Seq<Point2D>| rings_apart(x, y) implies rings_apart(
        y,
        x,
    ) by {}
    if polygons_collide(a, b) {
        let (i, j) = choose|i: int, j: int|
            0 <= i < a.len() && 0 <= j < b.len() && rings_intersect(#[trigger] a[i], #[trigger] b[j]);
        assert(rings_intersect(b[j], a[i]));
    }
    if polygons_collide(b, a) {
        let (j, i) = choose|j: int, i: int|
            0 <= j < b.len() && 0 <= i < a.len() && rings_intersect(#[trigger] b[j], #[trigger] a[i]);
        assert(rings_intersect(a[i], b[j]));
    }
}

/// Nothing collides with an empty set of polygons.
pub proof fn collide_needs_both(a: Seq<Seq<Point2D>>, b: Seq<Seq<Point2D>>)
    requires
        a.len() == 0 || b.len() == 0,
    ensures
        !polygons_collide(a, b),
{
}

/// The broad phase has no false negative: two hitboxes whose polygons
/// collide are eligible for the narrow phase.
pub proof fn colliding_hitboxes_are_eligible(a: Seq<Collider>, b: Seq<Collider>)
    requires
        rects_wf(a),
        rects_wf(b),
        polygons_collide(rect_rings(a), rect_rings(b)),
    ensures
        !hitboxes_apart(a, b),
{
    let ra = rect_rings(a);
    let rb = rect_rings(b);
    let (i, j) = choose|i: int, j: int|
        0 <= i < ra.len() && 0 <= j < rb.len() && rings_intersect(#[trigger] ra[i], #[trigger] rb[j]);
    lemma_rect_rings_apart(a[i], b[j]);
    assert(ra[i] == a[i].ring());
    assert(rb[j] == b[j].ring());
}

/// Every rectangle of the sequence has an interior.
pub open spec fn rects_proper(rects: Seq<Collider>) -> bool {
    forall|i: int| 0 <= i < rects.len() ==> (#[trigger] rects[i]).is_proper()
}

/// Some rectangle of `a` overlaps some rectangle of `b`.
pub open spec fn hitboxes_overlap(a: Seq<Collider>, b: Seq<Collider>) -> bool {
    exists|i: int, j: int|
        0 <= i < a.len() && 0 <= j < b.len() && (#[trigger] a[i]).overlaps(#[trigger] b[j])
}

/// For rectangles with an interior the narrow phase is interval overlap on
/// both axes.
pub proof fn rectangles_intersect_when_they_overlap(c: Collider, d: Collider)
    requires
        c.wf(),
        d.wf(),
        c.is_proper(),
        d.is_proper(),
    ensures
        rings_intersect(c.ring(), d.ring()) == c.overlaps(d),
{
    lemma_rect_rings_apart(c, d);
    assert(is_rectangle(c.ring()));
    assert(is_rectangle(d.ring()));
}

/// Two hitboxes of rectangles with an interior collide exactly when a
/// rectangle of one overlaps a rectangle of the other.
pub proof fn hitboxes_collide_when_they_overlap(a: Seq<Collider>, b: Seq<Collider>)
    requires
        rects_wf(a),
        rects_wf(b),
        rects_proper(a),
        rects_proper(b),
    ensures
        polygons_collide(rect_rings(a), rect_rings(b)) == hitboxes_overlap(a, b),
{
    let ra = rect_rings(a);
    let rb = rect_rings(b);
    if polygons_collide(ra, rb) {
        let (i, j) = choose|i: int, j: int|
            0 <= i < ra.len() && 0 <= j < rb.len() && rings_intersect(#[trigger] ra[i], #[trigger] rb[j]);
        rectangles_intersect_when_they_overlap(a[i], b[j]);
        assert(a[i].overlaps(b[j]));
    }
    if hitboxes_overlap(a, b) {
        let (i, j) = choose|i: int, j: int|
            0 <= i < a.len() && 0 <= j < b.len() && (#[trigger] a[i]).overlaps(#[trigger] b[j]);
        rectangles_intersect_when_they_overlap(a[i], b[j]);
        assert(rings_intersect(ra[i], rb[j]));
    }
}

/// The rings of two rectangles are apart exactly when the rectangles do not
/// overlap.
proof fn lemma_rect_rings_apart(c: Collider, d: Collider)
    requires
        c.wf(),
        d.wf(),
    ensures
        !rings_apart(c.ring(), d.ring()) == c.overlaps(d),
{
    let r = c.ring();
    let s = d.ring();
    if c.overlaps(d) {
        let cx_max = if c.width >= 0 { 1int } else { 0int };
        let cx_min = 1 - cx_max;
        let dx_max = if d.width >= 0 { 1int } else { 0int };
        let dx_min = 1 - dx_max;
        let cy_max = if c.height >= 0 { 2int } else { 0int };
        let cy_min = 2 - cy_max;
        let dy_max = if d.height >= 0 { 2int } else { 0int };
        let dy_min = 2 - dy_max;
        assert(r[cx_max].x == c.max_x() && r[cx_min].x == c.min_x());
        assert(s[dx_max].x == d.max_x() && s[dx_min].x == d.min_x());
        assert(r[cy_max].y == c.max_y() && r[cy_min].y == c.min_y());
        assert(s[dy_max].y == d.max_y() && s[dy_min].y == d.min_y());
        assert(!(r[cx_max].x < s[dx_min].x));
        assert(!(r[cx_min].x > s[dx_max].x));
        assert(!(r[cy_max].y < s[dy_min].y));
        assert(!(r[cy_min].y > s[dy_max].y));
    }
    if c.max_x() < d.min_x() {
        assert forall|i: int, j: int| 0 <= i < r.len() && 0 <= j < s.len() implies (#[trigger] r[i]).x
            < (#[trigger] s[j]).x by {}
    }
    if c.min_x() > d.max_x() {
        assert forall|i: int, j: int| 0 <= i < r.len() && 0 <= j < s.len() implies (#[trigger] r[i]).x
            > (#[trigger] s[j]).x by {}
    }
    if c.max_y() < d.min_y() {
        assert forall|i: int, j: int| 0 <= i < r.len() && 0 <= j < s.len() implies (#[trigger] r[i]).y
            < (#[trigger] s[j]).y by {}
    }
    if c.min_y() > d.max_y() {
        assert forall|i: int, j: int| 0 <= i < r.len() && 0 <= j < s.len() implies (#[trigger] r[i]).y
            > (#[trigger] s[j]).y by {}
    }
}

} // verus!
