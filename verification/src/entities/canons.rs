//! Canons, the bullets they fire, and the table that a bullet's kind fixes.

use crate::entities::collision::{Collider, Colliders};
use crate::utils::{clamp_position, placeable, Direction, Point2D, POSITION_MAX};
use vstd::prelude::*;

verus! {

/// The closed set of projectile kinds. `Bullet` and `Plasma` are physical:
/// the craft's hull stops them. `Air` is an area effect: a gust that pushes
/// the craft and passes on.
#[derive(Clone, Copy, Debug, PartialEq, Eq, Structural)]
pub enum CanonKind {
    Bullet,
    Plasma,
    Air,
}

/// The scale of a sprite drawn at its own size, in thousandths.
pub const SCALE_ONE: i64 = 1000;

/// Speed of a bullet of this kind, in world units per second, which is
/// sub-units per millisecond.
pub open spec fn bullet_speed(kind: CanonKind) -> int {
    match kind {
        CanonKind::Bullet => 120,
        CanonKind::Plasma => 80,
        CanonKind::Air => 100,
    }
}

/// Life of a bullet of this kind, in milliseconds.
pub open spec fn bullet_life(kind: CanonKind) -> int {
    match kind {
        CanonKind::Bullet => 4000,
        CanonKind::Plasma => 6000,
        CanonKind::Air => 1500,
    }
}

/// Half the side of the square hitbox of a bullet of this kind, in sub-units.
pub open spec fn bullet_half_side(kind: CanonKind) -> int {
    match kind {
        CanonKind::Bullet => 4000,
        CanonKind::Plasma => 6000,
        CanonKind::Air => 16000,
    }
}

/// Is this kind an area effect?
pub open spec fn is_area(kind: CanonKind) -> bool {
    kind == CanonKind::Air
}

/// The square hitbox of a bullet of this kind centred at `(x, y)`, anchored
/// at its top left corner.
pub open spec fn bullet_box(kind: CanonKind, x: int, y: int) -> Collider {
    Collider {
        anchor: Point2D {
            x: (x - bullet_half_side(kind)) as i64,
            y: (y + bullet_half_side(kind)) as i64,
        },
        width: (2 * bullet_half_side(kind)) as i64,
        height: (-2 * bullet_half_side(kind)) as i64,
    }
}

/// The speed that the kind fixes.
pub fn canon_kind_to_bullet_speed(kind: &CanonKind) -> (r: i64)
    ensures
        r == bullet_speed(*kind),
{
    match kind {
        CanonKind::Bullet => 120,
        CanonKind::Plasma => 80,
        CanonKind::Air => 100,
    }
}

/// The life that the kind fixes.
pub fn canon_kind_to_bullet_life_duration(kind: &CanonKind) -> (r: i64)
    ensures
        r == bullet_life(*kind),
{
    match kind {
        CanonKind::Bullet => 4000,
        CanonKind::Plasma => 6000,
        CanonKind::Air => 1500,
    }
}

/// Tells whether the kind is an area effect.
pub fn canon_kind_is_area(kind: &CanonKind) -> (r: bool)
    ensures
        r == is_area(*kind),
{
    match kind {
        CanonKind::Air => true,
        _ => false,
    }
}

fn half_side(kind: &CanonKind) -> (r: i64)
    ensures
        r == bullet_half_side(*kind),
{
    match kind {
        CanonKind::Bullet => 4000,
        CanonKind::Plasma => 6000,
        CanonKind::Air => 16000,
    }
}

/// The hitbox of a bullet of this kind at `(pos_x, pos_y)`. It is derived
/// from the position whenever it is needed and stored nowhere.
pub fn init_bullet_collider(kind: &CanonKind, pos_x: i64, pos_y: i64) -> (r: Colliders)
    requires
        placeable(pos_x as int),
        placeable(pos_y as int),
    ensures
        r@ == seq![bullet_box(*kind, pos_x as int, pos_y as int)],
        r.wf(),
{
    let h = half_side(kind);
    let c = Collider::new(Point2D { x: pos_x - h, y: pos_y + h }, 2 * h, -2 * h);
    let mut v: Vec<Collider> = Vec::new();
    v.push(c);
    assert(v@ =~= seq![c]);
    Colliders::from_vec(v)
}

/// A projectile in flight.
#[derive(Clone, Copy, Debug, PartialEq, Eq, Structural)]
pub struct Bullet {
    pub kind: CanonKind,
    pub direction: Direction,
    /// Milliseconds left to live.
    pub life_duration: i64,
    pub position: Point2D,
    /// Vertical scale of the sprite, in thousandths.
    pub scale: i64,
}

/// A level-placed spawner of bullets.
#[derive(Clone, Copy, Debug, PartialEq, Eq, Structural)]
pub struct Canon {
    pub kind: CanonKind,
    pub direction: Direction,
    pub position: Point2D,
}

/// Where a bullet at `p` stands after `elapsed_ms` of flight at the speed of
/// `kind` in `direction`. The world's edge stops it.
pub open spec fn moved(p: Point2D, kind: CanonKind, direction: Direction, elapsed_ms: u32) -> Point2D {
    let d = bullet_speed(kind) * elapsed_ms;
    match direction {
        Direction::Left => Point2D { x: clamp_position(p.x - d) as i64, y: p.y },
        Direction::Right => Point2D { x: clamp_position(p.x + d) as i64, y: p.y },
        Direction::Top => Point2D { x: p.x, y: clamp_position(p.y + d) as i64 },
        Direction::Bottom => Point2D { x: p.x, y: clamp_position(p.y - d) as i64 },
        Direction::Still => p,
    }
}

/// The scale of a bullet of this kind that has `life_duration` left: an area
/// effect grows by one thousandth for every millisecond and a half that it
/// has lived, anything else keeps its scale.
pub open spec fn grown_scale(kind: CanonKind, life_duration: int, scale: i64) -> int {
    if is_area(kind) {
        SCALE_ONE + (bullet_life(kind) - life_duration) * 2 / 3
    } else {
        scale as int
    }
}

impl Bullet {
    /// The bullet can be placed, and it has life left, no more than its kind
    /// gives.
    pub open spec fn wf(self) -> bool {
        self.position.is_placeable() && 0 < self.life_duration <= bullet_life(self.kind)
    }

    /// The bullet's hitbox where it stands.
    pub open spec fn rects(self) -> Seq<Collider> {
        seq![bullet_box(self.kind, self.position.x as int, self.position.y as int)]
    }

    /// The bullet after `elapsed_ms`: moved, older and, if it is an area
    /// effect, grown by what it had lived when the tick began.
    pub open spec fn advanced(self, elapsed_ms: u32) -> Bullet {
        Bullet {
            kind: self.kind,
            direction: self.direction,
            life_duration: (self.life_duration - elapsed_ms) as i64,
            position: moved(self.position, self.kind, self.direction, elapsed_ms),
            scale: grown_scale(self.kind, self.life_duration as int, self.scale) as i64,
        }
    }

    /// Tells whether the bullet is well formed.
    pub fn is_valid(&self) -> (r: bool)
        ensures
            r == self.wf(),
    {
        self.position.can_anchor() && 0 < self.life_duration && self.life_duration
            <= canon_kind_to_bullet_life_duration(&self.kind)
    }

    /// The bullet's hitbox where it stands.
    pub fn colliders(&self) -> (r: Colliders)
        requires
            self.wf(),
        ensures
            r@ == self.rects(),
            r.wf(),
    {
        init_bullet_collider(&self.kind, self.position.x, self.position.y)
    }

    /// Advances the bullet by one tick of `elapsed_ms`.
    pub fn advance(&mut self, elapsed_ms: u32)
        requires
            old(self).wf(),
        ensures
            *final(self) == old(self).advanced(elapsed_ms),
            final(self).position.is_placeable(),
            final(self).life_duration < old(self).life_duration || elapsed_ms == 0,
            final(self).life_duration <= old(self).life_duration,
    {
        let d: i64 = canon_kind_to_bullet_speed(&self.kind) * (elapsed_ms as i64);
        if canon_kind_is_area(&self.kind) {
            let lived: i64 = canon_kind_to_bullet_life_duration(&self.kind) - self.life_duration;
            self.scale = SCALE_ONE + lived * 2 / 3;
        }
        match self.direction {
            Direction::Left => {
                self.position.x = clamp(self.position.x - d);
            },
            Direction::Right => {
                self.position.x = clamp(self.position.x + d);
            },
            Direction::Top => {
                self.position.y = clamp(self.position.y + d);
            },
            Direction::Bottom => {
                self.position.y = clamp(self.position.y - d);
            },
            Direction::Still => {},
        }
        self.life_duration = self.life_duration - (elapsed_ms as i64);
    }
}

fn clamp(v: i64) -> (r: i64)
    ensures
        r == clamp_position(v as int),
        placeable(r as int),
{
    if v < -POSITION_MAX {
        -POSITION_MAX
    } else if v > POSITION_MAX {
        POSITION_MAX
    } else {
        v
    }
}

impl Canon {
    /// The canon stands where a bullet can be placed.
    pub open spec fn wf(self) -> bool {
        self.position.is_placeable()
    }

    /// The bullet that the canon fires: of its kind, flying the way it faces,
    /// at its position, with the whole life of its kind ahead.
    pub open spec fn fired(self) -> Bullet {
        Bullet {
            kind: self.kind,
            direction: self.direction,
            life_duration: bullet_life(self.kind) as i64,
            position: self.position,
            scale: SCALE_ONE,
        }
    }

    /// Fires a bullet.
    pub fn fire(&self) -> (b: Bullet)
        ensures
            b == self.fired(),
            self.wf() ==> b.wf(),
    {
        Bullet {
            kind: self.kind,
            direction: self.direction,
            life_duration: canon_kind_to_bullet_life_duration(&self.kind),
            position: self.position,
            scale: SCALE_ONE,
        }
    }
}

} // verus!
