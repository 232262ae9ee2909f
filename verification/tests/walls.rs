use collision_core::entities::collision::Collider;
use collision_core::utils::sprite_to_colliders::{
    sprite_to_colliders, BOTTOM_LEFT_WALL, BOTTOM_RIGHT_WALL, BOTTOM_WALL, LEFT_WALL, RIGHT_WALL,
    TOP_LEFT_WALL, TOP_RIGHT_WALL, TOP_WALL,
};
use collision_core::utils::{Point2D, POSITION_MAX, UNIT};

fn rect(x: i64, y: i64, w: i64, h: i64) -> Collider {
    Collider { anchor: Point2D { x, y }, width: w, height: h }
}

fn walls_at(sprite: usize, x: i64, y: i64) -> Option<Vec<Collider>> {
    assert!(Point2D { x, y }.can_anchor());
    sprite_to_colliders(sprite, x, y).map(|c| c.colliders)
}

const X: i64 = 64 * UNIT;
const Y: i64 = 96 * UNIT;

fn top() -> Collider {
    rect(X, Y, 32 * UNIT, -8 * UNIT)
}

fn left() -> Collider {
    rect(X, Y, 8 * UNIT, -32 * UNIT)
}

fn right() -> Collider {
    rect(X + 24 * UNIT, Y, 8 * UNIT, -32 * UNIT)
}

fn bottom() -> Collider {
    rect(X, Y - 24 * UNIT, 32 * UNIT, -8 * UNIT)
}

#[test]
fn top_left_wall_has_top_and_left_edges() {
    assert_eq!(TOP_LEFT_WALL, 30);
    assert_eq!(walls_at(30, X, Y), Some(vec![top(), left()]));
}

#[test]
fn top_wall_has_top_edge() {
    assert_eq!(TOP_WALL, 31);
    assert_eq!(walls_at(31, X, Y), Some(vec![top()]));
}

#[test]
fn top_right_wall_has_top_and_right_edges() {
    assert_eq!(TOP_RIGHT_WALL, 32);
    assert_eq!(walls_at(32, X, Y), Some(vec![top(), right()]));
}

#[test]
fn left_wall_has_left_edge() {
    assert_eq!(LEFT_WALL, 40);
    assert_eq!(walls_at(40, X, Y), Some(vec![left()]));
}

#[test]
fn right_wall_has_right_edge() {
    assert_eq!(RIGHT_WALL, 42);
    assert_eq!(walls_at(42, X, Y), Some(vec![right()]));
}

#[test]
fn bottom_left_wall_has_bottom_and_left_edges() {
    assert_eq!(BOTTOM_LEFT_WALL, 50);
    assert_eq!(walls_at(50, X, Y), Some(vec![bottom(), left()]));
}

#[test]
fn bottom_wall_has_bottom_edge() {
    assert_eq!(BOTTOM_WALL, 51);
    assert_eq!(walls_at(51, X, Y), Some(vec![bottom()]));
}

#[test]
fn bottom_right_wall_has_bottom_and_right_edges() {
    assert_eq!(BOTTOM_RIGHT_WALL, 52);
    assert_eq!(walls_at(52, X, Y), Some(vec![bottom(), right()]));
}

#[test]
fn edge_rectangles_in_numbers() {
    assert_eq!(
        walls_at(52, 0, 0),
        Some(vec![rect(0, -24_000, 32_000, -8_000), rect(24_000, 0, 8_000, -32_000)])
    );
}

#[test]
fn other_codes_have_no_collider() {
    for sprite in 0..400usize {
        let wall = matches!(sprite, 30 | 31 | 32 | 40 | 42 | 50 | 51 | 52);
        assert_eq!(walls_at(sprite, X, Y).is_some(), wall);
    }
    assert_eq!(walls_at(41, X, Y), None);
    assert_eq!(walls_at(usize::MAX, X, Y), None);
}

#[test]
fn walls_at_the_last_anchor_of_the_world() {
    for (x, y) in [(POSITION_MAX, POSITION_MAX), (-POSITION_MAX, -POSITION_MAX)] {
        let c = walls_at(52, x, y).unwrap();
        assert_eq!(c, vec![rect(x, y - 24_000, 32_000, -8_000), rect(x + 24_000, y, 8_000, -32_000)]);
        for r in &c {
            assert!(Collider::fits(r.anchor, r.width, r.height));
        }
    }
}
