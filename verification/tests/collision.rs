use collision_core::entities::collision::{
    are_colliding, compute_is_eligible_for_collision, Bounds, Collider, Colliders, Polygon,
};
use collision_core::utils::{Point2D, WORLD_MAX};

fn pt(x: i64, y: i64) -> Point2D {
    Point2D { x, y }
}

fn rect(x: i64, y: i64, w: i64, h: i64) -> Collider {
    assert!(Collider::fits(pt(x, y), w, h));
    Collider::new(pt(x, y), w, h)
}

fn hitbox(rects: Vec<Collider>) -> Colliders {
    assert!(!rects.is_empty());
    Colliders::from_vec(rects)
}

fn poly(points: &[(i64, i64)]) -> Polygon {
    Polygon::new(points.iter().map(|&(x, y)| pt(x, y)).collect()).unwrap()
}

#[test]
fn collider_keeps_anchor_and_extents() {
    let c = rect(10, 20, 32_000, -8_000);
    assert_eq!(c.anchor, pt(10, 20));
    assert_eq!(c.width, 32_000);
    assert_eq!(c.height, -8_000);
}

#[test]
fn collider_polygon_has_four_corners_in_order() {
    let c = rect(1_000, 2_000, 32_000, -8_000);
    let p = c.polygon();
    assert_eq!(
        p.exterior,
        vec![pt(1_000, 2_000), pt(33_000, 2_000), pt(33_000, -6_000), pt(1_000, -6_000)]
    );
}

#[test]
fn collider_fits_only_inside_the_world() {
    assert!(Collider::fits(pt(WORLD_MAX - 5, 0), 5, -5));
    assert!(!Collider::fits(pt(WORLD_MAX - 5, 0), 6, -5));
    assert!(!Collider::fits(pt(WORLD_MAX + 1, 0), -5, 0));
    assert!(!Collider::fits(pt(0, -WORLD_MAX), 1, -1));
    assert!(!Collider::fits(pt(0, 0), i64::MAX, 0));
    assert!(Collider::fits(pt(-WORLD_MAX, -WORLD_MAX), 2 * WORLD_MAX, 2 * WORLD_MAX));
}

#[test]
fn polygon_new_rejects_vertices_outside_the_world() {
    assert!(Polygon::new(vec![pt(0, 0), pt(WORLD_MAX, 0), pt(0, -WORLD_MAX)]).is_some());
    assert!(Polygon::new(vec![pt(0, 0), pt(WORLD_MAX + 1, 0), pt(0, 5)]).is_none());
    assert!(Polygon::new(vec![pt(0, 0), pt(1, 0), pt(0, -WORLD_MAX - 1)]).is_none());
    assert_eq!(Polygon::new(Vec::new()).unwrap().exterior, Vec::<Point2D>::new());
}

#[test]
fn colliders_polygons_follow_the_members() {
    let h = hitbox(vec![rect(0, 0, 32_000, -8_000), rect(0, 0, 8_000, -32_000)]);
    let polys = h.polygons();
    assert_eq!(polys.len(), 2);
    assert_eq!(polys[0].exterior, vec![pt(0, 0), pt(32_000, 0), pt(32_000, -8_000), pt(0, -8_000)]);
    assert_eq!(polys[1].exterior, vec![pt(0, 0), pt(8_000, 0), pt(8_000, -32_000), pt(0, -32_000)]);
    assert_eq!(h.to_owned_polygons(), polys);
}

#[test]
fn bounds_cover_all_members() {
    let h = hitbox(vec![rect(0, 0, 32_000, -8_000), rect(24_000, 0, 8_000, -32_000), rect(-5, 7, -10, 3)]);
    assert_eq!(h.bounds(), Bounds { min_x: -15, max_x: 32_000, min_y: -32_000, max_y: 10 });
}

#[test]
fn overlapping_rectangles_collide() {
    let a = hitbox(vec![rect(0, 0, 10_000, -10_000)]).polygons();
    let b = hitbox(vec![rect(5_000, -5_000, 10_000, -10_000)]).polygons();
    assert!(are_colliding(&a, &b));
}

#[test]
fn distant_rectangles_do_not_collide() {
    let a = hitbox(vec![rect(0, 0, 10_000, -10_000)]).polygons();
    let b = hitbox(vec![rect(20_000, 0, 10_000, -10_000)]).polygons();
    assert!(!are_colliding(&a, &b));
}

#[test]
fn rectangle_inside_another_collides() {
    let outer = hitbox(vec![rect(0, 0, 100_000, -100_000)]).polygons();
    let inner = hitbox(vec![rect(40_000, -40_000, 1_000, -1_000)]).polygons();
    assert!(are_colliding(&outer, &inner));
    assert!(are_colliding(&inner, &outer));
}

#[test]
fn touching_rectangles_collide() {
    let a = hitbox(vec![rect(0, 0, 10_000, -10_000)]).polygons();
    let b = hitbox(vec![rect(10_000, 0, 10_000, -10_000)]).polygons();
    assert!(are_colliding(&a, &b));
}

#[test]
fn any_pair_is_enough_to_collide() {
    let a = hitbox(vec![rect(0, 0, 1_000, -1_000), rect(50_000, 0, 1_000, -1_000)]).polygons();
    let b = hitbox(vec![rect(-90_000, 0, 1_000, -1_000), rect(50_500, -500, 1_000, -1_000)]).polygons();
    assert!(are_colliding(&a, &b));
}

#[test]
fn triangle_is_tested_as_a_triangle() {
    let triangle = vec![poly(&[(-12_000, 4_000), (12_000, 4_000), (0, 16_000)])];
    let in_the_corner_of_its_box = vec![poly(&[(9_000, 10_000), (17_000, 10_000), (17_000, 18_000), (9_000, 18_000)])];
    let across_its_edge = vec![poly(&[(5_000, 8_000), (13_000, 8_000), (13_000, 16_000), (5_000, 16_000)])];
    assert!(!are_colliding(&triangle, &in_the_corner_of_its_box));
    assert!(are_colliding(&triangle, &across_its_edge));
}

#[test]
fn are_colliding_is_symmetric_on_samples() {
    let shapes: Vec<Vec<Polygon>> = vec![
        vec![poly(&[(0, 0), (10_000, 0), (10_000, -10_000), (0, -10_000)])],
        vec![poly(&[(5_000, -5_000), (15_000, -5_000), (15_000, -15_000), (5_000, -15_000)])],
        vec![poly(&[(-12_000, 4_000), (12_000, 4_000), (0, 16_000)])],
        vec![poly(&[(9_000, 10_000), (17_000, 10_000), (17_000, 18_000), (9_000, 18_000)])],
        vec![poly(&[(100_000, 100_000), (100_001, 100_000), (100_000, 100_001)])],
        vec![],
    ];
    for a in &shapes {
        for b in &shapes {
            assert_eq!(are_colliding(a, b), are_colliding(b, a));
        }
    }
}

#[test]
fn nothing_collides_with_an_empty_set() {
    let a = hitbox(vec![rect(0, 0, 10_000, -10_000)]).polygons();
    let none: Vec<Polygon> = Vec::new();
    assert!(!are_colliding(&a, &none));
    assert!(!are_colliding(&none, &a));
    assert!(!are_colliding(&none, &none));
}

#[test]
fn polygon_without_vertices_collides_with_nothing() {
    let a = hitbox(vec![rect(0, 0, 10_000, -10_000)]).polygons();
    let hollow = vec![poly(&[])];
    assert!(!are_colliding(&a, &hollow));
    assert!(!are_colliding(&hollow, &a));
}

#[test]
fn collision_at_the_edge_of_the_world() {
    let a = vec![poly(&[(-WORLD_MAX, -WORLD_MAX), (WORLD_MAX, -WORLD_MAX), (WORLD_MAX, WORLD_MAX), (-WORLD_MAX, WORLD_MAX)])];
    let b = vec![poly(&[(WORLD_MAX, WORLD_MAX), (WORLD_MAX - 1, WORLD_MAX), (WORLD_MAX, WORLD_MAX - 1)])];
    let c = vec![poly(&[(-WORLD_MAX, WORLD_MAX), (WORLD_MAX, -WORLD_MAX), (WORLD_MAX, WORLD_MAX)])];
    let d = vec![poly(&[(-WORLD_MAX, -WORLD_MAX), (-WORLD_MAX + 10, -WORLD_MAX), (-WORLD_MAX, -WORLD_MAX + 10)])];
    assert!(are_colliding(&a, &b));
    assert!(are_colliding(&a, &c));
    assert!(!are_colliding(&c, &d));
}

#[test]
fn broad_phase_accepts_overlapping_boxes() {
    let a = hitbox(vec![rect(0, 0, 32_000, -8_000)]);
    let b = hitbox(vec![rect(16_000, -4_000, 8_000, -8_000)]);
    assert!(compute_is_eligible_for_collision(&a, &b));
    assert!(compute_is_eligible_for_collision(&b, &a));
}

#[test]
fn broad_phase_accepts_touching_boxes() {
    let a = hitbox(vec![rect(0, 0, 10_000, -10_000)]);
    let b = hitbox(vec![rect(10_000, -10_000, 10_000, -10_000)]);
    assert!(compute_is_eligible_for_collision(&a, &b));
}

#[test]
fn broad_phase_rejects_boxes_apart_on_one_axis() {
    let a = hitbox(vec![rect(0, 0, 10_000, -10_000)]);
    let right = hitbox(vec![rect(10_001, 0, 10_000, -10_000)]);
    let below = hitbox(vec![rect(0, -10_001, 10_000, -10_000)]);
    assert!(!compute_is_eligible_for_collision(&a, &right));
    assert!(!compute_is_eligible_for_collision(&right, &a));
    assert!(!compute_is_eligible_for_collision(&a, &below));
    assert!(!compute_is_eligible_for_collision(&below, &a));
}

#[test]
fn broad_phase_may_accept_what_the_narrow_phase_rejects() {
    let corner = hitbox(vec![rect(0, 0, 32_000, -8_000), rect(0, 0, 8_000, -32_000)]);
    let in_the_hollow = hitbox(vec![rect(20_000, -20_000, 4_000, -4_000)]);
    assert!(compute_is_eligible_for_collision(&corner, &in_the_hollow));
    assert!(!are_colliding(&corner.polygons(), &in_the_hollow.polygons()));
}

#[test]
fn broad_phase_has_no_false_negative_on_a_grid_of_rectangles() {
    let mut rects: Vec<Colliders> = Vec::new();
    for x in [-9_000i64, -3_000, 0, 2_000, 5_000] {
        for y in [-7_000i64, 0, 4_000] {
            for (w, h) in [(3_000i64, -3_000i64), (-4_000, 2_000), (6_000, 6_000), (0, -5_000)] {
                rects.push(hitbox(vec![rect(x, y, w, h)]));
            }
        }
    }
    let mut colliding = 0;
    for a in &rects {
        for b in &rects {
            if are_colliding(&a.polygons(), &b.polygons()) {
                colliding += 1;
                assert!(compute_is_eligible_for_collision(a, b));
            }
        }
    }
    assert!(colliding > rects.len());
}

#[test]
fn narrow_phase_on_rectangles_is_interval_overlap() {
    let mut rects: Vec<Collider> = Vec::new();
    for x in [-9_000i64, -3_000, 0, 2_000, 5_000] {
        for y in [-7_000i64, 0, 4_000] {
            for (w, h) in [(3_000i64, -3_000i64), (-4_000, 2_000), (6_000, 6_000), (-1, -12_000), (20_000, 1)] {
                rects.push(rect(x, y, w, h));
            }
        }
    }
    let span = |a: i64, extent: i64| if extent >= 0 { (a, a + extent) } else { (a + extent, a) };
    let mut hits = 0;
    let mut misses = 0;
    for c in &rects {
        for d in &rects {
            let (cx, dx) = (span(c.anchor.x, c.width), span(d.anchor.x, d.width));
            let (cy, dy) = (span(c.anchor.y, c.height), span(d.anchor.y, d.height));
            let overlap = cx.0 <= dx.1 && dx.0 <= cx.1 && cy.0 <= dy.1 && dy.0 <= cy.1;
            let colliding = are_colliding(&vec![c.polygon()], &vec![d.polygon()]);
            assert_eq!(colliding, overlap);
            if overlap {
                hits += 1;
            } else {
                misses += 1;
            }
        }
    }
    assert!(hits > 100 && misses > 100);
}

#[test]
fn rectangles_that_cross_without_holding_a_corner_collide() {
    let upright = hitbox(vec![rect(4_000, 10_000, 2_000, -20_000)]).polygons();
    let flat = hitbox(vec![rect(0, 1_000, 10_000, -2_000)]).polygons();
    assert!(are_colliding(&upright, &flat));
    assert!(are_colliding(&flat, &upright));
}

#[test]
fn validity_of_shapes() {
    assert!(rect(0, 0, 5, 5).is_valid());
    assert!(!Collider { anchor: pt(WORLD_MAX, 0), width: 1, height: 1 }.is_valid());
    assert!(hitbox(vec![rect(0, 0, 5, 5)]).is_valid());
    assert!(!Colliders { colliders: Vec::new() }.is_valid());
    assert!(!Colliders { colliders: vec![rect(0, 0, 5, 5), Collider { anchor: pt(0, 0), width: 0, height: -WORLD_MAX - 1 }] }
        .is_valid());
    assert!(poly(&[(0, 0), (1, 1)]).is_valid());
    assert!(!Polygon { exterior: vec![pt(0, WORLD_MAX + 1)] }.is_valid());
}

#[test]
fn polygon_of_two_vertices_collides_as_a_stroke() {
    let square = vec![poly(&[(0, 0), (10_000, 0), (10_000, -10_000), (0, -10_000)])];
    let stroke_across = vec![poly(&[(-5_000, -5_000), (15_000, -5_000)])];
    let stroke_inside = vec![poly(&[(2_000, -5_000), (8_000, -5_000)])];
    let stroke_outside = vec![poly(&[(-5_000, 5_000), (15_000, 5_000)])];
    assert!(are_colliding(&square, &stroke_across));
    assert!(are_colliding(&stroke_across, &square));
    assert!(are_colliding(&square, &stroke_inside));
    assert!(are_colliding(&stroke_inside, &square));
    assert!(!are_colliding(&square, &stroke_outside));
    assert!(!are_colliding(&stroke_outside, &square));
}

#[test]
fn polygon_of_one_vertex_has_no_edge_to_collide_with() {
    let square = vec![poly(&[(0, 0), (10_000, 0), (10_000, -10_000), (0, -10_000)])];
    let dot_inside = vec![poly(&[(5_000, -5_000)])];
    let dot_outside = vec![poly(&[(50_000, -5_000)])];
    assert!(!are_colliding(&square, &dot_inside));
    assert!(!are_colliding(&dot_inside, &square));
    assert!(!are_colliding(&square, &dot_outside));
    assert!(!are_colliding(&dot_inside, &dot_inside));
    assert!(!are_colliding(&dot_inside, &dot_outside));
}

#[test]
fn ring_given_closed_is_the_same_polygon() {
    let open = vec![poly(&[(0, 0), (10_000, 0), (0, 10_000)])];
    let closed = vec![poly(&[(0, 0), (10_000, 0), (0, 10_000), (0, 0)])];
    for other in [
        vec![poly(&[(4_000, 4_000), (9_000, 4_000), (9_000, 9_000), (4_000, 9_000)])],
        vec![poly(&[(6_000, 6_000), (9_000, 6_000), (9_000, 9_000), (6_000, 9_000)])],
        vec![poly(&[(-1, -1), (-5, -1), (-5, -5)])],
    ] {
        assert_eq!(are_colliding(&open, &other), are_colliding(&closed, &other));
    }
    assert!(are_colliding(&open, &closed));
}

#[test]
fn hitbox_without_rectangles_has_no_polygon_and_is_eligible_for_nothing() {
    let hollow = Colliders { colliders: Vec::new() };
    let a = hitbox(vec![rect(0, 0, 10_000, -10_000)]);
    assert!(hollow.polygons().is_empty());
    assert!(hollow.to_owned_polygons().is_empty());
    assert!(!compute_is_eligible_for_collision(&a, &hollow));
    assert!(!compute_is_eligible_for_collision(&hollow, &a));
    assert!(!compute_is_eligible_for_collision(&hollow, &hollow));
    assert!(!are_colliding(&a.polygons(), &hollow.polygons()));
}
