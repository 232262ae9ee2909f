use collision_core::entities::blade_saw::BladeSaw;
use collision_core::entities::bonus::{Bonus, BonusKind};
use collision_core::entities::canons::{Canon, CanonKind};
use collision_core::entities::collision::Collider;
use collision_core::entities::doors::{DoorState, PlasmaDoor};
use collision_core::resources::main_resource::MainResource;
use collision_core::states::level_state::{
    format_lvl_number, initialize_colliders_with_entitites, BladeSawPlacement, BonusPlacement,
    CanonMark, LevelConfig, LevelEntities, LevelState, LevelTransition, Tile, TileMarks, MAX_LVL,
    MAX_TILE,
};
use collision_core::utils::sprites::{
    BLADE_SAW_SPRITE, NO_TILE_ID, SCREEN_HEIGHT, SCREEN_WIDTH, TILE_SIZE,
};
use collision_core::utils::{Direction, Point2D, POSITION_MAX, UNIT, WORLD_MAX};

fn pt(x: i64, y: i64) -> Point2D {
    Point2D { x, y }
}

fn tile(x: u32, y: u32, sprite: usize) -> Tile {
    Tile { x, y, sprite, marks: TileMarks::none() }
}

fn whole_tile(x: u32, y: u32) -> Vec<Collider> {
    vec![Collider {
        anchor: pt(i64::from(x) * TILE_SIZE, i64::from(y) * TILE_SIZE),
        width: TILE_SIZE,
        height: -TILE_SIZE,
    }]
}

fn level(tiles: Vec<Tile>) -> LevelConfig {
    LevelConfig {
        width: 22,
        height: 18,
        start_x: 3,
        start_y: 4,
        tiles,
        blade_saws: Vec::new(),
        coin_nb: 2,
    }
}

fn load(cfg: &LevelConfig) -> LevelEntities {
    assert!(cfg.is_valid());
    initialize_colliders_with_entitites(cfg)
}

#[test]
fn sizes_in_numbers() {
    assert_eq!(UNIT, 1_000);
    assert_eq!(TILE_SIZE, 32 * UNIT);
    assert_eq!(SCREEN_WIDTH, 704 * UNIT);
    assert_eq!(SCREEN_HEIGHT, 576 * UNIT);
    assert_eq!(NO_TILE_ID, -1);
    assert_eq!(WORLD_MAX, 1_000_000_000);
    assert_eq!(POSITION_MAX, WORLD_MAX - TILE_SIZE);
    assert_eq!(i64::from(MAX_TILE) * TILE_SIZE, POSITION_MAX);
    assert_eq!(MAX_LVL, 10);
}

#[test]
fn level_number_in_two_numerals() {
    assert_eq!(format_lvl_number(0), (0, 0));
    assert_eq!(format_lvl_number(7), (0, 7));
    assert_eq!(format_lvl_number(9), (0, 9));
    assert_eq!(format_lvl_number(10), (1, 0));
    assert_eq!(format_lvl_number(42), (4, 2));
    assert_eq!(format_lvl_number(99), (9, 9));
    assert_eq!(format_lvl_number(100), (1, 0));
    assert_eq!(format_lvl_number(123), (1, 2));
    assert_eq!(format_lvl_number(98_765), (9, 8));
}

#[test]
fn level_leads_nowhere_until_victory_and_request() {
    let state = LevelState::new(3);
    assert_eq!(state.level_nb, 3);
    let mut r = MainResource::new(3);
    assert_eq!(state.fixed_update(&r), LevelTransition::Stay);
    r.victory = true;
    assert_eq!(state.fixed_update(&r), LevelTransition::Stay);
    r.victory = false;
    r.should_go_to_next_level = true;
    assert_eq!(state.fixed_update(&r), LevelTransition::Stay);
    r.victory = true;
    assert_eq!(state.fixed_update(&r), LevelTransition::NextLevel(4));
}

#[test]
fn last_level_leads_to_the_end() {
    let state = LevelState::new(10);
    let won = |current_level: usize| MainResource {
        victory: true,
        should_go_to_next_level: true,
        ..MainResource::new(current_level)
    };
    assert_eq!(state.fixed_update(&won(9)), LevelTransition::NextLevel(10));
    assert_eq!(state.fixed_update(&won(10)), LevelTransition::End);
    assert_eq!(state.fixed_update(&won(11)), LevelTransition::End);
    assert_eq!(state.fixed_update(&won(usize::MAX)), LevelTransition::End);
    assert_eq!(state.fixed_update(&won(0)), LevelTransition::NextLevel(1));
}

#[test]
fn walls_of_a_level_become_bodies_in_order() {
    let cfg = level(vec![tile(0, 0, 41), tile(2, 3, 30), tile(5, 1, 114), tile(1, 0, 52), tile(7, 7, 144)]);
    let out = load(&cfg).bodies;
    assert_eq!(out.len(), 2);
    assert_eq!(out[0].sprite, 30);
    assert_eq!(out[0].position, pt(64_000, 96_000));
    assert_eq!(
        out[0].colliders.colliders,
        vec![
            Collider { anchor: pt(64_000, 96_000), width: 32_000, height: -8_000 },
            Collider { anchor: pt(64_000, 96_000), width: 8_000, height: -32_000 },
        ]
    );
    assert_eq!(out[0].door, None::<PlasmaDoor>);
    assert_eq!(out[0].canon, None::<Canon>);
    assert!(!out[0].landing_platform && !out[0].arrival);
    assert_eq!(out[1].sprite, 52);
    assert_eq!(out[1].position, pt(32_000, 0));
    assert_eq!(
        out[1].colliders.colliders,
        vec![
            Collider { anchor: pt(32_000, -24_000), width: 32_000, height: -8_000 },
            Collider { anchor: pt(56_000, 0), width: 8_000, height: -32_000 },
        ]
    );
}

#[test]
fn door_with_a_hitbox_is_a_solid_body() {
    let mut door = tile(5, 1, 114);
    door.marks.hitbox = whole_tile(5, 1);
    let mut closed = tile(6, 1, 144);
    closed.marks.hitbox = whole_tile(6, 1);
    let out = load(&level(vec![door, closed, tile(7, 1, 124)])).bodies;
    assert_eq!(out.len(), 2);
    assert_eq!(out[0].sprite, 114);
    assert_eq!(out[0].position, pt(160_000, 32_000));
    assert_eq!(out[0].colliders.colliders, whole_tile(5, 1));
    assert_eq!(out[0].door, Some(PlasmaDoor { initial_sprite: 114, state: DoorState::Closed }));
    assert_eq!(out[1].door, Some(PlasmaDoor { initial_sprite: 144, state: DoorState::Closed }));
}

#[test]
fn wall_keeps_the_hitbox_of_the_rule_table() {
    let mut wall = tile(0, 0, 31);
    wall.marks.hitbox = whole_tile(0, 0);
    let out = load(&level(vec![wall])).bodies;
    assert_eq!(
        out[0].colliders.colliders,
        vec![Collider { anchor: pt(0, 0), width: 32_000, height: -8_000 }]
    );
    assert_eq!(out[0].door, None::<PlasmaDoor>);
}

#[test]
fn marks_of_a_solid_tile_go_with_its_body() {
    let mut canon = tile(4, 2, 70);
    canon.marks.hitbox = whole_tile(4, 2);
    canon.marks.canon = Some(CanonMark { kind: CanonKind::Air, direction: Direction::Left });
    let mut platform = tile(5, 2, 31);
    platform.marks.landing_platform = true;
    let mut arrival = tile(6, 2, 51);
    arrival.marks.arrival = true;
    let mut not_solid = tile(7, 2, 71);
    not_solid.marks.canon = Some(CanonMark { kind: CanonKind::Bullet, direction: Direction::Top });
    not_solid.marks.arrival = true;
    let out = load(&level(vec![canon, platform, arrival, not_solid])).bodies;
    assert_eq!(out.len(), 3);
    assert_eq!(
        out[0].canon,
        Some(Canon { kind: CanonKind::Air, direction: Direction::Left, position: pt(128_000, 64_000) })
    );
    assert!(!out[0].landing_platform && !out[0].arrival);
    assert!(out[1].landing_platform && !out[1].arrival && out[1].canon.is_none());
    assert!(out[2].arrival && !out[2].landing_platform);
}

#[test]
fn bonus_tiles_give_bonuses_that_are_not_taken() {
    let mut fuel = tile(1, 2, 90);
    fuel.marks.bonus = Some(BonusKind::Fuel);
    let mut coin_on_a_wall = tile(3, 4, 31);
    coin_on_a_wall.marks.bonus = Some(BonusKind::Coin);
    let mut life = tile(0, 0, 92);
    life.marks.bonus = Some(BonusKind::Life);
    let out = load(&level(vec![fuel, tile(9, 9, 30), coin_on_a_wall, life]));
    assert_eq!(
        out.bonuses,
        vec![
            BonusPlacement {
                position: pt(32_000, 64_000),
                bonus: Bonus { initial_sprite: 90, kind: BonusKind::Fuel, taken: false },
            },
            BonusPlacement {
                position: pt(96_000, 128_000),
                bonus: Bonus { initial_sprite: 31, kind: BonusKind::Coin, taken: false },
            },
            BonusPlacement {
                position: pt(0, 0),
                bonus: Bonus { initial_sprite: 92, kind: BonusKind::Life, taken: false },
            },
        ]
    );
    assert_eq!(out.bodies.len(), 2);
    assert_eq!(out.bodies[1].sprite, 31);
}

#[test]
fn blade_saws_are_placed_from_the_top_of_the_level() {
    let mut cfg = level(vec![tile(0, 0, 31)]);
    cfg.blade_saws =
        vec![BladeSaw { start_x: 4, start_y: 0 }, BladeSaw { start_x: 0, start_y: 17 }, BladeSaw { start_x: 2, start_y: 20 }];
    let out = load(&cfg);
    assert_eq!(BLADE_SAW_SPRITE, 78);
    assert_eq!(
        out.blade_saws,
        vec![
            BladeSawPlacement {
                blade_saw: BladeSaw { start_x: 4, start_y: 0 },
                position: pt(128_000, 17 * 32_000),
                sprite: 78,
            },
            BladeSawPlacement {
                blade_saw: BladeSaw { start_x: 0, start_y: 17 },
                position: pt(0, 0),
                sprite: 78,
            },
            BladeSawPlacement {
                blade_saw: BladeSaw { start_x: 2, start_y: 20 },
                position: pt(64_000, -3 * 32_000),
                sprite: 78,
            },
        ]
    );
    assert_eq!(out.bonuses.len() + out.bodies.len() + 2 * out.blade_saws.len(), 0 + 1 + 6);
}

#[test]
fn level_without_walls_has_no_bodies() {
    let out = load(&level(Vec::new()));
    assert!(out.bodies.is_empty() && out.bonuses.is_empty() && out.blade_saws.is_empty());
    assert!(load(&level(vec![tile(1, 1, 0), tile(2, 1, 41), tile(3, 1, 114)])).bodies.is_empty());
}

#[test]
fn level_is_valid_up_to_the_last_tile() {
    assert!(level(vec![tile(MAX_TILE, MAX_TILE, 31)]).is_valid());
    assert!(!level(vec![tile(0, 0, 31), tile(MAX_TILE + 1, 0, 0)]).is_valid());
    assert!(!level(vec![tile(0, MAX_TILE + 1, 31)]).is_valid());
    assert!(tile(MAX_TILE, 0, 1).is_valid());
    let out = load(&level(vec![tile(MAX_TILE, MAX_TILE, 42)])).bodies;
    assert_eq!(
        out[0].colliders.colliders,
        vec![Collider { anchor: pt(POSITION_MAX + 24_000, POSITION_MAX), width: 8_000, height: -32_000 }]
    );
}

#[test]
fn level_with_a_cell_twice_is_not_valid() {
    assert!(level(vec![tile(1, 2, 31), tile(2, 1, 31), tile(1, 1, 31), tile(2, 2, 31)]).is_valid());
    assert!(!level(vec![tile(1, 2, 31), tile(2, 1, 31), tile(1, 2, 40)]).is_valid());
    assert!(!level(vec![tile(0, 0, 0), tile(0, 0, 0)]).is_valid());
}

#[test]
fn level_with_a_hitbox_beyond_the_world_is_not_valid() {
    let mut far = tile(0, 0, 114);
    far.marks.hitbox = vec![Collider { anchor: pt(WORLD_MAX, 0), width: 1, height: -1 }];
    assert!(!far.is_valid());
    assert!(!level(vec![far]).is_valid());
}

#[test]
fn tileset_is_drawn_around_the_middle_of_the_grid() {
    let cfg = level(Vec::new());
    assert_eq!(cfg.tileset_center(), pt(22 * 16_000 - 16_000, 18 * 16_000 - 16_000));
    let one = LevelConfig { width: 1, height: 0, ..level(Vec::new()) };
    assert_eq!(one.tileset_center(), pt(0, -16_000));
}

#[test]
fn ship_starts_half_a_tile_left_of_its_cell() {
    let cfg = level(Vec::new());
    assert_eq!(cfg.ship_start(), pt(3 * 32_000 - 16_000, (18 - 4) * 32_000));
    let low = LevelConfig { start_y: 20, ..level(Vec::new()) };
    assert_eq!(low.ship_start().y, -2 * 32_000);
}
