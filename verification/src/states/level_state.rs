//! A level: where its pieces go when it is loaded, and which state follows
//! it.

use crate::entities::blade_saw::BladeSaw;
use crate::entities::bonus::{Bonus, BonusKind};
use crate::entities::canons::{Canon, CanonKind};
use crate::entities::collision::{rects_wf, Collider, Colliders};
use crate::entities::doors::{DoorState, PlasmaDoor};
use crate::resources::main_resource::MainResource;
use crate::utils::sprite_to_colliders::{is_wall, sprite_to_colliders, wall_rects};
use crate::utils::sprites::plasma_doors::{is_door_part, is_plasma_door_part};
use crate::utils::sprites::{BLADE_SAW_SPRITE, TILE_SIZE};
use crate::utils::{Direction, Point2D};
use vstd::prelude::*;

verus! {

/// The number of the last level.
pub const MAX_LVL: usize = 10;

/// The largest grid coordinate at which a tile can be placed.
pub const MAX_TILE: u32 = 31_249;

/// The state of the game while level `level_nb` is played.
#[derive(Clone, Copy, Debug, PartialEq, Eq, Structural)]
pub struct LevelState {
    pub level_nb: usize,
}

/// Where a level leads.
#[derive(Clone, Copy, Debug, PartialEq, Eq, Structural)]
pub enum LevelTransition {
    /// The level goes on.
    Stay,
    /// The level with this number starts.
    NextLevel(usize),
    /// The game is over.
    End,
}

/// The canon that a tile is: its kind and the way it faces.
#[derive(Clone, Copy, Debug, PartialEq, Eq, Structural)]
pub struct CanonMark {
    pub kind: CanonKind,
    pub direction: Direction,
}

/// What the tables of the game say of a tile besides its wall: the bonus it
/// holds, the hitbox it has if it is no wall, in world coordinates, and
/// whether it starts a landing platform, is the arrival, or is a canon.
#[derive(Clone, Debug, PartialEq, Eq)]
pub struct TileMarks {
    pub bonus: Option<BonusKind>,
    pub hitbox: Vec<Collider>,
    pub landing_platform: bool,
    pub arrival: bool,
    pub canon: Option<CanonMark>,
}

/// One cell of the level's grid, the visual code it shows and its marks.
#[derive(Clone, Debug, PartialEq, Eq)]
pub struct Tile {
    pub x: u32,
    pub y: u32,
    pub sprite: usize,
    pub marks: TileMarks,
}

/// A level as it was read: its size in tiles, the cell where the craft
/// starts, its tiles, its blade saws and the number of its coins. The tiles
/// are a map from cell to tile: no cell occurs twice. They are held as a
/// list, so that what the level places comes out in one fixed order.
#[derive(Clone, Debug, PartialEq, Eq)]
pub struct LevelConfig {
    pub width: u32,
    pub height: u32,
    pub start_x: u32,
    pub start_y: u32,
    pub tiles: Vec<Tile>,
    pub blade_saws: Vec<BladeSaw>,
    pub coin_nb: u32,
}

/// A piece of the level's static geometry: the tile it came from, its
/// hitbox, and what else the tile is.
#[derive(Clone, Debug, PartialEq, Eq)]
pub struct StaticBody {
    pub sprite: usize,
    pub position: Point2D,
    pub colliders: Colliders,
    pub door: Option<PlasmaDoor>,
    pub landing_platform: bool,
    pub arrival: bool,
    pub canon: Option<Canon>,
}

/// A bonus and where it lies.
#[derive(Clone, Copy, Debug, PartialEq, Eq, Structural)]
pub struct BonusPlacement {
    pub position: Point2D,
    pub bonus: Bonus,
}

/// A blade saw as the level places it: the saw itself at `position`, and a
/// child of it that shows the blade with the visual code `sprite`.
#[derive(Clone, Copy, Debug, PartialEq, Eq, Structural)]
pub struct BladeSawPlacement {
    pub blade_saw: BladeSaw,
    pub position: Point2D,
    pub sprite: usize,
}

/// Everything that loading a level places: one entity for each bonus, one
/// for each static body, and two for each blade saw.
#[derive(Clone, Debug, PartialEq, Eq)]
pub struct LevelEntities {
    pub bonuses: Vec<BonusPlacement>,
    pub bodies: Vec<StaticBody>,
    pub blade_saws: Vec<BladeSawPlacement>,
}

impl Tile {
    /// The tile lies where it can be placed, and its hitbox lies inside the
    /// world.
    pub open spec fn wf(self) -> bool {
        self.x <= MAX_TILE && self.y <= MAX_TILE && rects_wf(self.marks.hitbox@)
    }

    /// The world position of the tile's anchor.
    pub open spec fn anchor(self) -> Point2D {
        Point2D { x: (self.x * TILE_SIZE) as i64, y: (self.y * TILE_SIZE) as i64 }
    }

    /// The rectangles of the tile's hitbox: those of the rule table for a
    /// wall, and those of its marks for anything else.
    pub open spec fn rects(self) -> Seq<Collider> {
        if is_wall(self.sprite) {
            wall_rects(self.sprite, self.anchor().x as int, self.anchor().y as int)
        } else {
            self.marks.hitbox@
        }
    }

    /// The tile has a hitbox.
    pub open spec fn is_solid(self) -> bool {
        is_wall(self.sprite) || self.marks.hitbox@.len() > 0
    }

    /// The door that the tile is, if its code is a door's: closed, and
    /// remembering the code.
    pub open spec fn door(self) -> Option<PlasmaDoor> {
        if is_door_part(self.sprite) {
            Some(PlasmaDoor { initial_sprite: self.sprite, state: DoorState::Closed })
        } else {
            None
        }
    }

    /// The canon that the tile is, if it is marked as one: at the tile's
    /// anchor.
    pub open spec fn canon(self) -> Option<Canon> {
        match self.marks.canon {
            Some(m) => Some(Canon { kind: m.kind, direction: m.direction, position: self.anchor() }),
            None => None,
        }
    }

    /// The bonus that lies on the tile, if it is marked with one: not taken,
    /// and remembering the code.
    pub open spec fn bonus(self) -> Option<BonusPlacement> {
        match self.marks.bonus {
            Some(kind) => Some(
                BonusPlacement {
                    position: self.anchor(),
                    bonus: Bonus { initial_sprite: self.sprite, kind, taken: false },
                },
            ),
            None => None,
        }
    }

    /// Tells whether the tile is well formed.
    pub fn is_valid(&self) -> (r: bool)
        ensures
            r == self.wf(),
    {
        if !(self.x <= MAX_TILE && self.y <= MAX_TILE) {
            return false;
        }
        let mut i: usize = 0;
        while i < self.marks.hitbox.len()
            invariant
                i <= self.marks.hitbox.len(),
                forall|k: int| 0 <= k < i ==> (#[trigger] self.marks.hitbox@[k]).wf(),
            decreases self.marks.hitbox.len() - i,
        {
            if !self.marks.hitbox[i].is_valid() {
                return false;
            }
            i += 1;
        }
        true
    }
}

impl TileMarks {
    /// The marks of a tile of which the tables say nothing.
    pub fn none() -> (m: TileMarks)
        ensures
            m.bonus.is_none(),
            m.hitbox@.len() == 0,
            !m.landing_platform,
            !m.arrival,
            m.canon.is_none(),
    {
        TileMarks {
            bonus: None,
            hitbox: Vec::new(),
            landing_platform: false,
            arrival: false,
            canon: None,
        }
    }
}

/// Every tile of the sequence is well formed.
pub open spec fn tiles_wf(tiles: Seq<Tile>) -> bool {
    forall|i: int| 0 <= i < tiles.len() ==> (#[trigger] tiles[i]).wf()
}

/// No cell of the grid occurs twice among the tiles.
pub open spec fn cells_distinct(tiles: Seq<Tile>) -> bool {
    forall|i: int, j: int|
        0 <= i < j < tiles.len() ==> !((#[trigger] tiles[i]).x == (#[trigger] tiles[j]).x
            && tiles[i].y == tiles[j].y)
}

/// Those of the first `n` tiles that have a hitbox, in their order.
pub open spec fn solid_tiles(tiles: Seq<Tile>, n: int) -> Seq<Tile>
    decreases n,
{
    if n <= 0 {
        Seq::empty()
    } else if tiles[n - 1].is_solid() {
        solid_tiles(tiles, n - 1).push(tiles[n - 1])
    } else {
        solid_tiles(tiles, n - 1)
    }
}

/// The bonuses on the first `n` tiles, in the order of the tiles.
pub open spec fn bonuses_on(tiles: Seq<Tile>, n: int) -> Seq<BonusPlacement>
    decreases n,
{
    if n <= 0 {
        Seq::empty()
    } else if tiles[n - 1].bonus().is_some() {
        bonuses_on(tiles, n - 1).push(tiles[n - 1].bonus().unwrap())
    } else {
        bonuses_on(tiles, n - 1)
    }
}

/// `body` is the static body of `tile`: it stands at the tile's anchor with
/// the tile's hitbox, it is a door exactly when the tile's code is a
/// door's, and it carries the tile's marks.
pub open spec fn is_body_of(body: StaticBody, tile: Tile) -> bool {
    &&& body.sprite == tile.sprite
    &&& body.position == tile.anchor()
    &&& body.colliders@ == tile.rects()
    &&& body.colliders.wf()
    &&& body.door == tile.door()
    &&& body.landing_platform == tile.marks.landing_platform
    &&& body.arrival == tile.marks.arrival
    &&& body.canon == tile.canon()
}

/// Each body is the body of the tile at the same place in `tiles`.
pub open spec fn are_bodies_of(bodies: Seq<StaticBody>, tiles: Seq<Tile>) -> bool {
    &&& bodies.len() == tiles.len()
    &&& forall|j: int| 0 <= j < bodies.len() ==> is_body_of(#[trigger] bodies[j], tiles[j])
}

/// Where the level places the blade saw: at its start column, and as many
/// rows above the bottom row of a grid `height` rows high as its start row
/// lies below the top row. The child shows the blade.
pub open spec fn saw_placement(height: u32, saw: BladeSaw) -> BladeSawPlacement {
    BladeSawPlacement {
        blade_saw: saw,
        position: Point2D {
            x: (saw.start_x * TILE_SIZE) as i64,
            y: ((height - saw.start_y - 1) * TILE_SIZE) as i64,
        },
        sprite: BLADE_SAW_SPRITE,
    }
}

/// The placements of the blade saws, one for each, in order.
pub open spec fn saw_placements(height: u32, saws: Seq<BladeSaw>) -> Seq<BladeSawPlacement> {
    Seq::new(saws.len(), |k: int| saw_placement(height, saws[k]))
}

/// The first two digits of `n` in decimal, as a number; a number below a
/// hundred is its own.
pub open spec fn leading_two(n: nat) -> nat
    decreases n,
{
    if n < 100 {
        n
    } else {
        leading_two(n / 10)
    }
}

/// The two numerals that show the level number: its first two decimal
/// digits, with a zero in front of a single digit.
pub fn format_lvl_number(lvl_number: usize) -> (r: (usize, usize))
    ensures
        r.0 == leading_two(lvl_number as nat) / 10,
        r.1 == leading_two(lvl_number as nat) % 10,
        lvl_number < 10 ==> r == (0usize, lvl_number),
{
    let mut m: usize = lvl_number;
    while m >= 100
        invariant
            leading_two(m as nat) == leading_two(lvl_number as nat),
        decreases m,
    {
        m = m / 10;
    }
    (m / 10, m % 10)
}

impl LevelEntities {
    /// How many entities the level places: one for each bonus, one for each
    /// body, and a parent and a child for each blade saw.
    pub open spec fn entity_count(self) -> nat {
        self.bonuses@.len() + self.bodies@.len() + 2 * self.blade_saws@.len()
    }
}

impl LevelConfig {
    /// Every tile of the level is well formed, and no cell occurs twice.
    pub open spec fn wf(self) -> bool {
        tiles_wf(self.tiles@) && cells_distinct(self.tiles@)
    }

    /// Tells whether the level is well formed.
    pub fn is_valid(&self) -> (r: bool)
        ensures
            r == self.wf(),
    {
        let mut i: usize = 0;
        while i < self.tiles.len()
            invariant
                i <= self.tiles.len(),
                tiles_wf(self.tiles@.subrange(0, i as int)),
                cells_distinct(self.tiles@.subrange(0, i as int)),
            decreases self.tiles.len() - i,
        {
            let tile = &self.tiles[i];
            if !tile.is_valid() {
                return false;
            }
            let mut j: usize = 0;
            while j < i
                invariant
                    j <= i < self.tiles.len(),
                    *tile == self.tiles@[i as int],
                    forall|k: int|
                        0 <= k < j ==> !((#[trigger] self.tiles@[k]).x == tile.x && self.tiles@[k].y
                            == tile.y),
                decreases i - j,
            {
                if self.tiles[j].x == tile.x && self.tiles[j].y == tile.y {
                    assert(!cells_distinct(self.tiles@)) by {
                        assert(self.tiles@[j as int].x == self.tiles@[i as int].x);
                    }
                    return false;
                }
                j += 1;
            }
            proof {
                let upto = self.tiles@.subrange(0, i as int);
                let next = self.tiles@.subrange(0, i + 1);
                assert forall|k: int| 0 <= k < next.len() implies (#[trigger] next[k]).wf() by {
                    if k < i {
                        assert(next[k] == upto[k]);
                    }
                }
                assert forall|a: int, b: int| 0 <= a < b < next.len() implies !((#[trigger] next[a]).x
                    == (#[trigger] next[b]).x && next[a].y == next[b].y) by {
                    if b < i {
                        assert(next[a] == upto[a] && next[b] == upto[b]);
                    } else {
                        assert(next[a] == self.tiles@[a]);
                    }
                }
            }
            i += 1;
        }
        assert(self.tiles@.subrange(0, i as int) =~= self.tiles@);
        true
    }

    /// Where the picture of the whole level is drawn: half a tile short of
    /// the middle of the grid on both axes.
    pub fn tileset_center(&self) -> (p: Point2D)
        ensures
            p.x == TILE_SIZE * self.width / 2 - TILE_SIZE / 2,
            p.y == TILE_SIZE * self.height / 2 - TILE_SIZE / 2,
    {
        Point2D {
            x: TILE_SIZE * (self.width as i64) / 2 - TILE_SIZE / 2,
            y: TILE_SIZE * (self.height as i64) / 2 - TILE_SIZE / 2,
        }
    }

    /// Where the craft starts: half a tile left of its start column, and as
    /// many rows below the top of the grid as its start row says.
    pub fn ship_start(&self) -> (p: Point2D)
        ensures
            p.x == self.start_x * TILE_SIZE - TILE_SIZE / 2,
            p.y == (self.height - self.start_y) * TILE_SIZE,
    {
        Point2D {
            x: (self.start_x as i64) * TILE_SIZE - TILE_SIZE / 2,
            y: ((self.height as i64) - (self.start_y as i64)) * TILE_SIZE,
        }
    }
}

fn copy_rects(rects: &Vec<Collider>) -> (r: Vec<Collider>)
    ensures
        r@ == rects@,
{
    let mut out: Vec<Collider> = Vec::new();
    let mut i: usize = 0;
    while i < rects.len()
        invariant
            i <= rects.len(),
            out@ == rects@.subrange(0, i as int),
        decreases rects.len() - i,
    {
        out.push(rects[i]);
        assert(out@ =~= rects@.subrange(0, i + 1));
        i += 1;
    }
    assert(rects@.subrange(0, i as int) =~= rects@);
    out
}

/// The hitbox of a tile, if it has one.
fn tile_colliders(tile: &Tile) -> (r: Option<Colliders>)
    requires
        tile.wf(),
    ensures
        r.is_some() == tile.is_solid(),
        r.is_some() ==> r.unwrap()@ == tile.rects() && r.unwrap().wf(),
{
    let x: i64 = (tile.x as i64) * TILE_SIZE;
    let y: i64 = (tile.y as i64) * TILE_SIZE;
    match sprite_to_colliders(tile.sprite, x, y) {
        Some(c) => Some(c),
        None => {
            if tile.marks.hitbox.len() > 0 {
                Some(Colliders::from_vec(copy_rects(&tile.marks.hitbox)))
            } else {
                None
            }
        },
    }
}

/// Everything that loading the level places.
///
/// Every tile marked with a bonus gives a bonus at its anchor. Every tile
/// with a hitbox gives a static body. Every blade saw gives a placement of
/// the saw and of the child that shows its blade. Each list keeps the order
/// of the level.
pub fn initialize_colliders_with_entitites(level: &LevelConfig) -> (out: LevelEntities)
    requires
        level.wf(),
    ensures
        out.bonuses@ == bonuses_on(level.tiles@, level.tiles@.len() as int),
        are_bodies_of(out.bodies@, solid_tiles(level.tiles@, level.tiles@.len() as int)),
        out.blade_saws@ == saw_placements(level.height, level.blade_saws@),
        out.entity_count() == bonuses_on(level.tiles@, level.tiles@.len() as int).len()
            + solid_tiles(level.tiles@, level.tiles@.len() as int).len() + 2
            * level.blade_saws@.len(),
{
    let mut bonuses: Vec<BonusPlacement> = Vec::new();
    let mut bodies: Vec<StaticBody> = Vec::new();
    let mut i: usize = 0;
    while i < level.tiles.len()
        invariant
            i <= level.tiles.len(),
            level.wf(),
            bonuses@ == bonuses_on(level.tiles@, i as int),
            are_bodies_of(bodies@, solid_tiles(level.tiles@, i as int)),
        decreases level.tiles.len() - i,
    {
        let tile = &level.tiles[i];
        assert(tile.wf());
        let position = Point2D { x: (tile.x as i64) * TILE_SIZE, y: (tile.y as i64) * TILE_SIZE };
        match tile.marks.bonus {
            Some(kind) => {
                bonuses.push(
                    BonusPlacement {
                        position,
                        bonus: Bonus { initial_sprite: tile.sprite, kind, taken: false },
                    },
                );
            },
            None => {},
        }
        match tile_colliders(tile) {
            Some(colliders) => {
                let door = if is_plasma_door_part(tile.sprite) {
                    Some(PlasmaDoor { initial_sprite: tile.sprite, state: DoorState::Closed })
                } else {
                    None
                };
                let canon = match tile.marks.canon {
                    Some(m) => Some(Canon { kind: m.kind, direction: m.direction, position }),
                    None => None,
                };
                let body = StaticBody {
                    sprite: tile.sprite,
                    position,
                    colliders,
                    door,
                    landing_platform: tile.marks.landing_platform,
                    arrival: tile.marks.arrival,
                    canon,
                };
                assert(is_body_of(body, *tile));
                bodies.push(body);
            },
            None => {},
        }
        i += 1;
    }
    let mut blade_saws: Vec<BladeSawPlacement> = Vec::new();
    let mut k: usize = 0;
    while k < level.blade_saws.len()
        invariant
            k <= level.blade_saws.len(),
            blade_saws@ == saw_placements(level.height, level.blade_saws@.subrange(0, k as int)),
        decreases level.blade_saws.len() - k,
    {
        let saw = level.blade_saws[k];
        let row: i64 = (level.height as i64) - (saw.start_y as i64) - 1;
        blade_saws.push(
            BladeSawPlacement {
                blade_saw: saw,
                position: Point2D { x: (saw.start_x as i64) * TILE_SIZE, y: row * TILE_SIZE },
                sprite: BLADE_SAW_SPRITE,
            },
        );
        assert(blade_saws@ =~= saw_placements(
            level.height,
            level.blade_saws@.subrange(0, k + 1),
        ));
        k += 1;
    }
    assert(level.blade_saws@.subrange(0, k as int) =~= level.blade_saws@);
    LevelEntities { bonuses, bodies, blade_saws }
}

impl LevelState {
    /// Where the level leads: nowhere until the craft has won and asked to go
    /// on, then to the next level, or to the end after the last one.
    pub open spec fn transition(resource: MainResource) -> LevelTransition {
        if resource.victory && resource.should_go_to_next_level {
            if resource.current_level < MAX_LVL {
                LevelTransition::NextLevel((resource.current_level + 1) as usize)
            } else {
                LevelTransition::End
            }
        } else {
            LevelTransition::Stay
        }
    }

    /// The state for level `level_nb`.
    pub fn new(level_nb: usize) -> (r: LevelState)
        ensures
            r.level_nb == level_nb,
    {
        LevelState { level_nb }
    }

    /// Decides, once in every tick, where the level leads.
    pub fn fixed_update(&self, resource: &MainResource) -> (t: LevelTransition)
        ensures
            t == Self::transition(*resource),
    {
        if resource.victory && resource.should_go_to_next_level {
            if resource.current_level < MAX_LVL {
                return LevelTransition::NextLevel(resource.current_level + 1);
            } else {
                return LevelTransition::End;
            }
        }
        LevelTransition::Stay
    }
}

} // verus!
