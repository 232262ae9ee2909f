//! The bullet system: what one tick does to the bullets in flight.
//!
//! A tick tests every bullet where it stands, first against the craft and
//! then against the static geometry of the level, then moves and ages it.
//! Removals are decided during the passes and carried out after them.

use crate::entities::canons::{canon_kind_is_area, is_area, Bullet};
use crate::entities::collision::{
    are_colliding, colliding_hitboxes_are_eligible, collide_symmetric,
    compute_is_eligible_for_collision, hitboxes_apart, hitboxes_collide_when_they_overlap,
    hitboxes_overlap, polygons_collide, polygons_wf, rect_rings, rectangles_intersect_when_they_overlap,
    rects_proper, rects_wf, rings_intersect, rings_of, Colliders, Polygon,
};
use crate::resources::main_resource::{
    craft_body_rect, craft_rings, one_more, saturated, MainResource,
};
use crate::utils::{Direction, Point2D};
use vstd::prelude::*;

verus! {

/// Milliseconds that must pass between two plays of the air effect.
pub const DEFAULT_AIR_TIMER: i64 = 200;

/// Force that an area effect adds to the craft, in thousandths for each
/// millisecond of contact.
pub const AIR_FORCE_RATE: i64 = 3;

/// What becomes of a bullet in one tick. `Expired` and `Consumed` both mean
/// that the bullet leaves the game in this tick.
#[derive(Clone, Copy, Debug, PartialEq, Eq, Structural)]
pub enum BulletFate {
    Alive,
    Expired,
    Consumed,
}

/// A sound effect that the tick asks for.
#[derive(Clone, Copy, Debug, PartialEq, Eq, Structural)]
pub enum Sound {
    Hit,
    Air,
}

/// The system's own state: the countdown to the next play of the air effect.
#[derive(Clone, Copy, Debug, PartialEq, Eq, Structural)]
pub struct BulletSystem {
    /// Milliseconds until the air effect may play again; it may play when
    /// this is zero or less.
    pub play_air_timer: i64,
}

/// What one tick decided and asks its caller to do.
#[derive(Clone, Debug, PartialEq, Eq)]
pub struct TickReport {
    /// The fate of each bullet, in the order in which the bullets stood when
    /// the tick began.
    pub fates: Vec<BulletFate>,
    /// How many times to play the hit effect.
    pub hit_effects: usize,
    /// Whether to play the air effect.
    pub air_effect: bool,
}

/// The fate of a bullet in a tick of `elapsed_ms`, given whether it touches
/// the craft and whether it touches the level's geometry.
///
/// A physical bullet that touches the craft is consumed. Otherwise a bullet
/// whose life runs out expires. Otherwise a bullet that touches the
/// geometry is consumed, whatever its kind and whether or not it touches the
/// craft too.
pub open spec fn fate_of(b: Bullet, elapsed_ms: u32, craft_contact: bool, env_contact: bool) -> BulletFate {
    if craft_contact && !is_area(b.kind) {
        BulletFate::Consumed
    } else if b.life_duration - elapsed_ms <= 0 {
        BulletFate::Expired
    } else if env_contact {
        BulletFate::Consumed
    } else {
        BulletFate::Alive
    }
}

/// The force that an area effect flying in `direction` adds to the craft in
/// `elapsed_ms` of contact: toward the right for one flying right, toward
/// the left for one flying left, none otherwise.
pub open spec fn air_push(direction: Direction, elapsed_ms: u32) -> int {
    match direction {
        Direction::Left => -AIR_FORCE_RATE * elapsed_ms,
        Direction::Right => AIR_FORCE_RATE * elapsed_ms,
        _ => 0,
    }
}

/// The countdown `timer` after `elapsed_ms` more.
pub open spec fn cooled(timer: i64, elapsed_ms: u32) -> i64 {
    saturated(timer - elapsed_ms)
}

/// Does the air effect play in a tick of `elapsed_ms` that starts with the
/// countdown at `timer`, given whether an area effect touches the craft?
pub open spec fn air_fires(timer: i64, elapsed_ms: u32, air_contact: bool) -> bool {
    air_contact && cooled(timer, elapsed_ms) <= 0
}

/// The countdown at the end of that tick.
pub open spec fn timer_after(timer: i64, elapsed_ms: u32, air_contact: bool) -> i64 {
    if air_fires(timer, elapsed_ms, air_contact) {
        DEFAULT_AIR_TIMER
    } else {
        cooled(timer, elapsed_ms)
    }
}

/// Decides the fate of one bullet.
pub fn bullet_fate(bullet: &Bullet, elapsed_ms: u32, craft_contact: bool, env_contact: bool) -> (f:
    BulletFate)
    ensures
        f == fate_of(*bullet, elapsed_ms, craft_contact, env_contact),
{
    if craft_contact && !canon_kind_is_area(&bullet.kind) {
        BulletFate::Consumed
    } else if bullet.life_duration <= elapsed_ms as i64 {
        BulletFate::Expired
    } else if env_contact {
        BulletFate::Consumed
    } else {
        BulletFate::Alive
    }
}

fn push_of(direction: Direction, elapsed_ms: u32) -> (r: i64)
    ensures
        r == air_push(direction, elapsed_ms),
{
    let d: i64 = AIR_FORCE_RATE * (elapsed_ms as i64);
    match direction {
        Direction::Left => -d,
        Direction::Right => d,
        _ => 0,
    }
}

impl Default for BulletSystem {
    fn default() -> (r: BulletSystem)
        ensures
            r.play_air_timer == DEFAULT_AIR_TIMER,
    {
        BulletSystem { play_air_timer: DEFAULT_AIR_TIMER }
    }
}

impl BulletSystem {
    /// Lets `elapsed_ms` pass on the countdown.
    pub fn cool_down(&mut self, elapsed_ms: u32)
        ensures
            final(self).play_air_timer == cooled(old(self).play_air_timer, elapsed_ms),
    {
        match self.play_air_timer.checked_sub(elapsed_ms as i64) {
            Some(t) => {
                self.play_air_timer = t;
            },
            None => {
                self.play_air_timer = i64::MIN;
            },
        }
    }

    /// Responds to a bullet that touches the craft, and returns the sound to
    /// play, if any.
    ///
    /// An area effect pushes the craft and plays the air effect if the
    /// countdown has run out, which starts the countdown again. Any other
    /// bullet counts as one hit and plays the hit effect.
    pub fn respond_to_contact(
        &mut self,
        bullet: &Bullet,
        resource: &mut MainResource,
        elapsed_ms: u32,
    ) -> (sound: Option<Sound>)
        ensures
            is_area(bullet.kind) ==> {
                &&& sound == if old(self).play_air_timer <= 0 {
                    Some(Sound::Air)
                } else {
                    None
                }
                &&& final(self).play_air_timer == if old(self).play_air_timer <= 0 {
                    DEFAULT_AIR_TIMER
                } else {
                    old(self).play_air_timer
                }
                &&& *final(resource) == (MainResource {
                    x_force: saturated(old(resource).x_force + air_push(bullet.direction, elapsed_ms)),
                    ..*old(resource)
                })
            },
            !is_area(bullet.kind) ==> {
                &&& sound == Some(Sound::Hit)
                &&& final(self).play_air_timer == old(self).play_air_timer
                &&& *final(resource) == (MainResource {
                    bullet_hits: one_more(old(resource).bullet_hits),
                    ..*old(resource)
                })
            },
    {
        if canon_kind_is_area(&bullet.kind) {
            let mut sound: Option<Sound> = None;
            if self.play_air_timer <= 0 {
                sound = Some(Sound::Air);
                self.play_air_timer = DEFAULT_AIR_TIMER;
            }
            resource.add_x_force(push_of(bullet.direction, elapsed_ms));
            sound
        } else {
            resource.bullet_hit();
            Some(Sound::Hit)
        }
    }
}

/// The time that the first `n` ticks take together.
pub open spec fn elapsed_sum(ticks: Seq<u32>, n: int) -> int
    decreases n,
{
    if n <= 0 {
        0
    } else {
        elapsed_sum(ticks, n - 1) + ticks[n - 1]
    }
}

/// The bullet after the first `n` ticks, none of which removed it.
pub open spec fn aged(b: Bullet, ticks: Seq<u32>, n: int) -> Bullet
    decreases n,
{
    if n <= 0 {
        b
    } else {
        aged(b, ticks, n - 1).advanced(ticks[n - 1])
    }
}

/// A bullet that touches nothing lives exactly as long as its life lasts: if
/// the ticks before tick `n` have left it life, then tick `n` removes it when
/// the time elapsed by the end of that tick has reached its life, and
/// leaves it alive when not.
pub proof fn bullet_expires_when_life_is_spent(b: Bullet, ticks: Seq<u32>, n: int)
    requires
        b.wf(),
        0 <= n < ticks.len(),
        elapsed_sum(ticks, n) < b.life_duration,
    ensures
        aged(b, ticks, n).wf(),
        aged(b, ticks, n).life_duration == b.life_duration - elapsed_sum(ticks, n),
        fate_of(aged(b, ticks, n), ticks[n], false, false) == if elapsed_sum(ticks, n + 1)
            >= b.life_duration {
            BulletFate::Expired
        } else {
            BulletFate::Alive
        },
    decreases n,
{
    if n > 0 {
        bullet_expires_when_life_is_spent(b, ticks, n - 1);
    }
}

/// A physical bullet that touches the craft is removed in that very tick,
/// whatever else holds of it.
pub proof fn physical_contact_consumes(b: Bullet, elapsed_ms: u32, env_contact: bool)
    requires
        !is_area(b.kind),
    ensures
        fate_of(b, elapsed_ms, true, env_contact) == BulletFate::Consumed,
{
}

/// Touching the craft alone never consumes an area effect: one that touches
/// the craft and not the level stays alive until its life runs out. The
/// level consumes it like any other bullet.
pub proof fn area_contact_does_not_consume(b: Bullet, elapsed_ms: u32)
    requires
        is_area(b.kind),
    ensures
        fate_of(b, elapsed_ms, true, false) != BulletFate::Consumed,
        fate_of(b, elapsed_ms, true, false) == BulletFate::Alive <==> b.life_duration - elapsed_ms
            > 0,
        fate_of(b, elapsed_ms, true, true) == fate_of(b, elapsed_ms, false, true),
{
}

/// The countdown at the start of tick `n`, given how long each tick takes
/// and in which ticks an area effect touches the craft.
pub open spec fn timer_at(timer: i64, ticks: Seq<u32>, air_contacts: Seq<bool>, n: int) -> i64
    decreases n,
{
    if n <= 0 {
        timer
    } else {
        timer_after(timer_at(timer, ticks, air_contacts, n - 1), ticks[n - 1], air_contacts[n - 1])
    }
}

/// The time that the ticks from `from` up to but not including `to` take
/// together.
pub open spec fn elapsed_between(ticks: Seq<u32>, from: int, to: int) -> int {
    elapsed_sum(ticks, to) - elapsed_sum(ticks, from)
}

/// The air effect plays at most once in any stretch shorter than the
/// cooldown: if it plays in tick `k` and again in a later tick `m`, the
/// ticks after `k` up to and including `m` take at least the cooldown.
pub proof fn air_effect_respects_cooldown(
    timer: i64,
    ticks: Seq<u32>,
    air_contacts: Seq<bool>,
    k: int,
    m: int,
)
    requires
        ticks.len() == air_contacts.len(),
        0 <= k < m < ticks.len(),
        air_fires(timer_at(timer, ticks, air_contacts, k), ticks[k], air_contacts[k]),
        air_fires(timer_at(timer, ticks, air_contacts, m), ticks[m], air_contacts[m]),
    ensures
        elapsed_between(ticks, k + 1, m + 1) >= DEFAULT_AIR_TIMER,
{
    lemma_timer_lower_bound(timer, ticks, air_contacts, k, m);
}

/// After the effect played in tick `k`, the countdown has at every later
/// tick at least what is left of the cooldown.
proof fn lemma_timer_lower_bound(
    timer: i64,
    ticks: Seq<u32>,
    air_contacts: Seq<bool>,
    k: int,
    j: int,
)
    requires
        ticks.len() == air_contacts.len(),
        0 <= k < j <= ticks.len(),
        air_fires(timer_at(timer, ticks, air_contacts, k), ticks[k], air_contacts[k]),
    ensures
        timer_at(timer, ticks, air_contacts, j) >= DEFAULT_AIR_TIMER - elapsed_between(
            ticks,
            k + 1,
            j,
        ),
        elapsed_between(ticks, k + 1, j) >= 0,
    decreases j - k,
{
    if j == k + 1 {
        assert(timer_at(timer, ticks, air_contacts, j) == DEFAULT_AIR_TIMER);
    } else {
        lemma_timer_lower_bound(timer, ticks, air_contacts, k, j - 1);
    }
}

/// Every bullet of the sequence is well formed.
pub open spec fn bullets_wf(bullets: Seq<Bullet>) -> bool {
    forall|i: int| 0 <= i < bullets.len() ==> (#[trigger] bullets[i]).wf()
}

/// Every rectangle of every hitbox of the sequence lies inside the world. A
/// hitbox may have no rectangle; nothing touches it.
pub open spec fn statics_wf(statics: Seq<Colliders>) -> bool {
    forall|s: int| 0 <= s < statics.len() ==> rects_wf((#[trigger] statics[s])@)
}

/// The craft's hitbox: that of a craft at `ship`, and nothing while there is
/// no craft.
pub open spec fn ship_rings(ship: Option<Point2D>) -> Seq<Seq<Point2D>> {
    match ship {
        Some(p) => craft_rings(p.x as int, p.y as int),
        None => Seq::empty(),
    }
}

/// Does the bullet, where it stands, touch the craft's hitbox?
pub open spec fn touches_craft(b: Bullet, ship: Seq<Seq<Point2D>>) -> bool {
    polygons_collide(rect_rings(b.rects()), ship)
}

/// Does the bullet, where it stands, touch one of the level's hitboxes?
pub open spec fn touches_level(b: Bullet, statics: Seq<Colliders>) -> bool {
    exists|s: int|
        0 <= s < statics.len() && polygons_collide(
            rect_rings(b.rects()),
            (#[trigger] statics[s]).rings(),
        )
}

/// Every rectangle of every hitbox of the sequence has an interior.
pub open spec fn statics_proper(statics: Seq<Colliders>) -> bool {
    forall|s: int| 0 <= s < statics.len() ==> rects_proper((#[trigger] statics[s])@)
}

/// Against geometry made of rectangles with an interior, touching is
/// overlapping: the bullet touches the level exactly when its square
/// overlaps a rectangle of one of the level's hitboxes.
pub proof fn level_contact_is_overlap(b: Bullet, statics: Seq<Colliders>)
    requires
        b.wf(),
        statics_wf(statics),
        statics_proper(statics),
    ensures
        touches_level(b, statics) == exists|s: int|
            0 <= s < statics.len() && hitboxes_overlap(b.rects(), (#[trigger] statics[s])@),
{
    assert forall|s: int| 0 <= s < statics.len() implies polygons_collide(
        rect_rings(b.rects()),
        (#[trigger] statics[s]).rings(),
    ) == hitboxes_overlap(b.rects(), statics[s]@) by {
        hitboxes_collide_when_they_overlap(b.rects(), statics[s]@);
    }
}

/// A bullet whose square overlaps the body of the craft touches the craft.
pub proof fn body_overlap_is_craft_contact(b: Bullet, ship: Point2D)
    requires
        b.wf(),
        ship.is_placeable(),
        b.rects()[0].overlaps(craft_body_rect(ship.x as int, ship.y as int)),
    ensures
        touches_craft(b, ship_rings(Some(ship))),
{
    let body = craft_body_rect(ship.x as int, ship.y as int);
    rectangles_intersect_when_they_overlap(b.rects()[0], body);
    let br = rect_rings(b.rects());
    let sr = ship_rings(Some(ship));
    assert(br[0] == b.rects()[0].ring());
    assert(sr[0] == body.ring());
    assert(rings_intersect(br[0], sr[0]));
}

/// The fate of the bullet in a tick of `elapsed_ms` with the craft's hitbox
/// `ship` and the level's hitboxes `statics`.
pub open spec fn tick_fate(
    b: Bullet,
    elapsed_ms: u32,
    ship: Seq<Seq<Point2D>>,
    statics: Seq<Colliders>,
) -> BulletFate {
    fate_of(b, elapsed_ms, touches_craft(b, ship), touches_level(b, statics))
}

/// How many of the first `n` bullets are physical and touch the craft.
pub open spec fn hit_count(bullets: Seq<Bullet>, ship: Seq<Seq<Point2D>>, n: int) -> nat
    decreases n,
{
    if n <= 0 {
        0
    } else if touches_craft(bullets[n - 1], ship) && !is_area(bullets[n - 1].kind) {
        hit_count(bullets, ship, n - 1) + 1
    } else {
        hit_count(bullets, ship, n - 1)
    }
}

/// Is one of the first `n` bullets an area effect that touches the craft?
pub open spec fn air_contact(bullets: Seq<Bullet>, ship: Seq<Seq<Point2D>>, n: int) -> bool
    decreases n,
{
    if n <= 0 {
        false
    } else {
        air_contact(bullets, ship, n - 1) || (touches_craft(bullets[n - 1], ship) && is_area(
            bullets[n - 1].kind,
        ))
    }
}

/// The horizontal force after the area effects among the first `n` bullets
/// that touch the craft have pushed it, one after the other.
pub open spec fn force_after(
    force: i64,
    bullets: Seq<Bullet>,
    ship: Seq<Seq<Point2D>>,
    elapsed_ms: u32,
    n: int,
) -> i64
    decreases n,
{
    if n <= 0 {
        force
    } else if touches_craft(bullets[n - 1], ship) && is_area(bullets[n - 1].kind) {
        saturated(
            force_after(force, bullets, ship, elapsed_ms, n - 1) + air_push(
                bullets[n - 1].direction,
                elapsed_ms,
            ),
        )
    } else {
        force_after(force, bullets, ship, elapsed_ms, n - 1)
    }
}

/// The hit counter after `count` more hits. It stops at the largest count
/// there is.
pub open spec fn hits_after(hits: u64, count: nat) -> u64 {
    if hits + count > u64::MAX {
        u64::MAX
    } else {
        (hits + count) as u64
    }
}

/// The bullets, each advanced by a tick of `elapsed_ms`.
pub open spec fn advanced_all(bullets: Seq<Bullet>, elapsed_ms: u32) -> Seq<Bullet> {
    Seq::new(bullets.len(), |i: int| bullets[i].advanced(elapsed_ms))
}

/// Those of the first `n` bullets whose fate is to stay alive, in their
/// order.
pub open spec fn kept(bullets: Seq<Bullet>, fates: Seq<BulletFate>, n: int) -> Seq<Bullet>
    decreases n,
{
    if n <= 0 {
        Seq::empty()
    } else if fates[n - 1] == BulletFate::Alive {
        kept(bullets, fates, n - 1).push(bullets[n - 1])
    } else {
        kept(bullets, fates, n - 1)
    }
}

/// A bullet that the craft pass left for the level pass, with the hitbox it
/// had where it stood.
struct Candidate {
    index: usize,
    colliders: Colliders,
}

/// What the craft pass hands on.
struct CraftPass {
    fates: Vec<BulletFate>,
    candidates: Vec<Candidate>,
    hit_effects: usize,
    air_effect: bool,
}

/// Does the craft consume the bullet? It does if the bullet is physical and
/// touches it.
pub open spec fn craft_consumes(b: Bullet, ship: Seq<Seq<Point2D>>) -> bool {
    touches_craft(b, ship) && !is_area(b.kind)
}

/// `cands` lists, in rising order, those of the first `n` bullets that the
/// craft does not consume, each with its hitbox.
spec fn candidates_upto(
    cands: Seq<Candidate>,
    bullets: Seq<Bullet>,
    ship: Seq<Seq<Point2D>>,
    n: int,
) -> bool {
    &&& forall|c: int|
        0 <= c < cands.len() ==> {
            &&& 0 <= (#[trigger] cands[c]).index < n
            &&& cands[c].index < bullets.len()
            &&& !craft_consumes(bullets[cands[c].index as int], ship)
            &&& cands[c].colliders@ == bullets[cands[c].index as int].rects()
            &&& cands[c].colliders.wf()
        }
    &&& forall|c: int, d: int|
        0 <= c < d < cands.len() ==> (#[trigger] cands[c]).index < (#[trigger] cands[d]).index
    &&& forall|k: int|
        0 <= k < n && !craft_consumes(#[trigger] bullets[k], ship) ==> listed(cands, k)
}

/// Bullet `k` is among the candidates.
spec fn listed(cands: Seq<Candidate>, k: int) -> bool {
    exists|c: int| 0 <= c < cands.len() && (#[trigger] cands[c]).index == k
}

/// `ring` is the ring of a rectangle of one of the first `upto` hitboxes.
spec fn static_ring(statics: Seq<Colliders>, upto: int, ring: Seq<Point2D>) -> bool {
    exists|s: int, q: int|
        0 <= s < upto && 0 <= q < statics[s]@.len() && (#[trigger] statics[s]@[q]).ring() == ring
}

/// `ring` is among `joined`.
spec fn ring_in(joined: Seq<Seq<Point2D>>, ring: Seq<Point2D>) -> bool {
    exists|p: int| 0 <= p < joined.len() && #[trigger] joined[p] == ring
}

/// The broad phase finds the hitbox eligible against some candidate.
spec fn near_candidate(st: Colliders, cands: Seq<Candidate>) -> bool {
    exists|c: int| 0 <= c < cands.len() && !hitboxes_apart(st@, (#[trigger] cands[c]).colliders@)
}

/// `joined` holds rings of the first `upto` hitboxes only, and every ring of
/// each of them that is eligible against some candidate.
spec fn joined_upto(
    joined: Seq<Seq<Point2D>>,
    statics: Seq<Colliders>,
    cands: Seq<Candidate>,
    upto: int,
) -> bool {
    &&& forall|p: int| 0 <= p < joined.len() ==> static_ring(statics, upto, #[trigger] joined[p])
    &&& forall|s: int, q: int|
        0 <= s < upto && 0 <= q < statics[s]@.len() && near_candidate(statics[s], cands) ==> ring_in(
            joined,
            (#[trigger] statics[s]@[q]).ring(),
        )
}

impl BulletSystem {
    /// The craft pass: tests each bullet against the craft's hitbox where it
    /// stands, responds to a contact, and moves and ages the bullet. The
    /// fates it returns leave the level out of account.
    fn craft_pass(
        &mut self,
        bullets: &mut Vec<Bullet>,
        ship_polygon: &Vec<Polygon>,
        resource: &mut MainResource,
        elapsed_ms: u32,
    ) -> (out: CraftPass)
        requires
            bullets_wf(old(bullets)@),
            polygons_wf(ship_polygon@),
        ensures
            final(bullets)@.len() == old(bullets)@.len(),
            forall|k: int|
                0 <= k < old(bullets)@.len() ==> #[trigger] final(bullets)@[k] == old(bullets)@[k].advanced(
                    elapsed_ms,
                ),
            out.fates@.len() == old(bullets)@.len(),
            forall|k: int|
                0 <= k < old(bullets)@.len() ==> #[trigger] out.fates@[k] == fate_of(
                    old(bullets)@[k],
                    elapsed_ms,
                    touches_craft(old(bullets)@[k], rings_of(ship_polygon@)),
                    false,
                ),
            candidates_upto(
                out.candidates@,
                old(bullets)@,
                rings_of(ship_polygon@),
                old(bullets)@.len() as int,
            ),
            out.hit_effects == hit_count(
                old(bullets)@,
                rings_of(ship_polygon@),
                old(bullets)@.len() as int,
            ),
            out.air_effect == (air_contact(
                old(bullets)@,
                rings_of(ship_polygon@),
                old(bullets)@.len() as int,
            ) && old(self).play_air_timer <= 0),
            final(self).play_air_timer == if out.air_effect {
                DEFAULT_AIR_TIMER
            } else {
                old(self).play_air_timer
            },
            *final(resource) == (MainResource {
                x_force: force_after(
                    old(resource).x_force,
                    old(bullets)@,
                    rings_of(ship_polygon@),
                    elapsed_ms,
                    old(bullets)@.len() as int,
                ),
                bullet_hits: hits_after(
                    old(resource).bullet_hits,
                    hit_count(old(bullets)@, rings_of(ship_polygon@), old(bullets)@.len() as int),
                ),
                ..*old(resource)
            }),
    {
        let ghost before = bullets@;
        let ghost ship = rings_of(ship_polygon@);
        let ghost timer0 = self.play_air_timer;
        let ghost res0 = *resource;
        let n = bullets.len();
        let mut fates: Vec<BulletFate> = Vec::new();
        let mut candidates: Vec<Candidate> = Vec::new();
        let mut hit_effects: usize = 0;
        let mut air_effect: bool = false;
        let mut i: usize = 0;
        while i < n
            invariant
                i <= n,
                n == before.len(),
                bullets@.len() == n,
                bullets_wf(before),
                polygons_wf(ship_polygon@),
                ship == rings_of(ship_polygon@),
                forall|k: int| 0 <= k < i ==> #[trigger] bullets@[k] == before[k].advanced(elapsed_ms),
                forall|k: int| i <= k < n ==> #[trigger] bullets@[k] == before[k],
                fates@.len() == i,
                forall|k: int|
                    0 <= k < i ==> #[trigger] fates@[k] == fate_of(
                        before[k],
                        elapsed_ms,
                        touches_craft(before[k], ship),
                        false,
                    ),
                candidates_upto(candidates@, before, ship, i as int),
                hit_effects == hit_count(before, ship, i as int),
                hit_effects <= i,
                air_effect == (air_contact(before, ship, i as int) && timer0 <= 0),
                self.play_air_timer == if air_effect {
                    DEFAULT_AIR_TIMER
                } else {
                    timer0
                },
                *resource == (MainResource {
                    x_force: force_after(res0.x_force, before, ship, elapsed_ms, i as int),
                    bullet_hits: hits_after(res0.bullet_hits, hit_count(before, ship, i as int)),
                    ..res0
                }),
            decreases n - i,
        {
            let b = bullets[i];
            assert(b == before[i as int]);
            let colliders = b.colliders();
            let polys = colliders.polygons();
            let contact = are_colliding(&polys, ship_polygon);
            assert(rings_of(polys@) == rect_rings(b.rects()));
            assert(contact == touches_craft(b, ship));
            let ghost cands_before = candidates@;
            if contact {
                match self.respond_to_contact(&b, resource, elapsed_ms) {
                    Some(Sound::Hit) => {
                        hit_effects = hit_effects + 1;
                    },
                    Some(Sound::Air) => {
                        air_effect = true;
                    },
                    None => {},
                }
            }
            if !contact || canon_kind_is_area(&b.kind) {
                candidates.push(Candidate { index: i, colliders });
            }
            fates.push(bullet_fate(&b, elapsed_ms, contact, false));
            let mut nb = b;
            nb.advance(elapsed_ms);
            bullets.set(i, nb);
            proof {
                let cands = candidates@;
                assert forall|k: int|
                    0 <= k < i + 1 && !craft_consumes(#[trigger] before[k], ship) implies listed(
                    cands,
                    k,
                ) by {
                    if k < i {
                        assert(listed(cands_before, k));
                        let c = choose|c: int|
                            0 <= c < cands_before.len() && (#[trigger] cands_before[c]).index == k;
                        assert(cands[c] == cands_before[c]);
                    } else {
                        assert(cands[cands.len() - 1].index == i);
                    }
                }
                assert forall|c: int, d: int| 0 <= c < d < cands.len() implies (#[trigger] cands[c]).index
                    < (#[trigger] cands[d]).index by {
                    if d < cands_before.len() {
                        assert(cands[c] == cands_before[c]);
                        assert(cands[d] == cands_before[d]);
                    } else {
                        assert(cands[c] == cands_before[c]);
                    }
                }
            }
            i += 1;
        }
        CraftPass { fates, candidates, hit_effects, air_effect }
    }
}

/// Every candidate's hitbox is well formed.
spec fn candidates_wf(cands: Seq<Candidate>) -> bool {
    forall|c: int| 0 <= c < cands.len() ==> (#[trigger] cands[c]).colliders.wf()
}

/// Bullet `k` is among the first `upto` candidates.
spec fn listed_before(cands: Seq<Candidate>, upto: int, k: int) -> bool {
    exists|c: int| 0 <= c < upto && (#[trigger] cands[c]).index == k
}

/// Tells whether the broad phase finds the hitbox eligible against some
/// candidate.
fn near_any(st: &Colliders, candidates: &Vec<Candidate>) -> (r: bool)
    requires
        rects_wf(st@),
        candidates_wf(candidates@),
    ensures
        r == near_candidate(*st, candidates@),
{
    let mut c: usize = 0;
    while c < candidates.len()
        invariant
            c <= candidates.len(),
            rects_wf(st@),
            candidates_wf(candidates@),
            forall|d: int| 0 <= d < c ==> hitboxes_apart(st@, (#[trigger] candidates@[d]).colliders@),
        decreases candidates.len() - c,
    {
        if compute_is_eligible_for_collision(st, &candidates[c].colliders) {
            return true;
        }
        c += 1;
    }
    false
}

/// A ring of one of the first `upto` hitboxes is a ring of one of the first
/// `upto + 1`.
proof fn lemma_static_ring_stays(statics: Seq<Colliders>, upto: int, ring: Seq<Point2D>)
    requires
        static_ring(statics, upto, ring),
    ensures
        static_ring(statics, upto + 1, ring),
{
    let (s, q) = choose|s: int, q: int|
        0 <= s < upto && 0 <= q < statics[s]@.len() && (#[trigger] statics[s]@[q]).ring() == ring;
    assert(statics[s]@[q].ring() == ring);
}

/// The polygons of the level that a candidate can possibly touch: those of
/// every hitbox that the broad phase finds eligible against some candidate.
fn level_polygons(statics: &Vec<Colliders>, candidates: &Vec<Candidate>) -> (joined: Vec<Polygon>)
    requires
        statics_wf(statics@),
        candidates_wf(candidates@),
    ensures
        polygons_wf(joined@),
        joined_upto(rings_of(joined@), statics@, candidates@, statics@.len() as int),
{
    let mut joined: Vec<Polygon> = Vec::new();
    let mut s: usize = 0;
    while s < statics.len()
        invariant
            s <= statics.len(),
            statics_wf(statics@),
            candidates_wf(candidates@),
            polygons_wf(joined@),
            joined_upto(rings_of(joined@), statics@, candidates@, s as int),
        decreases statics.len() - s,
    {
        let st = &statics[s];
        let ghost had = rings_of(joined@);
        if near_any(st, candidates) {
            let mut polys = st.polygons();
            let ghost added = rings_of(polys@);
            joined.append(&mut polys);
            proof {
                let now = rings_of(joined@);
                assert(now =~= had + added);
                assert(added == rect_rings(st@));
                assert forall|p: int| 0 <= p < now.len() implies static_ring(
                    statics@,
                    s + 1,
                    #[trigger] now[p],
                ) by {
                    if p < had.len() {
                        assert(now[p] == had[p]);
                        lemma_static_ring_stays(statics@, s as int, had[p]);
                    } else {
                        let q = p - had.len();
                        assert(now[p] == added[q]);
                        assert(statics@[s as int]@[q].ring() == now[p]);
                    }
                }
                assert forall|s1: int, q: int|
                    0 <= s1 < s + 1 && 0 <= q < statics@[s1]@.len() && near_candidate(
                        statics@[s1],
                        candidates@,
                    ) implies ring_in(now, (#[trigger] statics@[s1]@[q]).ring()) by {
                    if s1 < s {
                        assert(ring_in(had, statics@[s1]@[q].ring()));
                        let p = choose|p: int|
                            0 <= p < had.len() && #[trigger] had[p] == statics@[s1]@[q].ring();
                        assert(now[p] == had[p]);
                    } else {
                        assert(now[had.len() + q] == added[q]);
                    }
                }
            }
        } else {
            proof {
                assert forall|p: int| 0 <= p < had.len() implies static_ring(
                    statics@,
                    s + 1,
                    #[trigger] had[p],
                ) by {
                    lemma_static_ring_stays(statics@, s as int, had[p]);
                }
            }
        }
        s += 1;
    }
    joined
}

/// A candidate touches the joined polygons exactly when it touches the
/// level: the broad phase leaves out no hitbox that the bullet touches.
proof fn lemma_joined_decides(
    b: Bullet,
    cands: Seq<Candidate>,
    c: int,
    joined: Seq<Seq<Point2D>>,
    statics: Seq<Colliders>,
)
    requires
        0 <= c < cands.len(),
        cands[c].colliders@ == b.rects(),
        cands[c].colliders.wf(),
        statics_wf(statics),
        joined_upto(joined, statics, cands, statics.len() as int),
    ensures
        polygons_collide(rect_rings(b.rects()), joined) == touches_level(b, statics),
{
    let br = rect_rings(b.rects());
    if polygons_collide(br, joined) {
        let (i, p) = choose|i: int, p: int|
            0 <= i < br.len() && 0 <= p < joined.len() && rings_intersect(
                #[trigger] br[i],
                #[trigger] joined[p],
            );
        assert(static_ring(statics, statics.len() as int, joined[p]));
        let (s, q) = choose|s: int, q: int|
            0 <= s < statics.len() && 0 <= q < statics[s]@.len() && (#[trigger] statics[s]@[q]).ring()
                == joined[p];
        let sr = statics[s].rings();
        assert(sr[q] == joined[p]);
        assert(rings_intersect(br[i], sr[q]));
        assert(polygons_collide(br, statics[s].rings()));
    }
    if touches_level(b, statics) {
        let s = choose|s: int|
            0 <= s < statics.len() && polygons_collide(br, (#[trigger] statics[s]).rings());
        let sr = statics[s].rings();
        let (i, q) = choose|i: int, q: int|
            0 <= i < br.len() && 0 <= q < sr.len() && rings_intersect(#[trigger] br[i], #[trigger] sr[q]);
        collide_symmetric(br, sr);
        colliding_hitboxes_are_eligible(statics[s]@, b.rects());
        assert(near_candidate(statics[s], cands));
        assert(ring_in(joined, statics[s]@[q].ring()));
        let p = choose|p: int| 0 <= p < joined.len() && #[trigger] joined[p] == statics[s]@[q].ring();
        assert(rings_intersect(br[i], joined[p]));
    }
}

/// The level pass: tests each candidate against the joined polygons and
/// consumes the ones that touch them and have not expired.
fn level_pass(
    fates: &mut Vec<BulletFate>,
    candidates: &Vec<Candidate>,
    joined: &Vec<Polygon>,
    elapsed_ms: u32,
    Ghost(before): Ghost<Seq<Bullet>>,
    Ghost(ship): Ghost<Seq<Seq<Point2D>>>,
    Ghost(statics): Ghost<Seq<Colliders>>,
)
    requires
        old(fates)@.len() == before.len(),
        forall|k: int|
            0 <= k < before.len() ==> #[trigger] old(fates)@[k] == fate_of(
                before[k],
                elapsed_ms,
                touches_craft(before[k], ship),
                false,
            ),
        candidates_upto(candidates@, before, ship, before.len() as int),
        statics_wf(statics),
        polygons_wf(joined@),
        joined_upto(rings_of(joined@), statics, candidates@, statics.len() as int),
    ensures
        final(fates)@.len() == before.len(),
        forall|k: int|
            0 <= k < before.len() ==> #[trigger] final(fates)@[k] == tick_fate(
                before[k],
                elapsed_ms,
                ship,
                statics,
            ),
{
    let mut c: usize = 0;
    while c < candidates.len()
        invariant
            c <= candidates.len(),
            fates@.len() == before.len(),
            candidates_upto(candidates@, before, ship, before.len() as int),
            statics_wf(statics),
            polygons_wf(joined@),
            joined_upto(rings_of(joined@), statics, candidates@, statics.len() as int),
            forall|k: int|
                0 <= k < before.len() ==> #[trigger] fates@[k] == if listed_before(
                    candidates@,
                    c as int,
                    k,
                ) {
                    tick_fate(before[k], elapsed_ms, ship, statics)
                } else {
                    fate_of(before[k], elapsed_ms, touches_craft(before[k], ship), false)
                },
        decreases candidates.len() - c,
    {
        let cand = &candidates[c];
        let idx = cand.index;
        let ghost b = before[idx as int];
        let ghost fates_before = fates@;
        assert(!listed_before(candidates@, c as int, idx as int)) by {
            if listed_before(candidates@, c as int, idx as int) {
                let d = choose|d: int| 0 <= d < c && (#[trigger] candidates@[d]).index == idx;
                assert(candidates@[d].index < candidates@[c as int].index);
            }
        }
        let polys = cand.colliders.polygons();
        let hit = are_colliding(&polys, joined);
        proof {
            lemma_joined_decides(b, candidates@, c as int, rings_of(joined@), statics);
            assert(rings_of(polys@) == rect_rings(b.rects()));
        }
        if hit {
            match fates[idx] {
                BulletFate::Alive => {
                    fates.set(idx, BulletFate::Consumed);
                },
                _ => {},
            }
        }
        proof {
            assert(listed_before(candidates@, c + 1, idx as int));
            assert forall|k: int| 0 <= k < before.len() implies #[trigger] fates@[k] == if listed_before(
                candidates@,
                c + 1,
                k,
            ) {
                tick_fate(before[k], elapsed_ms, ship, statics)
            } else {
                fate_of(before[k], elapsed_ms, touches_craft(before[k], ship), false)
            } by {
                if k != idx {
                    assert(fates@[k] == fates_before[k]);
                    if listed_before(candidates@, c + 1, k) {
                        let d = choose|d: int|
                            0 <= d < c + 1 && (#[trigger] candidates@[d]).index == k;
                        assert(d < c);
                        assert(listed_before(candidates@, c as int, k));
                    }
                }
            }
        }
        c += 1;
    }
    proof {
        assert forall|k: int| 0 <= k < before.len() implies #[trigger] fates@[k] == tick_fate(
            before[k],
            elapsed_ms,
            ship,
            statics,
        ) by {
            if !listed_before(candidates@, c as int, k) {
                if !craft_consumes(before[k], ship) {
                    assert(listed(candidates@, k));
                    let d = choose|d: int|
                        0 <= d < candidates@.len() && (#[trigger] candidates@[d]).index == k;
                    assert(listed_before(candidates@, c as int, k));
                }
            }
        }
    }
}

/// What survives of well-formed bullets is well formed.
proof fn lemma_kept_wf(stepped: Seq<Bullet>, fates: Seq<BulletFate>, n: int)
    requires
        0 <= n <= stepped.len(),
        n <= fates.len(),
        forall|k: int| 0 <= k < n && fates[k] == BulletFate::Alive ==> (#[trigger] stepped[k]).wf(),
    ensures
        bullets_wf(kept(stepped, fates, n)),
        kept(stepped, fates, n).len() <= n,
    decreases n,
{
    if n > 0 {
        lemma_kept_wf(stepped, fates, n - 1);
    }
}

impl BulletSystem {
    /// Carries out the removals that a tick decided: keeps the bullets whose
    /// fate is to stay alive, in their order, and drops the others.
    pub fn sweep(bullets: &mut Vec<Bullet>, fates: &Vec<BulletFate>)
        requires
            fates@.len() == old(bullets)@.len(),
        ensures
            final(bullets)@ == kept(old(bullets)@, fates@, old(bullets)@.len() as int),
    {
        let ghost before = bullets@;
        let mut alive: Vec<Bullet> = Vec::new();
        let mut i: usize = 0;
        while i < bullets.len()
            invariant
                i <= bullets.len(),
                bullets@ == before,
                fates@.len() == before.len(),
                alive@ == kept(before, fates@, i as int),
            decreases bullets.len() - i,
        {
            match fates[i] {
                BulletFate::Alive => {
                    alive.push(bullets[i]);
                },
                _ => {},
            }
            i += 1;
        }
        *bullets = alive;
    }

    /// One tick of `elapsed_ms` over the bullets in flight.
    ///
    /// `statics` are the hitboxes of the level's geometry, `ship` is the
    /// position of the craft, if there is one. Every bullet is tested where
    /// it stands when the tick begins, first against the craft's hitbox and
    /// then, unless the craft has consumed it, against the level. A contact with
    /// the craft is responded to in `resource` and in the sounds that the
    /// report asks for. Then the bullet moves and ages. At the end the
    /// bullets that were consumed or expired are dropped from `bullets`.
    pub fn run(
        &mut self,
        bullets: &mut Vec<Bullet>,
        statics: &Vec<Colliders>,
        ship: Option<Point2D>,
        resource: &mut MainResource,
        elapsed_ms: u32,
    ) -> (report: TickReport)
        requires
            bullets_wf(old(bullets)@),
            statics_wf(statics@),
            ship matches Some(p) ==> p.is_placeable(),
        ensures
            report.fates@.len() == old(bullets)@.len(),
            forall|k: int|
                0 <= k < old(bullets)@.len() ==> #[trigger] report.fates@[k] == tick_fate(
                    old(bullets)@[k],
                    elapsed_ms,
                    ship_rings(ship),
                    statics@,
                ),
            final(bullets)@ == kept(
                advanced_all(old(bullets)@, elapsed_ms),
                report.fates@,
                old(bullets)@.len() as int,
            ),
            bullets_wf(final(bullets)@),
            report.hit_effects == hit_count(
                old(bullets)@,
                ship_rings(ship),
                old(bullets)@.len() as int,
            ),
            report.air_effect == air_fires(
                old(self).play_air_timer,
                elapsed_ms,
                air_contact(old(bullets)@, ship_rings(ship), old(bullets)@.len() as int),
            ),
            final(self).play_air_timer == timer_after(
                old(self).play_air_timer,
                elapsed_ms,
                air_contact(old(bullets)@, ship_rings(ship), old(bullets)@.len() as int),
            ),
            *final(resource) == (MainResource {
                x_force: force_after(
                    old(resource).x_force,
                    old(bullets)@,
                    ship_rings(ship),
                    elapsed_ms,
                    old(bullets)@.len() as int,
                ),
                bullet_hits: hits_after(
                    old(resource).bullet_hits,
                    hit_count(old(bullets)@, ship_rings(ship), old(bullets)@.len() as int),
                ),
                ..*old(resource)
            }),
    {
        let ghost before = bullets@;
        self.cool_down(elapsed_ms);
        let ship_polygon = match ship {
            Some(p) => resource.get_colliders_for_collision(p.x, p.y),
            None => Vec::new(),
        };
        assert(rings_of(ship_polygon@) =~= ship_rings(ship));
        let pass = self.craft_pass(bullets, &ship_polygon, resource, elapsed_ms);
        let CraftPass { fates, candidates, hit_effects, air_effect } = pass;
        let mut fates = fates;
        let joined = level_polygons(statics, &candidates);
        level_pass(
            &mut fates,
            &candidates,
            &joined,
            elapsed_ms,
            Ghost(before),
            Ghost(ship_rings(ship)),
            Ghost(statics@),
        );
        proof {
            assert(bullets@ =~= advanced_all(before, elapsed_ms));
            lemma_kept_wf(bullets@, fates@, bullets@.len() as int);
        }
        Self::sweep(bullets, &fates);
        TickReport { fates, hit_effects, air_effect }
    }
}

} // verus!
