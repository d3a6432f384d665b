//! The simulation state and its per-tick rules: the mode machine
//! (title, playing, game over), the tick that couples terrain and
//! player, the hazard and pickup passes, and the discrete commands of
//! the input layer.

use vstd::prelude::*;
use vstd::arithmetic::div_mod::{lemma_div_nonincreasing, lemma_div_pos_is_pos};
use crate::geom::Vec2Fx;
use crate::player::Player;
use crate::terrain::{Terrain, BARS_PER_VIEWPORT};
use crate::boulder::Boulder;
use crate::pickup::{Pickup, PickupType};
use crate::background::Background;
use crate::{in_coord_range, in_bound, COORD_LIMIT};

verus! {

/// The initial scroll speed is `viewport_width` divided by this: four
/// world units per tick at the reference viewport scale.
pub const INITIAL_SPEED_DIVISOR: i64 = 120;
/// Gravity is `viewport_height` divided by this: fifteen world units
/// per tick of vertical speed gain at the reference scale.
pub const GRAVITY_DIVISOR: i64 = 32;
/// The vertical pace unit is `viewport_height` divided by this.
pub const SPEED_Y_DIVISOR: i64 = 480;
/// A collected pickup boosts the scroll speed by `viewport_width`
/// divided by this: five world units at the reference scale.
pub const PICKUP_BOOST_DIVISOR: i64 = 96;
/// Ground detection buffer, in subunits (5 world units): the player
/// grounds as soon as its bottom is within this of the terrain line.
pub const GROUND_BUFFER: i64 = 500;
/// One keyboard nudge of the scroll speed, in subunits (0.2 units).
pub const SPEED_NUDGE: i64 = 20;
/// Number of boulders in play.
pub const BOULDER_COUNT: usize = 2;
/// Numbers of coins and of gems in play.
pub const COIN_COUNT: usize = 2;
pub const GEM_COUNT: usize = 2;
/// Horizontal spacing of the initial coins, in subunits.
pub const COIN_SPACING: i64 = 20_000;
/// Horizontal spacing of the initial gems, in subunits.
pub const GEM_SPACING: i64 = 30_000;
/// Most entities the state will carry in either list; keeps every
/// score and speed sum of one pass inside an `i64`.
pub const ENTITY_LIMIT: usize = 16;

/// Whether a boulder's pre-pass position scrolls fully past the left
/// edge this pass, which sends it back to the right edge.
pub open spec fn boulder_recycled(b0: Boulder, speed: int) -> bool {
    b0.pos.x - speed + b0.width < 0
}

/// Whether a boulder, in its post-pass position, overlaps the player
/// standing at `ppos` with the given dimensions.
pub open spec fn boulder_hits(b1: Boulder, ppos: Vec2Fx, pw: int, ph: int) -> bool {
    crate::geom::spec_rects_overlap(
        ppos.x as int, ppos.y - ph, ppos.x + pw, ppos.y as int,
        b1.pos.x as int, b1.pos.y as int, b1.pos.x + b1.width, b1.pos.y + b1.height,
    )
}

/// Whether a pickup's pre-pass position scrolls fully past the left
/// edge this pass, which scatters it back past the right edge.
pub open spec fn pickup_recycled(p0: Pickup, speed: int) -> bool {
    p0.pos.x - speed + p0.width < 0
}

/// Whether the pickup still counts as collected when the collision
/// test runs: a recycled pickup has just been made collectable again.
pub open spec fn pickup_precollected(p0: Pickup, speed: int) -> bool {
    !pickup_recycled(p0, speed) && p0.collected
}

/// Whether this pass collects the pickup: it was collectable and its
/// post-pass rectangle overlaps the player's.
pub open spec fn pickup_hit(
    p0: Pickup, p1: Pickup, ppos: Vec2Fx, pw: int, ph: int, speed: int,
) -> bool {
    &&& !pickup_precollected(p0, speed)
    &&& crate::geom::spec_rects_overlap(
            ppos.x as int, ppos.y - ph, ppos.x + pw, ppos.y as int,
            p1.pos.x as int, p1.pos.y as int, p1.pos.x + p1.width, p1.pos.y + p1.height,
        )
}

/// Total score gathered by the first `n` pickups of one pass.
pub open spec fn pickup_score_gain(
    olds: Seq<Pickup>, news: Seq<Pickup>, ppos: Vec2Fx, pw: int, ph: int, speed: int, n: int,
) -> int
    decreases n,
{
    if n <= 0 {
        0
    } else {
        pickup_score_gain(olds, news, ppos, pw, ph, speed, n - 1)
            + if pickup_hit(olds[n - 1], news[n - 1], ppos, pw, ph, speed) {
                olds[n - 1].value as int
            } else {
                0
            }
    }
}

/// How many of the first `n` pickups of one pass are collected.
pub open spec fn pickup_hit_count(
    olds: Seq<Pickup>, news: Seq<Pickup>, ppos: Vec2Fx, pw: int, ph: int, speed: int, n: int,
) -> int
    decreases n,
{
    if n <= 0 {
        0
    } else {
        pickup_hit_count(olds, news, ppos, pw, ph, speed, n - 1)
            + if pickup_hit(olds[n - 1], news[n - 1], ppos, pw, ph, speed) {
                1int
            } else {
                0int
            }
    }
}

/// The pass totals read only the first `n` entries of the post-pass
/// list, so any later entry may change without affecting them.
proof fn lemma_pass_totals_prefix(
    olds: Seq<Pickup>, news1: Seq<Pickup>, news2: Seq<Pickup>, ppos: Vec2Fx, pw: int, ph: int,
    speed: int, n: int,
)
    requires
        forall|j: int| 0 <= j < n ==> news1[j] == news2[j],
    ensures
        pickup_score_gain(olds, news1, ppos, pw, ph, speed, n)
            == pickup_score_gain(olds, news2, ppos, pw, ph, speed, n),
        pickup_hit_count(olds, news1, ppos, pw, ph, speed, n)
            == pickup_hit_count(olds, news2, ppos, pw, ph, speed, n),
    decreases n,
{
    if n > 0 {
        lemma_pass_totals_prefix(olds, news1, news2, ppos, pw, ph, speed, n - 1);
    }
}

/// Where the session stands: on the title screen, in play, or over.
#[derive(Clone, Copy, PartialEq, Eq, Structural, Debug)]
pub enum Mode {
    Title,
    Playing,
    GameOver,
}

/// A viewport the simulation can run in: wide enough for one terrain
/// bar per twentieth, tall enough for the hazard band, and small
/// enough that every coordinate stays in range.
pub open spec fn viewport_ok(vw: int, vh: int) -> bool {
    &&& BARS_PER_VIEWPORT <= vw
    &&& 2 * vw <= COORD_LIMIT as int
    &&& 4 <= vh
    &&& 2 * vh <= COORD_LIMIT as int
}

/// The whole simulation: one terrain, one player, the entity lists,
/// and the shared scalars — most importantly `speed_x`, the single
/// global pace of everything that scrolls.
pub struct GameState {
    pub mode: Mode,
    pub score: i64,
    pub speed_x: i64,
    pub speed_x_delta: i64,
    pub speed_y: i64,
    pub gravity: i64,
    pub ascent_speed: i64,
    pub collision_counter_on: bool,
    pub terrain: Terrain,
    pub background: Background,
    pub mouse_pos: Vec2Fx,
    pub player: Player,
    pub boulders: Vec<Boulder>,
    pub pickups: Vec<Pickup>,
    pub viewport_width: i64,
    pub viewport_height: i64,
}

impl GameState {
    /// Everything the per-tick arithmetic leans on: a sane viewport,
    /// every scalar and every entity within the coordinate bound, and
    /// the terrain ring intact.
    pub open spec fn wf(self) -> bool {
        &&& viewport_ok(self.viewport_width as int, self.viewport_height as int)
        &&& in_coord_range(self.score as int)
        &&& in_coord_range(self.speed_x as int)
        &&& in_coord_range(self.speed_x_delta as int)
        &&& in_coord_range(self.speed_y as int)
        &&& in_coord_range(self.gravity as int)
        &&& in_coord_range(self.ascent_speed as int)
        &&& in_coord_range(self.mouse_pos.x as int)
        &&& in_coord_range(self.mouse_pos.y as int)
        &&& self.terrain.wf()
        &&& self.terrain.coords_in_range()
        &&& self.terrain.viewport_width == self.viewport_width
        &&& self.player.wf()
        &&& self.background.coords_in_range()
        &&& self.background.window_width == self.viewport_width
        &&& self.background.window_height == self.viewport_height
        &&& self.boulders@.len() <= ENTITY_LIMIT
        &&& forall|i: int| 0 <= i < self.boulders@.len() ==> {
                let b = #[trigger] self.boulders@[i];
                &&& in_coord_range(b.pos.x as int)
                &&& in_coord_range(b.pos.y as int)
                &&& in_coord_range(b.width as int)
                &&& in_coord_range(b.height as int)
            }
        &&& self.pickups@.len() <= ENTITY_LIMIT
        &&& forall|i: int| 0 <= i < self.pickups@.len() ==> {
                let p = #[trigger] self.pickups@[i];
                &&& in_coord_range(p.pos.x as int)
                &&& in_coord_range(p.pos.y as int)
                &&& in_coord_range(p.width as int)
                &&& in_coord_range(p.height as int)
                &&& in_coord_range(p.value as int)
            }
    }

    /// Whether the whole state lies within the simulation bounds; the
    /// driver checks this before every pass.
    pub fn is_well_formed(&self) -> (b: bool)
        ensures
            b == self.wf(),
    {
        if !(BARS_PER_VIEWPORT <= self.viewport_width
            && self.viewport_width <= COORD_LIMIT / 2
            && 4 <= self.viewport_height
            && self.viewport_height <= COORD_LIMIT / 2) {
            return false;
        }
        if !(in_bound(self.score) && in_bound(self.speed_x) && in_bound(self.speed_x_delta)
            && in_bound(self.speed_y) && in_bound(self.gravity) && in_bound(self.ascent_speed)
            && in_bound(self.mouse_pos.x) && in_bound(self.mouse_pos.y)) {
            return false;
        }
        if !self.terrain.is_well_formed()
            || self.terrain.viewport_width != self.viewport_width {
            return false;
        }
        if !self.player.is_well_formed() {
            return false;
        }
        if !self.background.is_well_formed()
            || self.background.window_width != self.viewport_width
            || self.background.window_height != self.viewport_height {
            return false;
        }
        if self.boulders.len() > ENTITY_LIMIT || self.pickups.len() > ENTITY_LIMIT {
            return false;
        }
        let mut i: usize = 0;
        while i < self.boulders.len()
            invariant
                0 <= i <= self.boulders@.len(),
                forall|j: int| 0 <= j < i ==> {
                    let b = #[trigger] self.boulders@[j];
                    &&& in_coord_range(b.pos.x as int)
                    &&& in_coord_range(b.pos.y as int)
                    &&& in_coord_range(b.width as int)
                    &&& in_coord_range(b.height as int)
                },
            decreases self.boulders@.len() - i,
        {
            let b = self.boulders[i];
            if !(in_bound(b.pos.x) && in_bound(b.pos.y)
                && in_bound(b.width) && in_bound(b.height)) {
                return false;
            }
            i += 1;
        }
        let mut i: usize = 0;
        while i < self.pickups.len()
            invariant
                0 <= i <= self.pickups@.len(),
                forall|j: int| 0 <= j < i ==> {
                    let p = #[trigger] self.pickups@[j];
                    &&& in_coord_range(p.pos.x as int)
                    &&& in_coord_range(p.pos.y as int)
                    &&& in_coord_range(p.width as int)
                    &&& in_coord_range(p.height as int)
                    &&& in_coord_range(p.value as int)
                },
            decreases self.pickups@.len() - i,
        {
            let p = self.pickups[i];
            if !(in_bound(p.pos.x) && in_bound(p.pos.y) && in_bound(p.width)
                && in_bound(p.height) && in_bound(p.value)) {
                return false;
            }
            i += 1;
        }
        true
    }

    /// What a freshly reset round looks like, given the viewport:
    /// scalars at their scaled initial values, a uniform terrain, the
    /// player airborne at centre-left, two boulders past the right
    /// edge, two coins and two gems incoming.
    pub open spec fn freshly_reset(self) -> bool {
        let vw = self.viewport_width as int;
        let vh = self.viewport_height as int;
        &&& self.score == 0
        &&& self.speed_x == vw / INITIAL_SPEED_DIVISOR as int
        &&& self.speed_x_delta == vw / INITIAL_SPEED_DIVISOR as int
        &&& self.speed_y == vh / SPEED_Y_DIVISOR as int
        &&& self.gravity == vh / GRAVITY_DIVISOR as int
        &&& self.ascent_speed == 0
        &&& !self.collision_counter_on
        &&& self.terrain.fresh_grid(vw, vh - vh / 6, vw / INITIAL_SPEED_DIVISOR as int)
        &&& self.player.fresh_at(vw / 4, vh / 2)
        &&& self.boulders@.len() == BOULDER_COUNT as int
        &&& forall|i: int| 0 <= i < BOULDER_COUNT as int ==> {
                let b = #[trigger] self.boulders@[i];
                &&& b.pos.x == self.viewport_width
                &&& 0 <= b.pos.y < 3 * vh / 4
                &&& vw / BARS_PER_VIEWPORT as int <= b.width
                        < crate::boulder::BOULDER_MAX_BARS * (vw / BARS_PER_VIEWPORT as int)
                &&& vw / BARS_PER_VIEWPORT as int <= b.height
                        < crate::boulder::BOULDER_MAX_BARS * (vw / BARS_PER_VIEWPORT as int)
            }
        &&& self.pickups@.len() == (COIN_COUNT + GEM_COUNT) as int
        &&& forall|i: int| 0 <= i < COIN_COUNT as int ==> {
                let p = #[trigger] self.pickups@[i];
                &&& p.pos.x == vw + i * COIN_SPACING
                &&& 0 <= p.pos.y < vh
                &&& p.pickup_type == PickupType::Coin
                &&& !p.collected
            }
        &&& forall|i: int| COIN_COUNT as int <= i < (COIN_COUNT + GEM_COUNT) as int ==> {
                let p = #[trigger] self.pickups@[i];
                &&& p.pos.x == vw + (i - COIN_COUNT as int) * GEM_SPACING
                &&& 0 <= p.pos.y < vh
                &&& p.pickup_type == PickupType::Gem
                &&& !p.collected
            }
    }

    /// Rebuild the round: fresh boulders and pickups at random
    /// heights past the right edge, the player back at centre-left,
    /// a uniform terrain, and all pace scalars at their initial
    /// values. Mode, pointer, viewport and backdrop are untouched.
    pub fn reset_game_environment(&mut self)
        requires
            old(self).wf(),
        ensures
            final(self).wf(),
            final(self).freshly_reset(),
            final(self).mode == old(self).mode,
            final(self).mouse_pos == old(self).mouse_pos,
            final(self).background == old(self).background,
            final(self).viewport_width == old(self).viewport_width,
            final(self).viewport_height == old(self).viewport_height,
    {
        let vw = self.viewport_width;
        let vh = self.viewport_height;
        proof {
            lemma_div_pos_is_pos(3 * vh as int, 4);
            lemma_div_pos_is_pos(vh as int, 4);
            lemma_div_nonincreasing(3 * vh as int, 4);
            lemma_div_pos_is_pos(vw as int, INITIAL_SPEED_DIVISOR as int);
            lemma_div_nonincreasing(vw as int, INITIAL_SPEED_DIVISOR as int);
            lemma_div_pos_is_pos(vh as int, SPEED_Y_DIVISOR as int);
            lemma_div_nonincreasing(vh as int, SPEED_Y_DIVISOR as int);
            lemma_div_pos_is_pos(vh as int, GRAVITY_DIVISOR as int);
            lemma_div_nonincreasing(vh as int, GRAVITY_DIVISOR as int);
            lemma_div_pos_is_pos(vh as int, 6);
            lemma_div_nonincreasing(vh as int, 6);
            lemma_div_pos_is_pos(vw as int, 4);
            lemma_div_nonincreasing(vw as int, 4);
            lemma_div_pos_is_pos(vh as int, 2);
            lemma_div_nonincreasing(vh as int, 2);
            assert(3 * vh as int / 4 > 0) by {
                assert(3 * vh as int >= 12);
                vstd::arithmetic::div_mod::lemma_div_is_ordered(4, 3 * vh as int, 4);
                vstd::arithmetic::div_mod::lemma_div_basics_3(4);
            }
        }

        let mut boulders: Vec<Boulder> = Vec::new();
        let mut i: usize = 0;
        while i < BOULDER_COUNT
            invariant
                0 <= i <= BOULDER_COUNT,
                boulders@.len() == i,
                viewport_ok(vw as int, vh as int),
                0 < 3 * vh as int / 4,
                forall|j: int| 0 <= j < i ==> {
                    let b = #[trigger] boulders@[j];
                    &&& b.pos.x == vw
                    &&& 0 <= b.pos.y < 3 * vh as int / 4
                    &&& vw as int / BARS_PER_VIEWPORT as int <= b.width
                            < crate::boulder::BOULDER_MAX_BARS
                                * (vw as int / BARS_PER_VIEWPORT as int)
                    &&& vw as int / BARS_PER_VIEWPORT as int <= b.height
                            < crate::boulder::BOULDER_MAX_BARS
                                * (vw as int / BARS_PER_VIEWPORT as int)
                },
            decreases BOULDER_COUNT - i,
        {
            let y = crate::rng::random_between(0, 3 * vh / 4);
            boulders.push(Boulder::new(vw, y, vw));
            i += 1;
        }
        self.boulders = boulders;

        let mut pickups: Vec<Pickup> = Vec::new();
        let mut i: usize = 0;
        while i < COIN_COUNT
            invariant
                0 <= i <= COIN_COUNT,
                pickups@.len() == i,
                viewport_ok(vw as int, vh as int),
                forall|j: int| 0 <= j < i ==> {
                    let p = #[trigger] pickups@[j];
                    &&& p.pos.x == vw + j * COIN_SPACING
                    &&& 0 <= p.pos.y < vh
                    &&& p.pickup_type == PickupType::Coin
                    &&& !p.collected
                    &&& p.width == crate::pickup::COIN_SIZE
                    &&& p.height == crate::pickup::COIN_SIZE
                    &&& p.value == crate::pickup::COIN_VALUE
                },
            decreases COIN_COUNT - i,
        {
            let y = crate::rng::random_between(0, vh);
            pickups.push(Pickup::new(vw + (i as i64) * COIN_SPACING, y, PickupType::Coin));
            i += 1;
        }
        let mut i: usize = 0;
        while i < GEM_COUNT
            invariant
                0 <= i <= GEM_COUNT,
                pickups@.len() == COIN_COUNT + i,
                viewport_ok(vw as int, vh as int),
                forall|j: int| 0 <= j < COIN_COUNT as int ==> {
                    let p = #[trigger] pickups@[j];
                    &&& p.pos.x == vw + j * COIN_SPACING
                    &&& 0 <= p.pos.y < vh
                    &&& p.pickup_type == PickupType::Coin
                    &&& !p.collected
                    &&& p.width == crate::pickup::COIN_SIZE
                    &&& p.height == crate::pickup::COIN_SIZE
                    &&& p.value == crate::pickup::COIN_VALUE
                },
                forall|j: int| COIN_COUNT as int <= j < COIN_COUNT as int + i ==> {
                    let p = #[trigger] pickups@[j];
                    &&& p.pos.x == vw + (j - COIN_COUNT as int) * GEM_SPACING
                    &&& 0 <= p.pos.y < vh
                    &&& p.pickup_type == PickupType::Gem
                    &&& !p.collected
                    &&& p.width == crate::pickup::GEM_SIZE
                    &&& p.height == crate::pickup::GEM_SIZE
                    &&& p.value == crate::pickup::GEM_VALUE
                },
            decreases GEM_COUNT - i,
        {
            let y = crate::rng::random_between(0, vh);
            pickups.push(Pickup::new(vw + (i as i64) * GEM_SPACING, y, PickupType::Gem));
            i += 1;
        }
        self.pickups = pickups;

        self.player = Player::new(vw / 4, vh / 2);

        let speed = vw / INITIAL_SPEED_DIVISOR;
        self.terrain = Terrain::new(vw, vh - vh / 6, speed);

        self.score = 0;
        self.speed_x = speed;
        self.speed_x_delta = speed;
        self.speed_y = vh / SPEED_Y_DIVISOR;
        self.gravity = vh / GRAVITY_DIVISOR;
        self.ascent_speed = 0;
        self.collision_counter_on = false;
    }

    /// A new session in the given viewport: title mode, the pointer
    /// parked at the upper left, a fresh backdrop, and a freshly
    /// reset round.
    pub fn new(viewport_width: i64, viewport_height: i64) -> (s: GameState)
        requires
            viewport_ok(viewport_width as int, viewport_height as int),
        ensures
            s.wf(),
            s.freshly_reset(),
            s.mode == Mode::Title,
            s.mouse_pos.x == 0,
            s.mouse_pos.y == viewport_height as int / 6,
            s.viewport_width == viewport_width,
            s.viewport_height == viewport_height,
            s.background.window_width == viewport_width,
            s.background.window_height == viewport_height,
    {
        proof {
            lemma_div_pos_is_pos(viewport_height as int, 6);
            lemma_div_nonincreasing(viewport_height as int, 6);
            lemma_div_pos_is_pos(viewport_width as int, INITIAL_SPEED_DIVISOR as int);
            lemma_div_nonincreasing(viewport_width as int, INITIAL_SPEED_DIVISOR as int);
            lemma_div_pos_is_pos(viewport_height as int, SPEED_Y_DIVISOR as int);
            lemma_div_nonincreasing(viewport_height as int, SPEED_Y_DIVISOR as int);
            lemma_div_pos_is_pos(viewport_height as int, GRAVITY_DIVISOR as int);
            lemma_div_nonincreasing(viewport_height as int, GRAVITY_DIVISOR as int);
            lemma_div_pos_is_pos(viewport_width as int, 4);
            lemma_div_nonincreasing(viewport_width as int, 4);
            lemma_div_pos_is_pos(viewport_height as int, 2);
            lemma_div_nonincreasing(viewport_height as int, 2);
        }
        let speed = viewport_width / INITIAL_SPEED_DIVISOR;
        let mut s = GameState {
            mode: Mode::Title,
            score: 0,
            speed_x: speed,
            speed_x_delta: speed,
            speed_y: viewport_height / SPEED_Y_DIVISOR,
            gravity: viewport_height / GRAVITY_DIVISOR,
            ascent_speed: 0,
            collision_counter_on: false,
            terrain: Terrain::new(
                viewport_width,
                viewport_height - viewport_height / 6,
                speed,
            ),
            background: Background::new(viewport_width, viewport_height),
            mouse_pos: Vec2Fx::new(0, viewport_height / 6),
            player: Player::new(viewport_width / 4, viewport_height / 2),
            boulders: Vec::new(),
            pickups: Vec::new(),
            viewport_width,
            viewport_height,
        };
        s.reset_game_environment();
        s
    }

    /// Record the pointer position that will steer the terrain.
    pub fn set_mouse_pos(&mut self, x: i64, y: i64)
        ensures
            *final(self) == (GameState { mouse_pos: Vec2Fx { x, y }, ..*old(self) }),
    {
        self.mouse_pos = Vec2Fx::new(x, y);
    }

    /// Nudge the scroll speed up by one keyboard step.
    pub fn nudge_speed_up(&mut self)
        requires
            in_coord_range(old(self).speed_x as int),
        ensures
            final(self).speed_x == old(self).speed_x + SPEED_NUDGE,
            *final(self) == (GameState { speed_x: final(self).speed_x, ..*old(self) }),
    {
        self.speed_x = self.speed_x + SPEED_NUDGE;
    }

    /// Nudge the scroll speed down by one keyboard step, floored at
    /// zero.
    pub fn nudge_speed_down(&mut self)
        requires
            in_coord_range(old(self).speed_x as int),
        ensures
            final(self).speed_x == if old(self).speed_x - SPEED_NUDGE < 0 {
                0int
            } else {
                old(self).speed_x - SPEED_NUDGE
            },
            *final(self) == (GameState { speed_x: final(self).speed_x, ..*old(self) }),
    {
        self.speed_x = self.speed_x - SPEED_NUDGE;
        if self.speed_x < 0 {
            self.speed_x = 0;
        }
    }

    /// The confirm key: starts a fresh round from the title screen,
    /// returns to the title screen from game over, does nothing in
    /// play.
    pub fn handle_confirm(&mut self)
        requires
            old(self).wf(),
        ensures
            final(self).wf(),
            old(self).mode == Mode::Title ==> {
                &&& final(self).mode == Mode::Playing
                &&& final(self).freshly_reset()
                &&& final(self).mouse_pos == old(self).mouse_pos
                &&& final(self).background == old(self).background
                &&& final(self).viewport_width == old(self).viewport_width
                &&& final(self).viewport_height == old(self).viewport_height
            },
            old(self).mode == Mode::GameOver
                ==> *final(self) == (GameState { mode: Mode::Title, ..*old(self) }),
            old(self).mode == Mode::Playing ==> *final(self) == *old(self),
    {
        match self.mode {
            Mode::Title => {
                self.mode = Mode::Playing;
                self.reset_game_environment();
            }
            Mode::GameOver => {
                self.mode = Mode::Title;
            }
            Mode::Playing => {}
        }
    }

    /// One simulation tick, the fixed order of a frame: the terrain
    /// scrolls, deforms toward the pointer and feeds the two gate
    /// samples to the player; the player integrates physics and runs
    /// the slope feedback on the shared scroll speed; the held inputs
    /// are applied; then the player either falls out of the viewport
    /// (game over) or is resolved against the terrain height under it
    /// — snapped to the ground within the buffer, airborne otherwise.
    /// Outside play the tick does nothing.
    pub fn tick(&mut self, dt_ms: i64, jump_pressed: bool, left_pressed: bool,
        right_pressed: bool)
        requires
            old(self).wf(),
            0 <= dt_ms <= crate::DT_LIMIT_MS,
        ensures
            old(self).mode != Mode::Playing ==> *final(self) == *old(self),
            old(self).mode == Mode::Playing ==> ({
                let g = *old(self);
                let bw = g.terrain.bar_width as int;
                let vw_t = g.terrain.viewport_width as int;
                let zone = g.terrain.gate_zone();
                let prev_s = crate::terrain::gate_sample(
                    g.terrain.bars@, g.mouse_pos, g.speed_x as int, g.ascent_speed as int,
                    zone - bw, zone, g.player.prev_bar_height as int);
                let curr_s = crate::terrain::gate_sample(
                    g.terrain.bars@, g.mouse_pos, g.speed_x as int, g.ascent_speed as int,
                    zone, zone + bw, g.player.bar_height as int);
                let px1 = crate::player::integrated_x(g.player, dt_ms as int);
                let py1 = crate::player::integrated_y(g.player, g.gravity as int, dt_ms as int);
                let jumped = jump_pressed && g.player.on_ground;
                let vy2 = if jumped {
                    g.player.jump_speed as int
                } else {
                    crate::player::integrated_vy(g.player, g.gravity as int)
                };
                let ground2 = if jumped { false } else { g.player.on_ground };
                let vx2 = if left_pressed {
                    -(g.player.move_speed as int)
                } else if right_pressed {
                    g.player.move_speed as int
                } else {
                    0int
                };
                let fell = py1 > g.viewport_height;
                let ground_h = crate::terrain::spec_height_at(final(self).terrain.bars@, px1);
                &&& final(self).terrain.wf()
                &&& final(self).terrain.bar_width == g.terrain.bar_width
                &&& final(self).terrain.viewport_width == g.terrain.viewport_width
                &&& final(self).terrain.bars@.len() == g.terrain.bars@.len()
                &&& forall|i: int| 0 <= i < g.terrain.bars@.len() ==> {
                        let b0 = g.terrain.bars@[i];
                        let b1 = #[trigger] final(self).terrain.bars@[i];
                        &&& b1.pos.x == crate::terrain::stepped_x(b0, g.speed_x as int, bw,
                                vw_t)
                        &&& b1.pos.y == crate::terrain::stepped_y(b0, g.mouse_pos,
                                g.speed_x as int, g.ascent_speed as int, bw)
                        &&& b1.width == b0.width
                        &&& b1.height == b0.height
                        &&& b1.speed == g.speed_x
                        &&& b1.ascent == g.ascent_speed
                    }
                &&& final(self).player.prev_bar_height == prev_s
                &&& final(self).player.bar_height == curr_s
                &&& final(self).speed_x == crate::player::clamp_speed(
                        crate::player::slope_feedback(g.speed_x as int, prev_s, curr_s,
                            g.player.height as int))
                &&& 0 <= final(self).speed_x <= crate::player::SPEED_CAP
                &&& final(self).player.last_y == g.player.pos.y
                &&& final(self).player.terrain_positions@ == seq![
                        g.player.pos.y,
                        g.player.terrain_positions@[0],
                        g.player.terrain_positions@[1],
                        g.player.terrain_positions@[2],
                    ]
                &&& final(self).player.velocity.x == vx2
                &&& final(self).player.pos.x == px1
                &&& final(self).player.width == g.player.width
                &&& final(self).player.height == g.player.height
                &&& final(self).player.jump_speed == g.player.jump_speed
                &&& final(self).player.move_speed == g.player.move_speed
                &&& final(self).player.speed_y == g.player.speed_y
                &&& if fell {
                        &&& final(self).mode == Mode::GameOver
                        &&& final(self).collision_counter_on
                        &&& final(self).player.pos.y == py1
                        &&& final(self).player.velocity.y == vy2
                        &&& final(self).player.on_ground == ground2
                    } else {
                        &&& final(self).mode == Mode::Playing
                        &&& final(self).collision_counter_on == g.collision_counter_on
                        &&& match ground_h {
                                Some(h) => if py1 + g.player.height > h - GROUND_BUFFER {
                                    &&& final(self).player.pos.y == h - g.player.height
                                    &&& final(self).player.velocity.y == 0
                                    &&& final(self).player.on_ground
                                } else {
                                    &&& final(self).player.pos.y == py1
                                    &&& final(self).player.velocity.y == vy2
                                    &&& !final(self).player.on_ground
                                },
                                None => {
                                    &&& final(self).player.pos.y == py1
                                    &&& final(self).player.velocity.y == vy2
                                    &&& final(self).player.on_ground == ground2
                                },
                            }
                    }
                &&& final(self).score == g.score
                &&& final(self).speed_x_delta == g.speed_x_delta
                &&& final(self).speed_y == g.speed_y
                &&& final(self).gravity == g.gravity
                &&& final(self).ascent_speed == g.ascent_speed
                &&& final(self).mouse_pos == g.mouse_pos
                &&& final(self).viewport_width == g.viewport_width
                &&& final(self).viewport_height == g.viewport_height
                &&& final(self).boulders@ == g.boulders@
                &&& final(self).pickups@ == g.pickups@
                &&& final(self).background == g.background
            }),
    {
        match self.mode {
            Mode::Playing => {}
            _ => {
                return;
            }
        }

        let mouse = self.mouse_pos;
        let speed_in = self.speed_x;
        let ascent = self.ascent_speed;
        self.terrain.update(mouse, speed_in, ascent, &mut self.player);

        proof {
            let g = *old(self);
            let bound = 2 * COORD_LIMIT as int;
            assert forall|i: int| 0 <= i < g.terrain.bars@.len()
                implies -bound <= (#[trigger] g.terrain.bars@[i]).pos.y + g.ascent_speed
                    <= bound by {
            }
            crate::terrain::lemma_gate_sample_bounded(
                g.terrain.bars@, g.mouse_pos, g.speed_x as int, g.ascent_speed as int,
                g.terrain.gate_zone() - g.terrain.bar_width, g.terrain.gate_zone(),
                g.player.prev_bar_height as int, bound);
            crate::terrain::lemma_gate_sample_bounded(
                g.terrain.bars@, g.mouse_pos, g.speed_x as int, g.ascent_speed as int,
                g.terrain.gate_zone(), g.terrain.gate_zone() + g.terrain.bar_width,
                g.player.bar_height as int, bound);
        }

        let mut speed = self.speed_x;
        self.player.update(dt_ms, self.gravity, &mut speed);
        self.speed_x = speed;

        proof {
            let g = *old(self);
            crate::player::lemma_product_in_i64(g.player.velocity.x as int, dt_ms as int);
            crate::player::lemma_product_in_i64(
                crate::player::integrated_vy(g.player, g.gravity as int), dt_ms as int);
            crate::geom::lemma_div_trunc_bound(
                g.player.velocity.x * dt_ms, crate::MS_PER_SECOND as int,
                2_000_000_000_000_000_000);
            crate::geom::lemma_div_trunc_bound(
                crate::player::integrated_vy(g.player, g.gravity as int) * dt_ms,
                crate::MS_PER_SECOND as int, 2_000_000_000_000_000_000);
        }

        if jump_pressed {
            self.player.jump();
        }
        if left_pressed {
            self.player.move_left();
        } else if right_pressed {
            self.player.move_right();
        } else {
            self.player.stop_horizontal();
        }

        if self.player.pos.y > self.viewport_height {
            self.collision_counter_on = true;
            self.mode = Mode::GameOver;
        } else {
            match self.terrain.get_height_at(self.player.pos.x) {
                Some(h) => {
                    proof {
                        crate::terrain::lemma_height_at_bounded(
                            self.terrain.bars@, self.player.pos.x as int,
                            2 * COORD_LIMIT as int);
                    }
                    if self.player.pos.y + self.player.height > h - GROUND_BUFFER {
                        self.player.pos.y = h - self.player.height;
                        self.player.velocity.y = 0;
                        self.player.on_ground = true;
                    } else {
                        self.player.on_ground = false;
                    }
                }
                None => {}
            }
        }
    }

    /// The per-frame hazard pass, run only in play: every boulder
    /// scrolls with the global pace, is thrown back past the right
    /// edge once fully off screen, and ends the round the moment it
    /// overlaps the player.
    pub fn advance_boulders(&mut self)
        requires
            old(self).wf(),
        ensures
            old(self).mode != Mode::Playing ==> *final(self) == *old(self),
            old(self).mode == Mode::Playing ==> ({
                let g = *old(self);
                let seg = g.viewport_width as int / BARS_PER_VIEWPORT as int;
                &&& final(self).boulders@.len() == g.boulders@.len()
                &&& forall|i: int| 0 <= i < g.boulders@.len() ==> {
                        let b0 = g.boulders@[i];
                        let b1 = #[trigger] final(self).boulders@[i];
                        if boulder_recycled(b0, g.speed_x as int) {
                            &&& b1.pos.x == g.viewport_width
                            &&& -crate::boulder::BOULDER_TOP_MARGIN <= b1.pos.y
                                    < 3 * g.viewport_height as int / 4
                            &&& seg <= b1.width < crate::boulder::BOULDER_MAX_BARS * seg
                            &&& seg <= b1.height < crate::boulder::BOULDER_MAX_BARS * seg
                        } else {
                            &&& b1.pos.x == b0.pos.x - g.speed_x
                            &&& b1.pos.y == b0.pos.y + g.ascent_speed
                            &&& b1.width == b0.width
                            &&& b1.height == b0.height
                        }
                    }
                &&& final(self).mode == if (exists|i: int| 0 <= i < g.boulders@.len()
                        && boulder_hits(#[trigger] final(self).boulders@[i], g.player.pos,
                            g.player.width as int, g.player.height as int)) {
                        Mode::GameOver
                    } else {
                        Mode::Playing
                    }
                &&& final(self).collision_counter_on == (g.collision_counter_on
                        || exists|i: int| 0 <= i < g.boulders@.len()
                            && boulder_hits(#[trigger] final(self).boulders@[i], g.player.pos,
                                g.player.width as int, g.player.height as int))
                &&& *final(self) == (GameState {
                        mode: final(self).mode,
                        collision_counter_on: final(self).collision_counter_on,
                        boulders: final(self).boulders,
                        ..g
                    })
            }),
    {
        match self.mode {
            Mode::Playing => {}
            _ => {
                return;
            }
        }
        let ghost g = *old(self);
        let ghost bs0 = self.boulders@;
        let vw = self.viewport_width;
        let vh = self.viewport_height;
        let speed = self.speed_x;
        let ascent = self.ascent_speed;
        let ppos = self.player.pos;
        let pw = self.player.width;
        let ph = self.player.height;
        let mut i: usize = 0;
        while i < self.boulders.len()
            invariant
                g.wf(),
                g.mode == Mode::Playing,
                0 <= i <= bs0.len(),
                self.boulders@.len() == bs0.len(),
                bs0 == g.boulders@,
                vw == g.viewport_width,
                vh == g.viewport_height,
                speed == g.speed_x,
                ascent == g.ascent_speed,
                ppos == g.player.pos,
                pw == g.player.width,
                ph == g.player.height,
                forall|j: int| i <= j < bs0.len()
                    ==> #[trigger] self.boulders@[j] == bs0[j],
                forall|j: int| 0 <= j < i ==> {
                    let b0 = bs0[j];
                    let b1 = #[trigger] self.boulders@[j];
                    if boulder_recycled(b0, speed as int) {
                        &&& b1.pos.x == vw
                        &&& -crate::boulder::BOULDER_TOP_MARGIN <= b1.pos.y
                                < 3 * vh as int / 4
                        &&& vw as int / BARS_PER_VIEWPORT as int <= b1.width
                                < crate::boulder::BOULDER_MAX_BARS
                                    * (vw as int / BARS_PER_VIEWPORT as int)
                        &&& vw as int / BARS_PER_VIEWPORT as int <= b1.height
                                < crate::boulder::BOULDER_MAX_BARS
                                    * (vw as int / BARS_PER_VIEWPORT as int)
                    } else {
                        &&& b1.pos.x == b0.pos.x - speed
                        &&& b1.pos.y == b0.pos.y + ascent
                        &&& b1.width == b0.width
                        &&& b1.height == b0.height
                    }
                },
                self.mode == if (exists|j: int| 0 <= j < i
                        && boulder_hits(#[trigger] self.boulders@[j], ppos, pw as int,
                            ph as int)) {
                    Mode::GameOver
                } else {
                    Mode::Playing
                },
                self.collision_counter_on == (g.collision_counter_on
                    || exists|j: int| 0 <= j < i
                        && boulder_hits(#[trigger] self.boulders@[j], ppos, pw as int,
                            ph as int)),
                *self == (GameState {
                    mode: self.mode,
                    collision_counter_on: self.collision_counter_on,
                    boulders: self.boulders,
                    ..g
                }),
            decreases bs0.len() - i,
        {
            let ghost before = self.boulders@;
            let ghost hit_before = exists|j: int| 0 <= j < i
                && boulder_hits(#[trigger] before[j], ppos, pw as int, ph as int);
            let mut b = self.boulders[i];
            b.update(speed, ascent);
            if b.pos.x + b.width < 0 {
                b.reposition(vw, vh);
            }
            let hit_now = b.collides_with_player(ppos, pw, ph);
            if hit_now {
                self.collision_counter_on = true;
                self.mode = Mode::GameOver;
            }
            self.boulders.set(i, b);
            proof {
                assert(self.boulders@[i as int] == b);
                if hit_before {
                    let j = choose|j: int| 0 <= j < i
                        && boulder_hits(#[trigger] before[j], ppos, pw as int, ph as int);
                    assert(boulder_hits(self.boulders@[j], ppos, pw as int, ph as int));
                }
                if hit_now {
                    assert(boulder_hits(self.boulders@[i as int], ppos, pw as int,
                        ph as int));
                }
                assert forall|j: int| 0 <= j < i + 1
                        && boulder_hits(#[trigger] self.boulders@[j], ppos, pw as int,
                            ph as int)
                    implies hit_before || hit_now by {
                    if j < i {
                        assert(boulder_hits(before[j], ppos, pw as int, ph as int));
                    }
                }
            }
            i += 1;
        }
    }

    /// The per-frame pickup pass, run only in play: every pickup
    /// scrolls with the global pace, is scattered back past the right
    /// edge once fully off screen, and when an uncollected one
    /// overlaps the player it is marked collected, its value is added
    /// to the score, and the scroll speed gets the pickup boost.
    pub fn advance_pickups(&mut self)
        requires
            old(self).wf(),
        ensures
            old(self).mode != Mode::Playing ==> *final(self) == *old(self),
            old(self).mode == Mode::Playing ==> ({
                let g = *old(self);
                let n = g.pickups@.len() as int;
                let boost = g.viewport_width as int / PICKUP_BOOST_DIVISOR as int;
                &&& final(self).pickups@.len() == n
                &&& forall|i: int| 0 <= i < n ==> {
                        let p0 = g.pickups@[i];
                        let p1 = #[trigger] final(self).pickups@[i];
                        &&& if pickup_recycled(p0, g.speed_x as int) {
                                &&& g.viewport_width <= p1.pos.x
                                        < g.viewport_width + crate::pickup::PICKUP_SCATTER
                                &&& 0 <= p1.pos.y < g.viewport_height
                            } else {
                                &&& p1.pos.x == p0.pos.x - g.speed_x
                                &&& p1.pos.y == p0.pos.y + g.ascent_speed
                            }
                        &&& p1.width == p0.width
                        &&& p1.height == p0.height
                        &&& p1.pickup_type == p0.pickup_type
                        &&& p1.value == p0.value
                        &&& p1.collected == (pickup_precollected(p0, g.speed_x as int)
                                || pickup_hit(p0, p1, g.player.pos, g.player.width as int,
                                    g.player.height as int, g.speed_x as int))
                    }
                &&& final(self).score == g.score + pickup_score_gain(g.pickups@,
                        final(self).pickups@, g.player.pos, g.player.width as int,
                        g.player.height as int, g.speed_x as int, n)
                &&& final(self).speed_x == g.speed_x + boost * pickup_hit_count(g.pickups@,
                        final(self).pickups@, g.player.pos, g.player.width as int,
                        g.player.height as int, g.speed_x as int, n)
                &&& *final(self) == (GameState {
                        score: final(self).score,
                        speed_x: final(self).speed_x,
                        pickups: final(self).pickups,
                        ..g
                    })
            }),
    {
        match self.mode {
            Mode::Playing => {}
            _ => {
                return;
            }
        }
        let ghost g = *old(self);
        let ghost ps0 = self.pickups@;
        let vw = self.viewport_width;
        let vh = self.viewport_height;
        let speed = self.speed_x;
        let ascent = self.ascent_speed;
        let ppos = self.player.pos;
        let pw = self.player.width;
        let ph = self.player.height;
        let boost = vw / PICKUP_BOOST_DIVISOR;
        proof {
            lemma_div_pos_is_pos(vw as int, PICKUP_BOOST_DIVISOR as int);
            lemma_div_nonincreasing(vw as int, PICKUP_BOOST_DIVISOR as int);
        }
        let mut i: usize = 0;
        while i < self.pickups.len()
            invariant
                g.wf(),
                g.mode == Mode::Playing,
                0 <= i <= ps0.len(),
                self.pickups@.len() == ps0.len(),
                ps0 == g.pickups@,
                vw == g.viewport_width,
                vh == g.viewport_height,
                speed == g.speed_x,
                ascent == g.ascent_speed,
                ppos == g.player.pos,
                pw == g.player.width,
                ph == g.player.height,
                boost == g.viewport_width as int / PICKUP_BOOST_DIVISOR as int,
                0 <= boost <= COORD_LIMIT,
                forall|j: int| i <= j < ps0.len()
                    ==> #[trigger] self.pickups@[j] == ps0[j],
                forall|j: int| 0 <= j < i ==> {
                    let p0 = ps0[j];
                    let p1 = #[trigger] self.pickups@[j];
                    &&& if pickup_recycled(p0, speed as int) {
                            &&& vw <= p1.pos.x < vw + crate::pickup::PICKUP_SCATTER
                            &&& 0 <= p1.pos.y < vh
                        } else {
                            &&& p1.pos.x == p0.pos.x - speed
                            &&& p1.pos.y == p0.pos.y + ascent
                        }
                    &&& p1.width == p0.width
                    &&& p1.height == p0.height
                    &&& p1.pickup_type == p0.pickup_type
                    &&& p1.value == p0.value
                    &&& p1.collected == (pickup_precollected(p0, speed as int)
                            || pickup_hit(p0, p1, ppos, pw as int, ph as int, speed as int))
                },
                self.score == g.score + pickup_score_gain(ps0, self.pickups@, ppos,
                    pw as int, ph as int, speed as int, i as int),
                -(i as int) * (COORD_LIMIT as int)
                    <= pickup_score_gain(ps0, self.pickups@, ppos, pw as int, ph as int,
                        speed as int, i as int)
                    <= (i as int) * (COORD_LIMIT as int),
                self.speed_x == g.speed_x + boost * pickup_hit_count(ps0, self.pickups@,
                    ppos, pw as int, ph as int, speed as int, i as int),
                0 <= boost * pickup_hit_count(ps0, self.pickups@, ppos, pw as int, ph as int,
                    speed as int, i as int)
                    <= (i as int) * (COORD_LIMIT as int),
                *self == (GameState {
                    score: self.score,
                    speed_x: self.speed_x,
                    pickups: self.pickups,
                    ..g
                }),
            decreases ps0.len() - i,
        {
            let ghost news_before = self.pickups@;
            let ghost gain_before = pickup_score_gain(ps0, news_before, ppos, pw as int,
                ph as int, speed as int, i as int);
            let ghost count_before = pickup_hit_count(ps0, news_before, ppos, pw as int,
                ph as int, speed as int, i as int);
            let mut p = self.pickups[i];
            p.update(speed, ascent);
            if p.pos.x + p.width < 0 {
                p.reposition(vw, vh);
            }
            if p.collides_with_player(ppos, pw, ph) {
                p.collected = true;
                self.score = self.score + p.value;
                self.speed_x = self.speed_x + boost;
            }
            self.pickups.set(i, p);
            proof {
                lemma_pass_totals_prefix(ps0, news_before, self.pickups@, ppos, pw as int,
                    ph as int, speed as int, i as int);
                let gain_now = pickup_score_gain(ps0, self.pickups@, ppos, pw as int,
                    ph as int, speed as int, i + 1);
                let count_now = pickup_hit_count(ps0, self.pickups@, ppos, pw as int,
                    ph as int, speed as int, i + 1);
                assert(gain_now == gain_before
                    + if pickup_hit(ps0[i as int], self.pickups@[i as int], ppos, pw as int,
                        ph as int, speed as int) { ps0[i as int].value as int } else { 0 });
                assert(count_now == count_before
                    + if pickup_hit(ps0[i as int], self.pickups@[i as int], ppos, pw as int,
                        ph as int, speed as int) { 1int } else { 0int });
                assert(boost * count_now == boost * count_before
                    + if pickup_hit(ps0[i as int], self.pickups@[i as int], ppos, pw as int,
                        ph as int, speed as int) { boost as int } else { 0 })
                    by (nonlinear_arith)
                    requires
                        count_now == count_before
                            + if pickup_hit(ps0[i as int], self.pickups@[i as int], ppos,
                                pw as int, ph as int, speed as int) { 1int } else { 0int },
                ;
            }
            i += 1;
        }
        proof {
            lemma_pass_totals_prefix(ps0, self.pickups@, self.pickups@, ppos, pw as int,
                ph as int, speed as int, ps0.len() as int);
        }
    }

    /// A pointer press starts play from the title screen without
    /// resetting anything; elsewhere it does nothing.
    pub fn handle_pointer_press(&mut self)
        ensures
            old(self).mode == Mode::Title
                ==> *final(self) == (GameState { mode: Mode::Playing, ..*old(self) }),
            old(self).mode != Mode::Title ==> *final(self) == *old(self),
    {
        match self.mode {
            Mode::Title => {
                self.mode = Mode::Playing;
            }
            _ => {}
        }
    }
}

} // verus!

