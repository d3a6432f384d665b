//! The physics body that follows the terrain profile: gravity
//! integration, jump and horizontal control, and the slope-to-speed
//! feedback loop that paces the whole simulation.

use vstd::prelude::*;
use crate::geom::{Vec2Fx, div_trunc};
use crate::{in_coord_range, in_bound, COORD_LIMIT, DT_LIMIT_MS, MS_PER_SECOND};

verus! {

/// Player body width, in subunits (48 world units).
pub const PLAYER_WIDTH: i64 = 4800;
/// Player body height, in subunits (30 world units).
pub const PLAYER_HEIGHT: i64 = 3000;
/// Vertical impulse of a jump, in subunits per second (upward).
pub const JUMP_SPEED: i64 = -50_000;
/// Horizontal control speed, in subunits per second.
pub const MOVE_SPEED: i64 = 20_000;

/// Upper clamp of the global scroll speed: 20 world units per tick.
pub const SPEED_CAP: i64 = 2000;
/// Flat baseline added to the scroll speed on level or descending
/// terrain: 0.03 world units per tick.
pub const FLAT_SPEED_GAIN: i64 = 3;
/// One subunit of speed change per this many subunits of height
/// difference: the 0.01 slope feedback gain.
pub const SLOPE_GAIN_DIVISOR: i64 = 100;

/// The scroll speed after one application of the slope feedback rule,
/// before clamping. `prev` and `curr` are the two most recent terrain
/// height samples (lower value = higher terrain), `body_height` the
/// player's height.
///
/// - Terrain rising by more than the player's height slows the scroll
///   down by 0.01 per subunit of rise.
/// - Terrain level or descending speeds it up by a 0.03 baseline plus
///   0.01 per subunit of descent.
/// - A rise no taller than the player leaves the speed alone.
pub open spec fn slope_feedback(speed: int, prev: int, curr: int, body_height: int) -> int {
    if prev - curr > body_height {
        speed - crate::geom::div_trunc(prev - curr, SLOPE_GAIN_DIVISOR as int)
    } else if prev <= curr {
        speed + FLAT_SPEED_GAIN + (curr - prev) / (SLOPE_GAIN_DIVISOR as int)
    } else {
        speed
    }
}

/// The vertical speed after one tick: gravity pulls only while
/// airborne.
pub open spec fn integrated_vy(p: Player, gravity: int) -> int {
    if p.on_ground {
        p.velocity.y as int
    } else {
        p.velocity.y + gravity
    }
}

/// The horizontal position after one tick of velocity integration.
pub open spec fn integrated_x(p: Player, dt_ms: int) -> int {
    p.pos.x + div_trunc(p.velocity.x * dt_ms, MS_PER_SECOND as int)
}

/// The vertical position after one tick: integrated with the
/// post-gravity vertical speed.
pub open spec fn integrated_y(p: Player, gravity: int, dt_ms: int) -> int {
    p.pos.y + div_trunc(integrated_vy(p, gravity) * dt_ms, MS_PER_SECOND as int)
}

/// The scroll speed clamped into `[0, SPEED_CAP]`.
pub open spec fn clamp_speed(speed: int) -> int {
    if speed < 0 {
        0
    } else if speed > SPEED_CAP as int {
        SPEED_CAP as int
    } else {
        speed
    }
}

/// The physics body. `pos.y` is the wheel-bottom line; `y` grows
/// downward, so a smaller terrain height sample means higher ground.
pub struct Player {
    pub pos: Vec2Fx,
    pub width: i64,
    pub height: i64,
    pub velocity: Vec2Fx,
    pub on_ground: bool,
    pub jump_speed: i64,
    pub move_speed: i64,
    /// Vertical position before the latest integration step; read only
    /// by the cosmetic pitch smoothing.
    pub last_y: i64,
    /// Most recent terrain height sample, fed by the terrain's
    /// look-ahead gate.
    pub bar_height: i64,
    /// Previous terrain height sample, fed by the look-behind gate.
    pub prev_bar_height: i64,
    /// Rolling history of recent vertical positions; read only by the
    /// cosmetic pitch smoothing.
    pub terrain_positions: [i64; 4],
    pub speed_y: i64,
}

impl Player {
    /// All numeric state lies within the bound that keeps every product
    /// and sum of one tick inside an `i64`.
    pub open spec fn wf(self) -> bool {
        &&& in_coord_range(self.pos.x as int)
        &&& in_coord_range(self.pos.y as int)
        &&& in_coord_range(self.velocity.x as int)
        &&& in_coord_range(self.velocity.y as int)
        &&& in_coord_range(self.width as int)
        &&& in_coord_range(self.height as int)
        &&& in_coord_range(self.jump_speed as int)
        &&& in_coord_range(self.move_speed as int)
        &&& in_coord_range(self.last_y as int)
        &&& in_coord_range(self.bar_height as int)
        &&& in_coord_range(self.prev_bar_height as int)
        &&& in_coord_range(self.terrain_positions@[0] as int)
        &&& in_coord_range(self.terrain_positions@[1] as int)
        &&& in_coord_range(self.terrain_positions@[2] as int)
        &&& in_coord_range(self.terrain_positions@[3] as int)
        &&& in_coord_range(self.speed_y as int)
    }

    /// Whether this player state lies within the simulation bounds.
    pub fn is_well_formed(&self) -> (b: bool)
        ensures
            b == self.wf(),
    {
        in_bound(self.pos.x) && in_bound(self.pos.y)
            && in_bound(self.velocity.x) && in_bound(self.velocity.y)
            && in_bound(self.width) && in_bound(self.height)
            && in_bound(self.jump_speed) && in_bound(self.move_speed)
            && in_bound(self.last_y) && in_bound(self.bar_height)
            && in_bound(self.prev_bar_height)
            && in_bound(self.terrain_positions[0])
            && in_bound(self.terrain_positions[1])
            && in_bound(self.terrain_positions[2])
            && in_bound(self.terrain_positions[3])
            && in_bound(self.speed_y)
    }

    /// What a freshly created player at `(x, y)` looks like: default
    /// dimensions and impulses, zero velocity, airborne, and the
    /// height samples and history seeded from `y`.
    pub open spec fn fresh_at(self, x: int, y: int) -> bool {
        &&& self.pos.x == x
        &&& self.pos.y == y
        &&& self.width == PLAYER_WIDTH
        &&& self.height == PLAYER_HEIGHT
        &&& self.velocity.x == 0
        &&& self.velocity.y == 0
        &&& !self.on_ground
        &&& self.jump_speed == JUMP_SPEED
        &&& self.move_speed == MOVE_SPEED
        &&& self.last_y == y
        &&& self.bar_height == y
        &&& self.prev_bar_height == y
        &&& self.terrain_positions@ =~= seq![self.pos.y, self.pos.y, self.pos.y, self.pos.y]
        &&& self.speed_y == 100
    }

    /// A fresh, airborne player at `(x, y)`, with its height samples and
    /// history seeded from `y`.
    pub fn new(x: i64, y: i64) -> (p: Player)
        ensures
            p.fresh_at(x as int, y as int),
            in_coord_range(x as int) && in_coord_range(y as int) ==> p.wf(),
    {
        let p = Player {
            pos: Vec2Fx::new(x, y),
            width: PLAYER_WIDTH,
            height: PLAYER_HEIGHT,
            velocity: Vec2Fx::zero(),
            on_ground: false,
            jump_speed: JUMP_SPEED,
            move_speed: MOVE_SPEED,
            last_y: y,
            bar_height: y,
            prev_bar_height: y,
            terrain_positions: [y, y, y, y],
            speed_y: 100,
        };
        proof {
            assert(p.terrain_positions@ =~= seq![y, y, y, y]);
        }
        p
    }

    /// One physics tick: record the history sample, integrate gravity
    /// when airborne, advance the position by `velocity * dt`, then run
    /// the slope feedback on the shared scroll speed and clamp it into
    /// `[0, SPEED_CAP]` whatever branch was taken.
    pub fn update(&mut self, dt_ms: i64, gravity: i64, speed_x: &mut i64)
        requires
            in_coord_range(old(self).pos.x as int),
            in_coord_range(old(self).pos.y as int),
            in_coord_range(old(self).velocity.x as int),
            in_coord_range(old(self).velocity.y as int),
            in_coord_range(old(self).height as int),
            -2 * COORD_LIMIT as int <= old(self).bar_height <= 2 * COORD_LIMIT as int,
            -2 * COORD_LIMIT as int <= old(self).prev_bar_height <= 2 * COORD_LIMIT as int,
            in_coord_range(gravity as int),
            in_coord_range(*old(speed_x) as int),
            0 <= dt_ms <= DT_LIMIT_MS,
        ensures
            final(self).last_y == old(self).pos.y,
            final(self).terrain_positions@ == seq![
                old(self).pos.y,
                old(self).terrain_positions@[0],
                old(self).terrain_positions@[1],
                old(self).terrain_positions@[2],
            ],
            final(self).velocity.y == integrated_vy(*old(self), gravity as int),
            final(self).velocity.x == old(self).velocity.x,
            final(self).pos.x == integrated_x(*old(self), dt_ms as int),
            final(self).pos.y == integrated_y(*old(self), gravity as int, dt_ms as int),
            *final(speed_x) == clamp_speed(slope_feedback(
                *old(speed_x) as int,
                old(self).prev_bar_height as int,
                old(self).bar_height as int,
                old(self).height as int,
            )),
            0 <= *final(speed_x) <= SPEED_CAP,
            final(self).on_ground == old(self).on_ground,
            final(self).width == old(self).width,
            final(self).height == old(self).height,
            final(self).jump_speed == old(self).jump_speed,
            final(self).move_speed == old(self).move_speed,
            final(self).bar_height == old(self).bar_height,
            final(self).prev_bar_height == old(self).prev_bar_height,
            final(self).speed_y == old(self).speed_y,
    {
        self.last_y = self.pos.y;

        self.terrain_positions = [
            self.pos.y,
            self.terrain_positions[0],
            self.terrain_positions[1],
            self.terrain_positions[2],
        ];

        if !self.on_ground {
            self.velocity.y = self.velocity.y + gravity;
        }

        proof {
            lemma_product_in_i64(self.velocity.x as int, dt_ms as int);
            lemma_product_in_i64(self.velocity.y as int, dt_ms as int);
        }
        self.pos.x = self.pos.x + (self.velocity.x * dt_ms) / MS_PER_SECOND;
        self.pos.y = self.pos.y + (self.velocity.y * dt_ms) / MS_PER_SECOND;

        if self.prev_bar_height - self.bar_height > self.height {
            *speed_x = *speed_x - (self.prev_bar_height - self.bar_height) / SLOPE_GAIN_DIVISOR;
        } else if self.prev_bar_height <= self.bar_height {
            *speed_x = *speed_x
                + FLAT_SPEED_GAIN
                + (self.bar_height - self.prev_bar_height) / SLOPE_GAIN_DIVISOR;
        }

        if *speed_x < 0 {
            *speed_x = 0;
        }
        if *speed_x > SPEED_CAP {
            *speed_x = SPEED_CAP;
        }
    }

    /// Overwrite the look-ahead terrain height sample.
    pub fn set_bar_height(&mut self, height: i64)
        ensures
            *final(self) == (Player { bar_height: height, ..*old(self) }),
    {
        self.bar_height = height;
    }

    /// Overwrite the look-behind terrain height sample.
    pub fn set_prev_bar_height(&mut self, height: i64)
        ensures
            *final(self) == (Player { prev_bar_height: height, ..*old(self) }),
    {
        self.prev_bar_height = height;
    }

    /// A jump is honoured only on the ground: it sets the upward
    /// impulse and clears the ground contact.
    pub fn jump(&mut self)
        ensures
            old(self).on_ground ==> *final(self) == (Player {
                velocity: Vec2Fx { x: old(self).velocity.x, y: old(self).jump_speed },
                on_ground: false,
                ..*old(self)
            }),
            !old(self).on_ground ==> *final(self) == *old(self),
    {
        if self.on_ground {
            self.velocity.y = self.jump_speed;
            self.on_ground = false;
        }
    }

    pub fn move_left(&mut self)
        requires
            in_coord_range(old(self).move_speed as int),
        ensures
            final(self).velocity.x == -old(self).move_speed,
            final(self).velocity.y == old(self).velocity.y,
            *final(self) == (Player { velocity: final(self).velocity, ..*old(self) }),
    {
        self.velocity.x = -self.move_speed;
    }

    pub fn move_right(&mut self)
        ensures
            *final(self) == (Player {
                velocity: Vec2Fx { x: old(self).move_speed, y: old(self).velocity.y },
                ..*old(self)
            }),
    {
        self.velocity.x = self.move_speed;
    }

    pub fn stop_horizontal(&mut self)
        ensures
            *final(self) == (Player {
                velocity: Vec2Fx { x: 0, y: old(self).velocity.y },
                ..*old(self)
            }),
    {
        self.velocity.x = 0;
    }

    /// The two three-sample averages of the position history that drive
    /// the cosmetic pitch smoothing; the angle itself is left to the
    /// presentation layer.
    pub fn smoothed_heights(&self) -> (r: (i64, i64))
        requires
            self.wf(),
        ensures
            r.0 == div_trunc(
                self.terrain_positions@[0] + self.terrain_positions@[1]
                    + self.terrain_positions@[2],
                3,
            ),
            r.1 == div_trunc(
                self.terrain_positions@[1] + self.terrain_positions@[2]
                    + self.terrain_positions@[3],
                3,
            ),
    {
        let a = (self.terrain_positions[0] + self.terrain_positions[1]
            + self.terrain_positions[2]) / 3;
        let b = (self.terrain_positions[1] + self.terrain_positions[2]
            + self.terrain_positions[3]) / 3;
        (a, b)
    }
}

/// A product of one bounded coordinate and one frame delta fits in an
/// `i64` with room to spare.
pub(crate) proof fn lemma_product_in_i64(v: int, dt: int)
    requires
        -2 * COORD_LIMIT <= v <= 2 * COORD_LIMIT,
        0 <= dt <= DT_LIMIT_MS,
    ensures
        -2_000_000_000_000_000_000 <= v * dt <= 2_000_000_000_000_000_000,
{
    assert(-2_000_000_000_000_000_000 <= v * dt <= 2_000_000_000_000_000_000)
        by (nonlinear_arith)
        requires
            -2_000_000_000_000 <= v <= 2_000_000_000_000,
            0 <= dt <= 1_000_000,
    ;
}

} // verus!
