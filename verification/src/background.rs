//! The parallax mountain backdrop: two depth layers scrolling at
//! fractions of the global speed, wrapping past the left edge with a
//! little random scatter.

use vstd::prelude::*;
use crate::geom::{Vec2Fx, div_trunc};
use crate::rng::random_between;
use crate::{in_coord_range, in_bound};

verus! {

/// Mountain kinds below this value form the far layer, the rest the
/// near layer.
pub const NEAR_KIND_MIN: i64 = 3;
/// Number of mountain kinds per layer.
pub const KINDS_PER_LAYER: i64 = 3;
/// Far mountains scroll at one twentieth of the global speed ...
pub const FAR_SPEED_DIVISOR: i64 = 20;
/// ... and drift at one hundredth of the ascent.
pub const FAR_ASCENT_DIVISOR: i64 = 100;
/// Near mountains scroll at one quarter of the global speed ...
pub const NEAR_SPEED_DIVISOR: i64 = 4;
/// ... and drift at one twentieth of the ascent.
pub const NEAR_ASCENT_DIVISOR: i64 = 20;
/// A mountain silhouette is drawn in slices of `height / 58`.
pub const SILHOUETTE_DIVISOR: i64 = 58;
/// A silhouette is at most this many slices wide.
pub const SILHOUETTE_MAX_SEGMENTS: i64 = 42;
/// Base horizontal spacing between mountains, in subunits (200 world
/// units), and the width of the random scatter added on top.
pub const MOUNTAIN_SPACING: i64 = 20_000;
/// Random scatter added when a mountain wraps to the right edge, in
/// subunits (50 world units).
pub const WRAP_SCATTER: i64 = 5_000;
/// Number of mountains in the backdrop: four far, three near.
pub const FAR_MOUNTAINS: usize = 4;
pub const MOUNTAIN_COUNT: usize = 7;

/// One backdrop silhouette. `kind` selects the shape and the layer:
/// kinds `0..3` are far, `3..6` near.
#[derive(Clone, Copy)]
pub struct Mountain {
    pub pos: Vec2Fx,
    pub kind: i64,
    pub segment_width: i64,
    pub increment: i64,
    pub max_width: i64,
}

/// How far a mountain scrolls left in one tick: far mountains at a
/// twentieth of the global speed, near ones at a quarter.
pub open spec fn mountain_dx(kind: int, speed: int) -> int {
    if kind < NEAR_KIND_MIN as int {
        div_trunc(speed, FAR_SPEED_DIVISOR as int)
    } else {
        div_trunc(speed, NEAR_SPEED_DIVISOR as int)
    }
}

/// How far a mountain drifts down in one tick.
pub open spec fn mountain_dy(kind: int, ascent: int) -> int {
    if kind < NEAR_KIND_MIN as int {
        div_trunc(ascent, FAR_ASCENT_DIVISOR as int)
    } else {
        div_trunc(ascent, NEAR_ASCENT_DIVISOR as int)
    }
}

impl Mountain {
    /// A silhouette anchored at `(x, y)`, its slice geometry derived
    /// from the viewport height.
    pub fn new(x: i64, y: i64, kind: i64, window_height: i64) -> (m: Mountain)
        requires
            0 <= window_height,
            in_coord_range(window_height as int),
        ensures
            m.pos.x == x,
            m.pos.y == y,
            m.kind == kind,
            m.segment_width == window_height as int / SILHOUETTE_DIVISOR as int,
            m.increment == 3 * window_height as int / SILHOUETTE_DIVISOR as int,
            m.max_width == SILHOUETTE_MAX_SEGMENTS * m.segment_width as int,
    {
        let segment_width = window_height / SILHOUETTE_DIVISOR;
        let increment = 3 * window_height / SILHOUETTE_DIVISOR;
        Mountain {
            pos: Vec2Fx::new(x, y),
            kind,
            segment_width,
            increment,
            max_width: SILHOUETTE_MAX_SEGMENTS * segment_width,
        }
    }

    /// One tick of the layer-scaled parallax scroll.
    pub fn update(&mut self, speed: i64, ascent: i64)
        requires
            in_coord_range(old(self).pos.x as int),
            in_coord_range(old(self).pos.y as int),
            in_coord_range(speed as int),
            in_coord_range(ascent as int),
        ensures
            final(self).pos.x == old(self).pos.x - mountain_dx(old(self).kind as int, speed as int),
            final(self).pos.y == old(self).pos.y + mountain_dy(old(self).kind as int, ascent as int),
            final(self).kind == old(self).kind,
            final(self).segment_width == old(self).segment_width,
            final(self).increment == old(self).increment,
            final(self).max_width == old(self).max_width,
    {
        if self.kind < NEAR_KIND_MIN {
            self.pos.x = self.pos.x - speed / FAR_SPEED_DIVISOR;
            self.pos.y = self.pos.y + ascent / FAR_ASCENT_DIVISOR;
        } else {
            self.pos.x = self.pos.x - speed / NEAR_SPEED_DIVISOR;
            self.pos.y = self.pos.y + ascent / NEAR_ASCENT_DIVISOR;
        }
    }
}

/// The backdrop: four far and three near mountains.
pub struct Background {
    pub mountains: Vec<Mountain>,
    pub window_width: i64,
    pub window_height: i64,
}

impl Background {
    /// Every mountain position and the wrap threshold lie within the
    /// simulation bounds.
    pub open spec fn coords_in_range(self) -> bool {
        &&& in_coord_range(self.window_width as int)
        &&& forall|i: int| 0 <= i < self.mountains@.len()
                ==> in_coord_range((#[trigger] self.mountains@[i]).pos.x as int)
                    && in_coord_range(self.mountains@[i].pos.y as int)
                    && in_coord_range(self.mountains@[i].max_width as int)
    }

    /// Whether every mountain position and the viewport lie within
    /// the simulation bounds.
    pub fn is_well_formed(&self) -> (b: bool)
        ensures
            b == self.coords_in_range(),
    {
        if !in_bound(self.window_width) {
            return false;
        }
        let mut i: usize = 0;
        while i < self.mountains.len()
            invariant
                0 <= i <= self.mountains@.len(),
                in_coord_range(self.window_width as int),
                forall|j: int| 0 <= j < i
                    ==> in_coord_range((#[trigger] self.mountains@[j]).pos.x as int)
                        && in_coord_range(self.mountains@[j].pos.y as int)
                        && in_coord_range(self.mountains@[j].max_width as int),
            decreases self.mountains@.len() - i,
        {
            let m = self.mountains[i];
            if !in_bound(m.pos.x) || !in_bound(m.pos.y) || !in_bound(m.max_width) {
                return false;
            }
            i += 1;
        }
        true
    }

    /// A fresh backdrop: four far mountains (kinds `0..3`) and three
    /// near ones (kinds `3..6`), scattered along the viewport.
    pub fn new(window_width: i64, window_height: i64) -> (bg: Background)
        requires
            in_coord_range(window_width as int),
            0 <= window_height,
            in_coord_range(window_height as int),
        ensures
            bg.window_width == window_width,
            bg.window_height == window_height,
            bg.mountains@.len() == MOUNTAIN_COUNT as int,
            forall|i: int| 0 <= i < MOUNTAIN_COUNT as int ==> {
                let m = #[trigger] bg.mountains@[i];
                &&& i * MOUNTAIN_SPACING <= m.pos.x < i * MOUNTAIN_SPACING + MOUNTAIN_SPACING
                &&& m.pos.y == window_height
                &&& if i < FAR_MOUNTAINS as int {
                        0 <= m.kind < KINDS_PER_LAYER
                    } else {
                        NEAR_KIND_MIN <= m.kind < NEAR_KIND_MIN + KINDS_PER_LAYER
                    }
                &&& m.segment_width == window_height as int / SILHOUETTE_DIVISOR as int
                &&& m.max_width == SILHOUETTE_MAX_SEGMENTS * m.segment_width as int
            },
            bg.coords_in_range(),
    {
        let mut mountains: Vec<Mountain> = Vec::new();
        let mut i: usize = 0;
        while i < MOUNTAIN_COUNT
            invariant
                0 <= i <= MOUNTAIN_COUNT,
                mountains@.len() == i,
                in_coord_range(window_width as int),
                0 <= window_height,
                in_coord_range(window_height as int),
                forall|j: int| 0 <= j < i ==> {
                    let m = #[trigger] mountains@[j];
                    &&& j * MOUNTAIN_SPACING <= m.pos.x < j * MOUNTAIN_SPACING + MOUNTAIN_SPACING
                    &&& m.pos.y == window_height
                    &&& if j < FAR_MOUNTAINS as int {
                            0 <= m.kind < KINDS_PER_LAYER
                        } else {
                            NEAR_KIND_MIN <= m.kind < NEAR_KIND_MIN + KINDS_PER_LAYER
                        }
                    &&& m.segment_width == window_height as int / SILHOUETTE_DIVISOR as int
                    &&& m.max_width == SILHOUETTE_MAX_SEGMENTS * m.segment_width as int
                    &&& in_coord_range(m.pos.x as int)
                    &&& in_coord_range(m.pos.y as int)
                    &&& in_coord_range(m.max_width as int)
                },
            decreases MOUNTAIN_COUNT - i,
        {
            let scatter = random_between(0, MOUNTAIN_SPACING);
            let x = (i as i64) * MOUNTAIN_SPACING + scatter;
            let kind = if i < FAR_MOUNTAINS {
                random_between(0, KINDS_PER_LAYER)
            } else {
                NEAR_KIND_MIN + random_between(0, KINDS_PER_LAYER)
            };
            proof {
                vstd::arithmetic::div_mod::lemma_div_pos_is_pos(
                    window_height as int, SILHOUETTE_DIVISOR as int);
                vstd::arithmetic::div_mod::lemma_div_nonincreasing(
                    window_height as int, SILHOUETTE_DIVISOR as int);
            }
            mountains.push(Mountain::new(x, window_height, kind, window_height));
            i += 1;
        }
        Background { mountains, window_width, window_height }
    }

    /// One tick of the whole backdrop: parallax-scroll every mountain,
    /// then wrap any that drifted a full silhouette past the left edge
    /// back to the right edge with a little scatter.
    pub fn update(&mut self, speed_x: i64, ascent_speed: i64)
        requires
            old(self).coords_in_range(),
            in_coord_range(speed_x as int),
            in_coord_range(ascent_speed as int),
        ensures
            final(self).window_width == old(self).window_width,
            final(self).window_height == old(self).window_height,
            final(self).mountains@.len() == old(self).mountains@.len(),
            forall|i: int| 0 <= i < old(self).mountains@.len() ==> {
                let m0 = old(self).mountains@[i];
                let m1 = #[trigger] final(self).mountains@[i];
                let mx = m0.pos.x - mountain_dx(m0.kind as int, speed_x as int);
                &&& if mx < -m0.max_width {
                        old(self).window_width <= m1.pos.x
                            < old(self).window_width + WRAP_SCATTER
                    } else {
                        m1.pos.x == mx
                    }
                &&& m1.pos.y == m0.pos.y + mountain_dy(m0.kind as int, ascent_speed as int)
                &&& m1.kind == m0.kind
                &&& m1.segment_width == m0.segment_width
                &&& m1.increment == m0.increment
                &&& m1.max_width == m0.max_width
            },
    {
        let ghost m0s = self.mountains@;
        let ghost ww = self.window_width as int;
        let mut i: usize = 0;
        while i < self.mountains.len()
            invariant
                0 <= i <= m0s.len(),
                self.mountains@.len() == m0s.len(),
                self.window_width as int == ww,
                self.window_height == old(self).window_height,
                in_coord_range(ww),
                in_coord_range(speed_x as int),
                in_coord_range(ascent_speed as int),
                forall|j: int| i <= j < m0s.len()
                    ==> #[trigger] self.mountains@[j] == m0s[j],
                forall|j: int| 0 <= j < m0s.len()
                    ==> in_coord_range((#[trigger] m0s[j]).pos.x as int)
                        && in_coord_range(m0s[j].pos.y as int)
                        && in_coord_range(m0s[j].max_width as int),
                forall|j: int| 0 <= j < i ==> {
                    let m0 = m0s[j];
                    let m1 = #[trigger] self.mountains@[j];
                    let mx = m0.pos.x - mountain_dx(m0.kind as int, speed_x as int);
                    &&& if mx < -m0.max_width {
                            ww <= m1.pos.x < ww + WRAP_SCATTER
                        } else {
                            m1.pos.x == mx
                        }
                    &&& m1.pos.y == m0.pos.y + mountain_dy(m0.kind as int, ascent_speed as int)
                    &&& m1.kind == m0.kind
                    &&& m1.segment_width == m0.segment_width
                    &&& m1.increment == m0.increment
                    &&& m1.max_width == m0.max_width
                },
            decreases m0s.len() - i,
        {
            let mut m = self.mountains[i];
            m.update(speed_x, ascent_speed);
            if m.pos.x < -m.max_width {
                let scatter = random_between(0, WRAP_SCATTER);
                m.pos.x = self.window_width + scatter;
            }
            self.mountains.set(i, m);
            i += 1;
        }
    }
}

} // verus!
