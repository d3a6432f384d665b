//! Scrolling boulder hazards: affine scroll, random reposition past
//! the left edge, and rectangle collision against the player.

use vstd::prelude::*;
use vstd::arithmetic::div_mod::{lemma_div_basics_3, lemma_div_is_ordered, lemma_div_pos_is_pos, lemma_div_nonincreasing};
use crate::geom::{Vec2Fx, spec_rects_overlap, rects_overlap};
use crate::rng::random_between;
use crate::terrain::BARS_PER_VIEWPORT;
use crate::{in_coord_range, in_entity_range};

verus! {

/// How far above the viewport top a repositioned boulder may start,
/// in subunits (10 world units).
pub const BOULDER_TOP_MARGIN: i64 = 1000;
/// Largest boulder dimension, in terrain-bar widths.
pub const BOULDER_MAX_BARS: i64 = 6;

/// An axis-aligned rock. Its rectangle spans `[pos.x, pos.x + width]`
/// by `[pos.y, pos.y + height]`.
#[derive(Clone, Copy)]
pub struct Boulder {
    pub pos: Vec2Fx,
    pub width: i64,
    pub height: i64,
}

impl Boulder {
    /// A boulder at `(x, y)` with random dimensions between one and
    /// six terrain-bar widths of the given viewport.
    pub fn new(x: i64, y: i64, window_width: i64) -> (b: Boulder)
        requires
            BARS_PER_VIEWPORT <= window_width,
            in_coord_range(window_width as int),
        ensures
            b.pos.x == x,
            b.pos.y == y,
            window_width as int / BARS_PER_VIEWPORT as int <= b.width
                < BOULDER_MAX_BARS * (window_width as int / BARS_PER_VIEWPORT as int),
            window_width as int / BARS_PER_VIEWPORT as int <= b.height
                < BOULDER_MAX_BARS * (window_width as int / BARS_PER_VIEWPORT as int),
    {
        let seg = window_width / BARS_PER_VIEWPORT;
        proof {
            lemma_div_basics_3(BARS_PER_VIEWPORT as int);
            lemma_div_is_ordered(BARS_PER_VIEWPORT as int, window_width as int,
                BARS_PER_VIEWPORT as int);
            lemma_div_nonincreasing(window_width as int, BARS_PER_VIEWPORT as int);
        }
        let width = random_between(seg, BOULDER_MAX_BARS * seg);
        let height = random_between(seg, BOULDER_MAX_BARS * seg);
        Boulder { pos: Vec2Fx::new(x, y), width, height }
    }

    /// One tick of the affine scroll: left by `speed_x`, down by
    /// `ascent`.
    pub fn update(&mut self, speed_x: i64, ascent: i64)
        requires
            in_coord_range(old(self).pos.x as int),
            in_coord_range(old(self).pos.y as int),
            in_coord_range(speed_x as int),
            in_coord_range(ascent as int),
        ensures
            final(self).pos.x == old(self).pos.x - speed_x,
            final(self).pos.y == old(self).pos.y + ascent,
            final(self).width == old(self).width,
            final(self).height == old(self).height,
    {
        self.pos.x = self.pos.x - speed_x;
        self.pos.y = self.pos.y + ascent;
    }

    /// Throw the boulder back past the right edge with fresh random
    /// height and dimensions.
    pub fn reposition(&mut self, window_width: i64, window_height: i64)
        requires
            BARS_PER_VIEWPORT <= window_width,
            in_coord_range(window_width as int),
            0 <= window_height,
            in_coord_range(window_height as int),
        ensures
            final(self).pos.x == window_width,
            -BOULDER_TOP_MARGIN <= final(self).pos.y
                < 3 * window_height as int / 4,
            window_width as int / BARS_PER_VIEWPORT as int <= final(self).width
                < BOULDER_MAX_BARS * (window_width as int / BARS_PER_VIEWPORT as int),
            window_width as int / BARS_PER_VIEWPORT as int <= final(self).height
                < BOULDER_MAX_BARS * (window_width as int / BARS_PER_VIEWPORT as int),
    {
        proof {
            lemma_div_pos_is_pos(3 * window_height as int, 4);
        }
        self.pos.x = window_width;
        self.pos.y = random_between(-BOULDER_TOP_MARGIN, 3 * window_height / 4);
        let seg = window_width / BARS_PER_VIEWPORT;
        proof {
            lemma_div_basics_3(BARS_PER_VIEWPORT as int);
            lemma_div_is_ordered(BARS_PER_VIEWPORT as int, window_width as int,
                BARS_PER_VIEWPORT as int);
            lemma_div_nonincreasing(window_width as int, BARS_PER_VIEWPORT as int);
        }
        self.width = random_between(seg, BOULDER_MAX_BARS * seg);
        self.height = random_between(seg, BOULDER_MAX_BARS * seg);
    }

    /// Whether this boulder's rectangle overlaps the player's. The
    /// player's rectangle spans `[x, x + width]` horizontally and
    /// `[y - height, y]` vertically (its position is the wheel-bottom
    /// line).
    pub fn collides_with_player(
        &self,
        player_pos: Vec2Fx,
        player_width: i64,
        player_height: i64,
    ) -> (r: bool)
        requires
            in_entity_range(self.pos.x as int),
            in_entity_range(self.pos.y as int),
            in_entity_range(self.width as int),
            in_entity_range(self.height as int),
            in_entity_range(player_pos.x as int),
            in_entity_range(player_pos.y as int),
            in_entity_range(player_width as int),
            in_entity_range(player_height as int),
        ensures
            r == spec_rects_overlap(
                player_pos.x as int,
                player_pos.y - player_height,
                player_pos.x + player_width,
                player_pos.y as int,
                self.pos.x as int,
                self.pos.y as int,
                self.pos.x + self.width,
                self.pos.y + self.height,
            ),
    {
        rects_overlap(
            player_pos.x,
            player_pos.y - player_height,
            player_pos.x + player_width,
            player_pos.y,
            self.pos.x,
            self.pos.y,
            self.pos.x + self.width,
            self.pos.y + self.height,
        )
    }
}

} // verus!
