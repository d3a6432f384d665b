//! Scrolling collectibles: coins and gems with fixed sizes and score
//! values, an affine scroll, random reposition, and rectangle
//! collision against the player.

use vstd::prelude::*;
use crate::geom::{Vec2Fx, spec_rects_overlap, rects_overlap};
use crate::rng::random_between;
use crate::{in_coord_range, in_entity_range};

verus! {

/// Coin side length, in subunits (30 world units).
pub const COIN_SIZE: i64 = 3000;
/// Score value of a coin.
pub const COIN_VALUE: i64 = 25;
/// Gem side length, in subunits (40 world units).
pub const GEM_SIZE: i64 = 4000;
/// Score value of a gem.
pub const GEM_VALUE: i64 = 50;
/// Width of the random horizontal scatter applied when a pickup is
/// repositioned, in subunits (200 world units).
pub const PICKUP_SCATTER: i64 = 20_000;

#[derive(Clone, Copy, PartialEq, Eq, Structural, Debug)]
pub enum PickupType {
    Coin,
    Gem,
}

/// A collectible. Its rectangle spans `[pos.x, pos.x + width]` by
/// `[pos.y, pos.y + height]`; a collected pickup stays in place but
/// no longer collides until repositioned.
#[derive(Clone, Copy)]
pub struct Pickup {
    pub pos: Vec2Fx,
    pub width: i64,
    pub height: i64,
    pub pickup_type: PickupType,
    pub collected: bool,
    pub value: i64,
}

impl Pickup {
    /// A fresh, uncollected pickup at `(x, y)`, sized and valued by
    /// its kind.
    pub fn new(x: i64, y: i64, pickup_type: PickupType) -> (p: Pickup)
        ensures
            p.pos.x == x,
            p.pos.y == y,
            !p.collected,
            p.pickup_type == pickup_type,
            pickup_type == PickupType::Coin
                ==> p.width == COIN_SIZE && p.height == COIN_SIZE && p.value == COIN_VALUE,
            pickup_type == PickupType::Gem
                ==> p.width == GEM_SIZE && p.height == GEM_SIZE && p.value == GEM_VALUE,
    {
        let (width, height, value): (i64, i64, i64) = match pickup_type {
            PickupType::Coin => (COIN_SIZE, COIN_SIZE, COIN_VALUE),
            PickupType::Gem => (GEM_SIZE, GEM_SIZE, GEM_VALUE),
        };
        Pickup { pos: Vec2Fx::new(x, y), width, height, pickup_type, collected: false, value }
    }

    /// One tick of the affine scroll: left by `speed_x`, down by
    /// `ascent`.
    pub fn update(&mut self, speed_x: i64, ascent: i64)
        requires
            in_coord_range(old(self).pos.x as int),
            in_coord_range(old(self).pos.y as int),
            in_coord_range(speed_x as int),
            in_coord_range(ascent as int),
        ensures
            final(self).pos.x == old(self).pos.x - speed_x,
            final(self).pos.y == old(self).pos.y + ascent,
            final(self).width == old(self).width,
            final(self).height == old(self).height,
            final(self).pickup_type == old(self).pickup_type,
            final(self).collected == old(self).collected,
            final(self).value == old(self).value,
    {
        self.pos.x = self.pos.x - speed_x;
        self.pos.y = self.pos.y + ascent;
    }

    /// Scatter the pickup back past the right edge at a fresh random
    /// height, ready to be collected again.
    pub fn reposition(&mut self, window_width: i64, window_height: i64)
        requires
            in_coord_range(window_width as int),
            0 < window_height,
            in_coord_range(window_height as int),
        ensures
            window_width <= final(self).pos.x < window_width + PICKUP_SCATTER,
            0 <= final(self).pos.y < window_height,
            !final(self).collected,
            final(self).width == old(self).width,
            final(self).height == old(self).height,
            final(self).pickup_type == old(self).pickup_type,
            final(self).value == old(self).value,
    {
        let scatter = random_between(0, PICKUP_SCATTER);
        self.pos.x = window_width + scatter;
        self.pos.y = random_between(0, window_height);
        self.collected = false;
    }

    /// Whether this pickup's rectangle overlaps the player's; a
    /// collected pickup never collides. The player's rectangle spans
    /// `[x, x + width]` by `[y - height, y]`.
    pub fn collides_with_player(
        &self,
        player_pos: Vec2Fx,
        player_width: i64,
        player_height: i64,
    ) -> (r: bool)
        requires
            in_entity_range(self.pos.x as int),
            in_entity_range(self.pos.y as int),
            in_entity_range(self.width as int),
            in_entity_range(self.height as int),
            in_entity_range(player_pos.x as int),
            in_entity_range(player_pos.y as int),
            in_entity_range(player_width as int),
            in_entity_range(player_height as int),
        ensures
            r == (!self.collected && spec_rects_overlap(
                player_pos.x as int,
                player_pos.y - player_height,
                player_pos.x + player_width,
                player_pos.y as int,
                self.pos.x as int,
                self.pos.y as int,
                self.pos.x + self.width,
                self.pos.y + self.height,
            )),
    {
        if self.collected {
            return false;
        }

        rects_overlap(
            player_pos.x,
            player_pos.y - player_height,
            player_pos.x + player_width,
            player_pos.y,
            self.pos.x,
            self.pos.y,
            self.pos.x + self.width,
            self.pos.y + self.height,
        )
    }
}

} // verus!
