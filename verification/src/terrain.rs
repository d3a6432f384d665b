//! The scrolling terrain: a fixed ring of vertical bars spanning a bit
//! more than one viewport, deformed each tick toward the pointer,
//! wrapped in place at the left edge, and sampled through two fixed
//! gates that feed the player's slope feedback.

use vstd::prelude::*;
use vstd::arithmetic::div_mod::{lemma_div_nonincreasing, lemma_div_pos_is_pos};
use crate::geom::Vec2Fx;
use crate::player::Player;
use crate::{in_coord_range, COORD_LIMIT};

verus! {

/// Number of bars in the ring: two more than fit one viewport, so the
/// right edge is always covered while bars wrap on the left.
pub const BAR_COUNT: usize = 22;
/// How many bars span one viewport width.
pub const BARS_PER_VIEWPORT: i64 = 20;
/// A bar wraps once it is this many bar widths past the left edge.
pub const WRAP_MARGIN_BARS: i64 = 2;
/// The look-ahead sample gate sits at `viewport_width / 6`; the
/// look-behind gate one bar width to its left.
pub const GATE_ZONE_DIVISOR: i64 = 6;

/// Whether `x` lies strictly inside the half-width window around
/// `center` for a bar `width` wide.
pub open spec fn in_window(x: int, center: int, width: int) -> bool {
    center - width / 2 < x && x < center + width / 2
}

/// One vertical terrain slice. `pos.x` is the bar's centre, `pos.y`
/// the current terrain height at that x (y grows downward). `width`
/// never changes over a bar's lifetime.
#[derive(Clone, Copy, PartialEq, Eq, Structural, Debug)]
pub struct Bar {
    pub pos: Vec2Fx,
    pub width: i64,
    pub height: i64,
    /// The horizontal scroll applied on the latest tick.
    pub speed: i64,
    /// The vertical drift applied on the latest tick.
    pub ascent: i64,
}

/// Where a bar's centre stands after the scroll of one tick.
pub open spec fn moved_x(b: Bar, speed: int) -> int {
    b.pos.x - speed
}

/// The bar's height after one tick: the pointer's height exactly when
/// the pointer's x falls in the bar's half-width window (a hard snap,
/// no interpolation), the drifted old height otherwise.
pub open spec fn moved_y(b: Bar, mouse: Vec2Fx, speed: int, ascent: int) -> int {
    if in_window(moved_x(b, speed), mouse.x as int, b.width as int) {
        mouse.y as int
    } else {
        b.pos.y + ascent
    }
}

/// Whether a bar at post-scroll position `mx` has crossed the wrap
/// threshold, two bar widths past the left edge.
pub open spec fn wrap_due(mx: int, bar_width: int) -> bool {
    mx < -WRAP_MARGIN_BARS * bar_width
}

/// A bar's x after one full tick of the terrain: scrolled, then
/// repositioned to the right edge if it crossed the wrap threshold.
pub open spec fn stepped_x(b: Bar, speed: int, bar_width: int, viewport_width: int) -> int {
    if wrap_due(moved_x(b, speed), bar_width) {
        viewport_width
    } else {
        moved_x(b, speed)
    }
}

/// A bar's height after one full tick: re-seeded from the live pointer
/// height when the bar wrapped, the deformed height otherwise.
pub open spec fn stepped_y(b: Bar, mouse: Vec2Fx, speed: int, ascent: int, bar_width: int) -> int {
    if wrap_due(moved_x(b, speed), bar_width) {
        mouse.y as int
    } else {
        moved_y(b, mouse, speed, ascent)
    }
}

/// The height sample a gate window `(lo, hi)` holds after one tick:
/// the post-scroll height of the last bar (in storage order) whose
/// post-scroll x falls strictly inside the window, or `dflt` when no
/// bar does — a gate left empty keeps its previous sample.
pub open spec fn gate_sample(
    bars: Seq<Bar>, mouse: Vec2Fx, speed: int, ascent: int, lo: int, hi: int, dflt: int,
) -> int
    decreases bars.len(),
{
    if bars.len() == 0 {
        dflt
    } else {
        let b = bars.last();
        if lo < moved_x(b, speed) && moved_x(b, speed) < hi {
            moved_y(b, mouse, speed, ascent)
        } else {
            gate_sample(bars.drop_last(), mouse, speed, ascent, lo, hi, dflt)
        }
    }
}

/// The height of the first bar (in storage order) whose half-width
/// window strictly contains `x`; earliest-created bar wins on overlap.
pub open spec fn spec_height_at(bars: Seq<Bar>, x: int) -> Option<i64>
    decreases bars.len(),
{
    if bars.len() == 0 {
        None
    } else if in_window(x, bars.first().pos.x as int, bars.first().width as int) {
        Some(bars.first().pos.y)
    } else {
        spec_height_at(bars.drop_first(), x)
    }
}

/// The x a bar is moved to by `realign`: bars at or ahead of the
/// anchor go to `base + i*w`, bars behind it to `base - (n - i)*w`.
pub open spec fn realigned_x(x: int, base: int, i: int, n: int, w: int) -> int {
    if x >= base {
        base + i * w
    } else {
        base - (n - i) * w
    }
}

impl Bar {
    pub fn new(x: i64, y: i64, speed: i64, width: i64) -> (b: Bar)
        ensures
            b.pos.x == x,
            b.pos.y == y,
            b.width == width,
            b.height == 0,
            b.speed == speed,
            b.ascent == 0,
    {
        Bar { pos: Vec2Fx::new(x, y), width, height: 0, speed, ascent: 0 }
    }

    /// One tick of this bar: scroll left by `speed_x`, drift by
    /// `ascent`, snap the height to the pointer when the pointer's x
    /// falls in the half-width window, and feed the post-scroll height
    /// into the player's gate samples when the bar stands in a gate.
    pub fn update(
        &mut self,
        mouse_pos: Vec2Fx,
        speed_x: i64,
        ascent: i64,
        player: &mut Player,
        gate_zone: i64,
        gate_width: i64,
    )
        requires
            in_coord_range(old(self).pos.x as int),
            in_coord_range(old(self).pos.y as int),
            in_coord_range(old(self).width as int),
            0 <= old(self).width,
            in_coord_range(speed_x as int),
            in_coord_range(ascent as int),
            in_coord_range(mouse_pos.x as int),
            in_coord_range(mouse_pos.y as int),
            in_coord_range(gate_zone as int),
            in_coord_range(gate_width as int),
        ensures
            final(self).pos.x == moved_x(*old(self), speed_x as int),
            final(self).pos.y == moved_y(*old(self), mouse_pos, speed_x as int, ascent as int),
            // the pointer deforms exactly the bar whose window holds it
            in_window(final(self).pos.x as int, mouse_pos.x as int, old(self).width as int)
                ==> final(self).pos.y == mouse_pos.y,
            final(self).width == old(self).width,
            final(self).height == old(self).height,
            final(self).speed == speed_x,
            final(self).ascent == ascent,
            final(player).prev_bar_height == if gate_zone - gate_width < final(self).pos.x
                && final(self).pos.x < gate_zone {
                final(self).pos.y as int
            } else {
                old(player).prev_bar_height as int
            },
            final(player).bar_height == if gate_zone < final(self).pos.x
                && final(self).pos.x < gate_zone + gate_width {
                final(self).pos.y as int
            } else {
                old(player).bar_height as int
            },
            *final(player) == (Player {
                bar_height: final(player).bar_height,
                prev_bar_height: final(player).prev_bar_height,
                ..*old(player)
            }),
    {
        self.speed = speed_x;
        self.ascent = ascent;
        self.pos.x = self.pos.x - self.speed;
        self.pos.y = self.pos.y + self.ascent;

        let half_width = self.width / 2;
        if self.pos.x > mouse_pos.x - half_width && self.pos.x < mouse_pos.x + half_width {
            self.pos.y = mouse_pos.y;
        }

        if self.pos.x < gate_zone && self.pos.x > gate_zone - gate_width {
            player.set_prev_bar_height(self.pos.y);
        }
        if self.pos.x > gate_zone && self.pos.x < gate_zone + gate_width {
            player.set_bar_height(self.pos.y);
        }
    }
}

/// The ring of bars. Storage order is creation order and never
/// changes; only the bars' positions move.
pub struct Terrain {
    pub bars: Vec<Bar>,
    pub bar_width: i64,
    pub viewport_width: i64,
}

impl Terrain {
    /// Structural invariant: a full ring of uniform-width bars sized
    /// from the viewport, with the viewport small enough that every
    /// ring position, wrap threshold and gate stays in coordinate
    /// range.
    pub open spec fn wf(self) -> bool {
        &&& self.bars@.len() == BAR_COUNT as int
        &&& 0 < self.viewport_width
        &&& 2 * self.viewport_width <= COORD_LIMIT
        &&& self.bar_width as int == self.viewport_width as int / BARS_PER_VIEWPORT as int
        &&& 0 <= self.bar_width
        &&& in_coord_range(self.bar_width as int)
        &&& forall|i: int| 0 <= i < self.bars@.len()
                ==> (#[trigger] self.bars@[i]).width == self.bar_width
    }

    /// Every bar position lies within the simulation bounds.
    pub open spec fn coords_in_range(self) -> bool {
        forall|i: int| 0 <= i < self.bars@.len()
            ==> in_coord_range((#[trigger] self.bars@[i]).pos.x as int)
                && in_coord_range(self.bars@[i].pos.y as int)
    }

    /// Every bar position lies within `bound` in magnitude. One tick
    /// moves an in-range ring at most one more bound outward.
    pub open spec fn coords_within(self, bound: int) -> bool {
        forall|i: int| 0 <= i < self.bars@.len()
            ==> -bound <= (#[trigger] self.bars@[i]).pos.x <= bound
                && -bound <= self.bars@[i].pos.y <= bound
    }

    /// Whether this terrain satisfies its invariant and all its bar
    /// positions lie within the simulation bounds.
    pub fn is_well_formed(&self) -> (b: bool)
        ensures
            b == (self.wf() && self.coords_in_range()),
    {
        if self.bars.len() != BAR_COUNT {
            return false;
        }
        if !(0 < self.viewport_width && self.viewport_width <= COORD_LIMIT / 2) {
            return false;
        }
        if self.bar_width != self.viewport_width / BARS_PER_VIEWPORT {
            return false;
        }
        let mut i: usize = 0;
        while i < self.bars.len()
            invariant
                0 <= i <= self.bars@.len(),
                forall|j: int| 0 <= j < i
                    ==> (#[trigger] self.bars@[j]).width == self.bar_width
                        && in_coord_range(self.bars@[j].pos.x as int)
                        && in_coord_range(self.bars@[j].pos.y as int),
                0 < self.viewport_width,
                0 <= self.bar_width,
            decreases self.bars@.len() - i,
        {
            let b = self.bars[i];
            if b.width != self.bar_width
                || !crate::in_bound(b.pos.x)
                || !crate::in_bound(b.pos.y) {
                return false;
            }
            i += 1;
        }
        true
    }

    /// What a freshly built ring looks like: `BAR_COUNT` bars of
    /// width `viewport_width / 20`, evenly spaced from the left edge,
    /// all at the uniform initial height.
    pub open spec fn fresh_grid(self, viewport_width: int, initial_height: int, speed: int) -> bool {
        &&& self.wf()
        &&& self.coords_in_range()
        &&& self.viewport_width == viewport_width
        &&& self.bar_width as int == viewport_width / BARS_PER_VIEWPORT as int
        &&& forall|i: int| 0 <= i < self.bars@.len()
                ==> (#[trigger] self.bars@[i]).pos.x == i * self.bar_width as int
                    && self.bars@[i].pos.y == initial_height
                    && self.bars@[i].speed == speed
                    && self.bars@[i].ascent == 0
                    && self.bars@[i].height == 0
    }

    /// The fixed ring: `BAR_COUNT` bars of width `viewport_width / 20`,
    /// evenly spaced from the left edge, all at the uniform initial
    /// height.
    pub fn new(viewport_width: i64, initial_height: i64, speed: i64) -> (t: Terrain)
        requires
            0 < viewport_width,
            2 * viewport_width <= COORD_LIMIT,
            in_coord_range(initial_height as int),
        ensures
            t.fresh_grid(viewport_width as int, initial_height as int, speed as int),
    {
        let bar_width = viewport_width / BARS_PER_VIEWPORT;
        proof {
            lemma_div_pos_is_pos(viewport_width as int, BARS_PER_VIEWPORT as int);
            lemma_div_nonincreasing(viewport_width as int, BARS_PER_VIEWPORT as int);
            vstd::arithmetic::div_mod::lemma_fundamental_div_mod(
                viewport_width as int, BARS_PER_VIEWPORT as int);
            vstd::arithmetic::div_mod::lemma_mod_bound(
                viewport_width as int, BARS_PER_VIEWPORT as int);
            assert(BARS_PER_VIEWPORT * bar_width as int <= viewport_width as int);
        }
        let mut bars: Vec<Bar> = Vec::new();
        let mut i: usize = 0;
        while i < BAR_COUNT
            invariant
                0 <= i <= BAR_COUNT,
                bars@.len() == i,
                0 <= bar_width,
                bar_width <= viewport_width,
                BARS_PER_VIEWPORT * bar_width as int <= viewport_width as int,
                0 < viewport_width,
                2 * viewport_width <= COORD_LIMIT,
                in_coord_range(initial_height as int),
                forall|j: int| 0 <= j < i
                    ==> (#[trigger] bars@[j]).pos.x == j * bar_width as int
                        && bars@[j].pos.y == initial_height
                        && bars@[j].width == bar_width
                        && bars@[j].speed == speed
                        && bars@[j].ascent == 0
                        && bars@[j].height == 0
                        && in_coord_range(bars@[j].pos.x as int),
            decreases BAR_COUNT - i,
        {
            proof {
                assert(0 <= i as int * bar_width as int <= 21 * bar_width as int)
                    by (nonlinear_arith)
                    requires 0 <= i as int <= 21, 0 <= bar_width as int;
            }
            let x = (i as i64) * bar_width;
            bars.push(Bar::new(x, initial_height, speed, bar_width));
            i += 1;
        }
        Terrain { bars, bar_width, viewport_width }
    }

    /// One tick of the whole ring, in storage order: every bar is
    /// scrolled, deformed toward the pointer and held against the two
    /// gate windows, then wrapped in place to the right edge, at the
    /// live pointer height, once past the wrap threshold. No bar
    /// reads another; the player takes the two gate samples.
    pub fn update(
        &mut self,
        mouse_pos: Vec2Fx,
        speed_x: i64,
        ascent: i64,
        player: &mut Player,
    )
        requires
            old(self).wf(),
            old(self).coords_in_range(),
            in_coord_range(speed_x as int),
            in_coord_range(ascent as int),
            in_coord_range(mouse_pos.x as int),
            in_coord_range(mouse_pos.y as int),
        ensures
            final(self).wf(),
            final(self).bar_width == old(self).bar_width,
            final(self).viewport_width == old(self).viewport_width,
            final(self).bars@.len() == old(self).bars@.len(),
            final(self).coords_within(2 * COORD_LIMIT as int),
            forall|i: int| 0 <= i < old(self).bars@.len() ==> {
                let b0 = old(self).bars@[i];
                let b1 = #[trigger] final(self).bars@[i];
                &&& b1.pos.x == stepped_x(b0, speed_x as int, old(self).bar_width as int,
                        old(self).viewport_width as int)
                &&& b1.pos.y == stepped_y(b0, mouse_pos, speed_x as int, ascent as int,
                        old(self).bar_width as int)
                &&& b1.width == b0.width
                &&& b1.height == b0.height
                &&& b1.speed == speed_x
                &&& b1.ascent == ascent
            },
            // wrap invariant: a bar already past the wrap threshold
            // before the tick stands at the right edge after it
            forall|i: int| 0 <= i < old(self).bars@.len() && speed_x >= 0
                && (#[trigger] old(self).bars@[i]).pos.x
                    < -WRAP_MARGIN_BARS * old(self).bar_width
                ==> final(self).bars@[i].pos.x >= old(self).viewport_width,
            final(player).prev_bar_height == gate_sample(
                old(self).bars@, mouse_pos, speed_x as int, ascent as int,
                old(self).gate_zone() - old(self).bar_width,
                old(self).gate_zone(),
                old(player).prev_bar_height as int,
            ),
            final(player).bar_height == gate_sample(
                old(self).bars@, mouse_pos, speed_x as int, ascent as int,
                old(self).gate_zone(),
                old(self).gate_zone() + old(self).bar_width,
                old(player).bar_height as int,
            ),
            *final(player) == (Player {
                bar_height: final(player).bar_height,
                prev_bar_height: final(player).prev_bar_height,
                ..*old(player)
            }),
    {
        let ghost bars0 = self.bars@;
        let ghost p0 = *player;
        let ghost bw = self.bar_width as int;
        let ghost vw = self.viewport_width as int;
        proof {
            lemma_div_pos_is_pos(vw, GATE_ZONE_DIVISOR as int);
            lemma_div_nonincreasing(vw, GATE_ZONE_DIVISOR as int);
        }
        let zone = self.viewport_width / GATE_ZONE_DIVISOR;

        let mut i: usize = 0;
        while i < self.bars.len()
            invariant
                self.wf(),
                self.bar_width as int == bw,
                self.viewport_width as int == vw,
                self.bars@.len() == bars0.len(),
                bars0.len() == BAR_COUNT as int,
                0 <= i <= bars0.len(),
                zone == vw / GATE_ZONE_DIVISOR as int,
                0 <= zone <= vw,
                0 <= bw,
                in_coord_range(bw),
                2 * vw <= COORD_LIMIT,
                0 < vw,
                in_coord_range(speed_x as int),
                in_coord_range(ascent as int),
                in_coord_range(mouse_pos.x as int),
                in_coord_range(mouse_pos.y as int),
                forall|j: int| i <= j < bars0.len()
                    ==> #[trigger] self.bars@[j] == bars0[j],
                forall|j: int| 0 <= j < bars0.len()
                    ==> in_coord_range((#[trigger] bars0[j]).pos.x as int)
                        && in_coord_range(bars0[j].pos.y as int)
                        && bars0[j].width == bw,
                forall|j: int| 0 <= j < i ==> {
                    let b0 = bars0[j];
                    let b1 = #[trigger] self.bars@[j];
                    &&& b1.pos.x == stepped_x(b0, speed_x as int, bw, vw)
                    &&& b1.pos.y == stepped_y(b0, mouse_pos, speed_x as int, ascent as int, bw)
                    &&& b1.width == b0.width
                    &&& b1.height == b0.height
                    &&& b1.speed == speed_x
                    &&& b1.ascent == ascent
                },
                player.prev_bar_height == gate_sample(
                    bars0.take(i as int), mouse_pos, speed_x as int, ascent as int,
                    zone - bw, zone as int, p0.prev_bar_height as int,
                ),
                player.bar_height == gate_sample(
                    bars0.take(i as int), mouse_pos, speed_x as int, ascent as int,
                    zone as int, zone + bw, p0.bar_height as int,
                ),
                *player == (Player {
                    bar_height: player.bar_height,
                    prev_bar_height: player.prev_bar_height,
                    ..p0
                }),
            decreases bars0.len() - i,
        {
            let mut b = self.bars[i];
            b.update(mouse_pos, speed_x, ascent, player, zone, self.bar_width);
            proof {
                assert(-2 * COORD_LIMIT as int
                    <= -WRAP_MARGIN_BARS as int * (self.bar_width as int)
                    <= 2 * COORD_LIMIT as int);
            }
            if b.pos.x < -WRAP_MARGIN_BARS * self.bar_width {
                b.pos.x = self.viewport_width;
                b.pos.y = mouse_pos.y;
            }
            self.bars.set(i, b);
            proof {
                assert(bars0.take(i + 1).drop_last() =~= bars0.take(i as int));
                assert(bars0.take(i + 1).last() == bars0[i as int]);
            }
            i += 1;
        }
        proof {
            assert(bars0.take(bars0.len() as int) =~= bars0);
        }
    }

    /// Where the look-ahead gate sits: one sixth of the viewport from
    /// the left edge.
    pub open spec fn gate_zone(self) -> int {
        self.viewport_width as int / GATE_ZONE_DIVISOR as int
    }

    /// The terrain height at `x`: the height of the first bar (in
    /// storage order) whose half-width window strictly contains `x`,
    /// or nothing when no bar covers `x` — "no ground here".
    pub fn get_height_at(&self, x: i64) -> (r: Option<i64>)
        requires
            self.wf(),
        ensures
            r == spec_height_at(self.bars@, x as int),
    {
        proof {
            assert(self.bars@.skip(0) =~= self.bars@);
        }
        let mut i: usize = 0;
        while i < self.bars.len()
            invariant
                0 <= i <= self.bars@.len(),
                self.wf(),
                spec_height_at(self.bars@, x as int)
                    == spec_height_at(self.bars@.skip(i as int), x as int),
            decreases self.bars@.len() - i,
        {
            let b = self.bars[i];
            let half = b.width / 2;
            proof {
                assert(self.bars@.skip(i as int).first() == self.bars@[i as int]);
                assert(self.bars@.skip(i as int).drop_first() =~= self.bars@.skip(i + 1));
            }
            if (x as i128) > (b.pos.x as i128) - (half as i128)
                && (x as i128) < (b.pos.x as i128) + (half as i128) {
                return Some(b.pos.y);
            }
            i += 1;
        }
        None
    }

    /// Restore even spacing after drift: every bar's x is recomputed
    /// from the first bar's x (the anchor) and its storage index. Bars
    /// at or ahead of the anchor move to `base + i*w`, bars behind it
    /// to `base - (count - i)*w`. A corrective command, not part of
    /// the per-tick loop; a no-op on an empty ring (defensive,
    /// unreachable under the invariant).
    pub fn realign(&mut self)
        requires
            old(self).wf(),
            old(self).coords_in_range(),
        ensures
            final(self).wf(),
            final(self).bar_width == old(self).bar_width,
            final(self).viewport_width == old(self).viewport_width,
            final(self).bars@.len() == old(self).bars@.len(),
            forall|i: int| 0 <= i < old(self).bars@.len() ==> {
                let b0 = old(self).bars@[i];
                let b1 = #[trigger] final(self).bars@[i];
                &&& b1.pos.x == realigned_x(b0.pos.x as int, old(self).bars@[0].pos.x as int,
                        i, old(self).bars@.len() as int, old(self).bar_width as int)
                &&& b1.pos.y == b0.pos.y
                &&& b1.width == b0.width
                &&& b1.height == b0.height
                &&& b1.speed == b0.speed
                &&& b1.ascent == b0.ascent
            },
    {
        let ghost bars0 = self.bars@;
        let ghost bw = self.bar_width as int;
        let ghost vw0 = self.viewport_width as int;
        if self.bars.len() > 0 {
            let base_x = self.bars[0].pos.x;
            let n = self.bars.len();
            let mut i: usize = 0;
            while i < n
                invariant
                    self.wf(),
                    self.bar_width as int == bw,
                    self.viewport_width as int == vw0,
                    n == bars0.len(),
                    self.bars@.len() == bars0.len(),
                    0 <= i <= n,
                    base_x == bars0[0].pos.x,
                    in_coord_range(base_x as int),
                    in_coord_range(bw),
                    0 <= bw,
                    forall|j: int| i <= j < n as int
                        ==> #[trigger] self.bars@[j] == bars0[j],
                    forall|j: int| 0 <= j < n as int
                        ==> in_coord_range((#[trigger] bars0[j]).pos.x as int),
                    forall|j: int| 0 <= j < i ==> {
                        let b0 = bars0[j];
                        let b1 = #[trigger] self.bars@[j];
                        &&& b1.pos.x == realigned_x(b0.pos.x as int, base_x as int, j,
                                n as int, bw)
                        &&& b1 == (Bar { pos: Vec2Fx { x: b1.pos.x, y: b0.pos.y }, ..b0 })
                    },
                decreases n - i,
            {
                let mut b = self.bars[i];
                proof {
                    assert(0 <= i as int * bw <= 22 * bw) by (nonlinear_arith)
                        requires 0 <= i as int <= 22, 0 <= bw;
                    assert(0 <= (n - i) as int * bw <= 22 * bw) by (nonlinear_arith)
                        requires 0 <= (n - i) as int <= 22, 0 <= bw;
                }
                if b.pos.x >= base_x {
                    b.pos.x = base_x + (i as i64) * self.bar_width;
                } else {
                    b.pos.x = base_x - ((n - i) as i64) * self.bar_width;
                }
                self.bars.set(i, b);
                i += 1;
            }
        }
    }
}

/// A gate sample is either the default or a post-scroll bar height,
/// so it obeys any bound that the default, the pointer height and
/// every drifted bar height obey.
pub proof fn lemma_gate_sample_bounded(
    bars: Seq<Bar>, mouse: Vec2Fx, speed: int, ascent: int, lo: int, hi: int, dflt: int,
    bound: int,
)
    requires
        -bound <= mouse.y <= bound,
        -bound <= dflt <= bound,
        forall|i: int| 0 <= i < bars.len()
            ==> -bound <= (#[trigger] bars[i]).pos.y + ascent <= bound,
    ensures
        -bound <= gate_sample(bars, mouse, speed, ascent, lo, hi, dflt) <= bound,
    decreases bars.len(),
{
    if bars.len() == 0 {
    } else {
        let b = bars.last();
        if lo < moved_x(b, speed) && moved_x(b, speed) < hi {
        } else {
            assert(forall|i: int| 0 <= i < bars.drop_last().len()
                ==> -bound <= (#[trigger] bars.drop_last()[i]).pos.y + ascent <= bound);
            lemma_gate_sample_bounded(bars.drop_last(), mouse, speed, ascent, lo, hi, dflt,
                bound);
        }
    }
}

/// A height returned by the terrain scan is the height of one of its
/// bars, so it obeys any bound that all the bars' heights obey.
pub proof fn lemma_height_at_bounded(bars: Seq<Bar>, x: int, bound: int)
    requires
        forall|i: int| 0 <= i < bars.len()
            ==> -bound <= (#[trigger] bars[i]).pos.y <= bound,
        spec_height_at(bars, x) is Some,
    ensures
        -bound <= spec_height_at(bars, x)->Some_0 <= bound,
    decreases bars.len(),
{
    if bars.len() == 0 {
    } else if in_window(x, bars.first().pos.x as int, bars.first().width as int) {
    } else {
        assert(forall|i: int| 0 <= i < bars.drop_first().len()
            ==> -bound <= (#[trigger] bars.drop_first()[i]).pos.y <= bound);
        lemma_height_at_bounded(bars.drop_first(), x, bound);
    }
}

/// Realigning is idempotent: with no tick in between, a second
/// `realign` moves no bar. After one pass the anchor bar stands at its
/// own anchor (so the anchor is unchanged), every bar that was at or
/// ahead of the anchor still is, and every bar that was behind it
/// still is, so the second pass recomputes the very same positions.
pub proof fn lemma_realign_idempotent(x: int, base: int, i: int, n: int, w: int)
    requires
        0 <= w,
        0 <= i < n,
    ensures
        realigned_x(
            realigned_x(x, base, i, n, w),
            realigned_x(base, base, 0, n, w),
            i, n, w,
        ) == realigned_x(x, base, i, n, w),
{
    assert(realigned_x(base, base, 0, n, w) == base);
    if w == 0 {
        assert(i * w == 0) by (nonlinear_arith)
            requires w == 0;
        assert((n - i) * w == 0) by (nonlinear_arith)
            requires w == 0;
    } else {
        assert(0 <= i * w) by (nonlinear_arith)
            requires 0 <= i, 0 < w;
        assert(0 < (n - i) * w) by (nonlinear_arith)
            requires i < n, 0 < w;
    }
}

/// The same law at the level of whole terrains: if `middle` came out
/// of realigning `start`, and `end` out of realigning `middle`, the
/// second pass moved nothing.
pub proof fn lemma_realign_twice(start: Terrain, middle: Terrain, end: Terrain)
    requires
        0 < start.bars@.len(),
        middle.bars@.len() == start.bars@.len(),
        end.bars@.len() == middle.bars@.len(),
        0 <= start.bar_width,
        middle.bar_width == start.bar_width,
        forall|i: int| 0 <= i < start.bars@.len()
            ==> (#[trigger] middle.bars@[i]).pos.x == realigned_x(
                    start.bars@[i].pos.x as int, start.bars@[0].pos.x as int,
                    i, start.bars@.len() as int, start.bar_width as int),
        forall|i: int| 0 <= i < middle.bars@.len()
            ==> (#[trigger] end.bars@[i]).pos.x == realigned_x(
                    middle.bars@[i].pos.x as int, middle.bars@[0].pos.x as int,
                    i, middle.bars@.len() as int, middle.bar_width as int),
    ensures
        forall|i: int| 0 <= i < end.bars@.len()
            ==> (#[trigger] end.bars@[i]).pos.x == middle.bars@[i].pos.x,
{
    let n = start.bars@.len() as int;
    let w = start.bar_width as int;
    let base = start.bars@[0].pos.x as int;
    assert(middle.bars@[0].pos.x == realigned_x(base, base, 0, n, w));
    assert forall|i: int| 0 <= i < n
        implies (#[trigger] end.bars@[i]).pos.x == middle.bars@[i].pos.x by {
        lemma_realign_idempotent(start.bars@[i].pos.x as int, base, i, n, w);
    }
}

} // verus!
