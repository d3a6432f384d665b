//! Plain fixed-point geometry: a two-component vector and axis-aligned
//! rectangle overlap, shared by the player, hazards and pickups.

use vstd::prelude::*;
use vstd::arithmetic::div_mod::{lemma_div_nonincreasing, lemma_div_pos_is_pos};

verus! {

/// A point or velocity in viewport coordinates, in subunits.
/// `y` grows downward, as in the viewport.
#[derive(Clone, Copy, PartialEq, Eq, Structural, Debug)]
pub struct Vec2Fx {
    pub x: i64,
    pub y: i64,
}

impl Vec2Fx {
    pub fn new(x: i64, y: i64) -> (v: Vec2Fx)
        ensures
            v.x == x,
            v.y == y,
    {
        Vec2Fx { x, y }
    }

    pub fn zero() -> (v: Vec2Fx)
        ensures
            v.x == 0,
            v.y == 0,
    {
        Vec2Fx { x: 0, y: 0 }
    }
}

/// Truncating (round toward zero) division, the semantics of `/` on the
/// executable integers; spec-side `/` alone is Euclidean.
pub open spec fn div_trunc(a: int, d: int) -> int {
    if a >= 0 {
        a / d
    } else {
        -((-a) / d)
    }
}

/// Truncating division by a positive divisor never grows a value's
/// magnitude.
pub proof fn lemma_div_trunc_bound(a: int, d: int, bound: int)
    requires
        1 <= d,
        0 <= bound,
        -bound <= a <= bound,
    ensures
        -bound <= div_trunc(a, d) <= bound,
{
    if a >= 0 {
        lemma_div_pos_is_pos(a, d);
        lemma_div_nonincreasing(a, d);
    } else {
        lemma_div_pos_is_pos(-a, d);
        lemma_div_nonincreasing(-a, d);
    }
}

/// Two axis-aligned rectangles, each given by its four edges, overlap
/// exactly when each one's left edge is left of the other's right edge
/// and each one's top edge is above the other's bottom edge.
pub open spec fn spec_rects_overlap(
    a_left: int, a_top: int, a_right: int, a_bottom: int,
    b_left: int, b_top: int, b_right: int, b_bottom: int,
) -> bool {
    &&& a_left < b_right
    &&& a_right > b_left
    &&& a_top < b_bottom
    &&& a_bottom > b_top
}

/// Axis-aligned rectangle overlap over edge coordinates.
pub fn rects_overlap(
    a_left: i64, a_top: i64, a_right: i64, a_bottom: i64,
    b_left: i64, b_top: i64, b_right: i64, b_bottom: i64,
) -> (r: bool)
    ensures
        r == spec_rects_overlap(
            a_left as int, a_top as int, a_right as int, a_bottom as int,
            b_left as int, b_top as int, b_right as int, b_bottom as int,
        ),
{
    a_left < b_right && a_right > b_left && a_top < b_bottom && a_bottom > b_top
}

} // verus!
