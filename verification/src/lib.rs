//! Simulation core of a side-scrolling arcade game: a ring of terrain
//! segments deformed by a pointer signal, a physics-driven player that
//! follows the terrain profile, and scrolling hazards and pickups.
//!
//! All geometry is carried in whole subunits (hundredths of a world unit)
//! so that every computation is exact integer arithmetic.

use vstd::prelude::*;

pub mod geom;
pub mod player;
pub mod terrain;
pub mod background;
pub mod boulder;
pub mod pickup;
pub mod sim;
pub(crate) mod rng;

verus! {

/// Subunits per world unit: all positions, speeds and sizes are stored
/// in hundredths of a world unit.
pub const SUBUNITS_PER_UNIT: i64 = 100;

/// Every coordinate, speed and size handed to the library is required to
/// lie within this bound. It is far beyond any reachable game state and
/// is chosen so that every intermediate product and sum of the simulation
/// fits in an `i64`.
pub const COORD_LIMIT: i64 = 1_000_000_000_000;

/// Upper bound on a single frame delta, in milliseconds.
pub const DT_LIMIT_MS: i64 = 1_000_000;

/// Milliseconds per second, the divisor of velocity integration.
pub const MS_PER_SECOND: i64 = 1000;

/// A value small enough to take part in any computation of the simulation.
pub open spec fn in_coord_range(v: int) -> bool {
    -(COORD_LIMIT as int) <= v <= COORD_LIMIT as int
}

/// A value at most one pass of scroll and reposition away from the
/// base bound: entity collision tests admit these.
pub open spec fn in_entity_range(v: int) -> bool {
    -4 * (COORD_LIMIT as int) <= v <= 4 * (COORD_LIMIT as int)
}

/// Whether one scalar lies within the simulation bound.
pub fn in_bound(v: i64) -> (b: bool)
    ensures
        b == in_coord_range(v as int),
{
    -COORD_LIMIT <= v && v <= COORD_LIMIT
}

} // verus!
