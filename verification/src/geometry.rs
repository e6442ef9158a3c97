//! Points on the plane and exact squared-distance arithmetic.
//!
//! Coordinates, radii and growth rates are integer fixed-point values whose
//! magnitude is bounded by `COORD_LIMIT`. The bound guarantees that every
//! squared length the simulation compares fits comfortably in an `i64`, so
//! the geometry never rounds: a test on squared distances decides exactly
//! where the true Euclidean distance stands relative to an integer bound.

use vstd::prelude::*;

verus! {

/// Largest magnitude a coordinate, radius or growth rate may take.
///
/// With this bound, a difference of two coordinates is at most
/// `2 * COORD_LIMIT`, a band bound is at most `3 * COORD_LIMIT`, and the
/// square of either stays far below `i64::MAX`.
pub const COORD_LIMIT: i64 = 100_000_000;

/// An immutable 2D coordinate. Equality is exact field comparison.
#[derive(Clone, Copy, Debug, PartialEq, Eq, Structural)]
pub struct Point {
    pub x: i64,
    pub y: i64,
}

/// The squared Euclidean distance between two points, as a mathematical
/// integer.
pub open spec fn dist_sq(p: Point, q: Point) -> int {
    (p.x - q.x) * (p.x - q.x) + (p.y - q.y) * (p.y - q.y)
}

/// A square of a value bounded by `b` in magnitude is nonnegative and
/// bounded by `b * b`.
pub proof fn lemma_square_bound(a: int, b: int) by (nonlinear_arith)
    requires
        -b <= a <= b,
        0 <= b,
    ensures
        0 <= a * a <= b * b,
{
}

impl Point {
    /// True when both coordinates lie within `COORD_LIMIT` in magnitude.
    pub open spec fn in_bounds(self) -> bool {
        &&& -COORD_LIMIT <= self.x <= COORD_LIMIT
        &&& -COORD_LIMIT <= self.y <= COORD_LIMIT
    }

    pub fn new(x: i64, y: i64) -> (p: Point)
        ensures
            p.x == x,
            p.y == y,
    {
        Point { x, y }
    }

    /// The squared Euclidean distance to `other`.
    ///
    /// The true distance is the square root of this value; the simulation
    /// never takes that root, it compares squares instead.
    pub fn distance_sq(&self, other: &Point) -> (d2: i64)
        requires
            self.in_bounds(),
            other.in_bounds(),
        ensures
            d2 == dist_sq(*self, *other),
            d2 >= 0,
    {
        let dx = self.x - other.x;
        let dy = self.y - other.y;
        proof {
            lemma_square_bound(dx as int, 2 * COORD_LIMIT as int);
            lemma_square_bound(dy as int, 2 * COORD_LIMIT as int);
        }
        dx * dx + dy * dy
    }
}

} // verus!
