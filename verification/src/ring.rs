//! One expanding or contracting ring, and the rules that drive it.
//!
//! A ring grows outward from its origin by a fixed amount per tick. When it
//! detects a geometric intersection with another ring it reverses to
//! shrinking; when, while shrinking, its radius falls below zero, it bounces
//! back to growing (the radius may stay negative for that one tick — this is
//! a bounce off zero, not a clamp).
//!
//! The intersection test is a tolerance band around the moment two circle
//! boundaries meet: with `d` the distance between origins, the rings
//! intersect when `d` lies strictly inside `(r1+r2-g, r1+r2+g)` (outer
//! boundaries meet) or strictly inside `(|r1-r2|-g, |r1-r2|+g)` (one
//! boundary meets the other from inside), where `g` is the *first* ring's
//! growth rate. The band compensates for the discrete per-tick stepping: an
//! exact-equality test would miss crossings that fall between ticks. All
//! comparisons are made on squared distances, so they decide the real
//! predicate exactly.

use vstd::prelude::*;

use crate::color::{random_color, Rgb};
use crate::geometry::{dist_sq, lemma_square_bound, Point, COORD_LIMIT};

verus! {

/// The default stroke weight of a freshly spawned ring.
pub const DEFAULT_WEIGHT: i64 = 6;

/// The default per-tick radius change of a freshly spawned ring. It doubles
/// as the tolerance band of the intersection test.
pub const DEFAULT_GROWTH_RATE: i64 = 1;

/// The sign of a ring's per-tick radius change.
#[derive(Clone, Copy, Debug, PartialEq, Eq, Structural)]
pub enum RingDirection {
    Growing,
    Shrinking,
}

/// The opposite direction.
pub open spec fn flipped(d: RingDirection) -> RingDirection {
    match d {
        RingDirection::Growing => RingDirection::Shrinking,
        RingDirection::Shrinking => RingDirection::Growing,
    }
}

/// One expanding or contracting circle.
///
/// `origin`, `weight`, `growth_rate` and `color` are fixed at creation;
/// `radius` and `direction` change as the simulation steps.
#[derive(Clone, Copy, Debug)]
pub struct Ring {
    pub color: Rgb,
    pub origin: Point,
    pub radius: i64,
    pub weight: i64,
    pub growth_rate: i64,
    pub direction: RingDirection,
}

/// Rings are equal when origin, radius, weight, growth rate and direction
/// all match; color is deliberately excluded. The intersection scan uses
/// this to exclude a ring from being tested against itself.
pub open spec fn ring_eq(r: Ring, o: Ring) -> bool {
    &&& r.origin == o.origin
    &&& r.radius == o.radius
    &&& r.weight == o.weight
    &&& r.growth_rate == o.growth_rate
    &&& r.direction == o.direction
}

impl PartialEq for Ring {
    fn eq(&self, other: &Self) -> (r: bool) {
        self.origin == other.origin && self.radius == other.radius
            && self.weight == other.weight && self.growth_rate == other.growth_rate
            && self.direction == other.direction
    }
}

impl vstd::std_specs::cmp::PartialEqSpecImpl for Ring {
    open spec fn obeys_eq_spec() -> bool {
        true
    }

    open spec fn eq_spec(&self, other: &Self) -> bool {
        ring_eq(*self, *other)
    }
}

/// True when the nonnegative real number whose square is `d2` lies strictly
/// between `lo` and `hi`.
///
/// For `d >= 0`: `lo < d` holds exactly when `lo` is negative or
/// `lo * lo < d2`, and `d < hi` holds exactly when `hi` is positive and
/// `d2 < hi * hi`. Phrasing the band over squares keeps the test exact even
/// though `d` itself is usually irrational.
pub open spec fn in_band(d2: int, lo: int, hi: int) -> bool {
    &&& lo < 0 || lo * lo < d2
    &&& 0 < hi
    &&& d2 < hi * hi
}

/// The pairwise intersection predicate: false for a ring and itself (under
/// `ring_eq`) and for two shrinking rings; otherwise true when the distance
/// between origins falls strictly inside the external band
/// `(r1+r2-g, r1+r2+g)` or the internal band `(|r1-r2|-g, |r1-r2|+g)`,
/// with `g` the first ring's growth rate.
pub open spec fn intersects_spec(r: Ring, o: Ring) -> bool {
    let d2 = dist_sq(r.origin, o.origin);
    let sum = r.radius + o.radius;
    let diff = if r.radius >= o.radius {
        r.radius - o.radius
    } else {
        o.radius - r.radius
    };
    let g = r.growth_rate;
    &&& !ring_eq(r, o)
    &&& !(r.direction is Shrinking && o.direction is Shrinking)
    &&& (in_band(d2, sum - g, sum + g) || in_band(d2, diff - g, diff + g))
}

/// True when `r` intersects some ring of `all`.
pub open spec fn hits_any(r: Ring, all: Seq<Ring>) -> bool {
    exists|k: int| 0 <= k < all.len() && intersects_spec(r, #[trigger] all[k])
}

/// The state of ring `r` after one simulation tick taken against the frozen
/// snapshot `all`: flip on intersection, then apply the radius delta, then
/// bounce off zero if the radius went negative while shrinking.
pub open spec fn ring_after_step(r: Ring, all: Seq<Ring>) -> Ring {
    let dir = if hits_any(r, all) {
        flipped(r.direction)
    } else {
        r.direction
    };
    let stepped = if dir is Growing {
        r.radius + r.growth_rate
    } else {
        r.radius - r.growth_rate
    };
    let dir_bounced = if stepped < 0 && dir is Shrinking {
        RingDirection::Growing
    } else {
        dir
    };
    Ring { radius: stepped as i64, direction: dir_bounced, ..r }
}

fn band_contains(d2: i64, lo: i64, hi: i64) -> (b: bool)
    requires
        0 <= d2,
        -3 * COORD_LIMIT <= lo <= 3 * COORD_LIMIT,
        -3 * COORD_LIMIT <= hi <= 3 * COORD_LIMIT,
    ensures
        b == in_band(d2 as int, lo as int, hi as int),
{
    proof {
        lemma_square_bound(lo as int, 300_000_000);
        lemma_square_bound(hi as int, 300_000_000);
    }
    let below = lo < 0 || lo * lo < d2;
    let above = 0 < hi && d2 < hi * hi;
    below && above
}

impl Ring {
    /// True when every length of the ring lies within `COORD_LIMIT` in
    /// magnitude and the growth rate is positive. The positive growth rate
    /// is the one semantic invariant: it is set at construction and never
    /// mutated afterwards.
    pub open spec fn wf(self) -> bool {
        &&& self.origin.in_bounds()
        &&& -COORD_LIMIT <= self.radius <= COORD_LIMIT
        &&& 0 < self.growth_rate <= COORD_LIMIT
        &&& 0 <= self.weight <= COORD_LIMIT
    }

    /// A fresh ring at the plane's center: radius zero, default weight and
    /// growth rate, growing, with a freshly randomized color.
    pub fn new(rng: &mut rand::rngs::StdRng) -> (r: Ring)
        ensures
            r.origin == (Point { x: 0, y: 0 }),
            r.radius == 0,
            r.weight == DEFAULT_WEIGHT,
            r.growth_rate == DEFAULT_GROWTH_RATE,
            r.direction is Growing,
            r.color.red < 255,
            r.color.green < 255,
            200 <= r.color.blue < 255,
            r.wf(),
    {
        Ring {
            color: random_color(rng),
            origin: Point::new(0, 0),
            radius: 0,
            weight: DEFAULT_WEIGHT,
            growth_rate: DEFAULT_GROWTH_RATE,
            direction: RingDirection::Growing,
        }
    }

    /// Moves the ring's origin; every other field is unchanged.
    pub fn set_origin(&mut self, x: i64, y: i64)
        ensures
            final(self).origin == (Point { x: x, y: y }),
            final(self).radius == old(self).radius,
            final(self).weight == old(self).weight,
            final(self).growth_rate == old(self).growth_rate,
            final(self).direction == old(self).direction,
            final(self).color == old(self).color,
    {
        self.origin = Point::new(x, y);
    }

    /// Decides whether this ring intersects `other`, exactly as
    /// `intersects_spec` states. Pure: no mutation.
    pub fn is_intersecting(&self, other: &Ring) -> (b: bool)
        requires
            self.wf(),
            other.wf(),
        ensures
            b == intersects_spec(*self, *other),
    {
        if *self == *other {
            return false;
        }
        if matches!(self.direction, RingDirection::Shrinking)
            && matches!(other.direction, RingDirection::Shrinking) {
            return false;
        }
        let d2 = self.origin.distance_sq(&other.origin);
        let r1 = self.radius;
        let r2 = other.radius;
        let sum = r1 + r2;
        let diff = if r1 >= r2 {
            r1 - r2
        } else {
            r2 - r1
        };
        let g = self.growth_rate;
        band_contains(d2, sum - g, sum + g) || band_contains(d2, diff - g, diff + g)
    }

    /// Advances this ring by one tick against the frozen snapshot `rings`:
    /// scan for an intersection, flip on a hit, apply the radius delta,
    /// then bounce off zero — in exactly that order.
    pub fn update(&mut self, rings: &Vec<Ring>)
        requires
            old(self).wf(),
            forall|j: int| 0 <= j < rings@.len() ==> (#[trigger] rings@[j]).wf(),
        ensures
            *final(self) == ring_after_step(*old(self), rings@),
    {
        let mut intersecting = false;
        let mut j: usize = 0;
        while j < rings.len() && !intersecting
            invariant
                0 <= j <= rings@.len(),
                *self == *old(self),
                old(self).wf(),
                forall|k: int| 0 <= k < rings@.len() ==> (#[trigger] rings@[k]).wf(),
                intersecting ==> exists|k: int|
                    0 <= k < rings@.len() && intersects_spec(*self, #[trigger] rings@[k]),
                !intersecting ==> forall|k: int|
                    0 <= k < j ==> !intersects_spec(*self, #[trigger] rings@[k]),
            decreases rings@.len() - j,
        {
            if self.is_intersecting(&rings[j]) {
                intersecting = true;
            }
            j = j + 1;
        }
        assert(intersecting == hits_any(*self, rings@));
        if intersecting {
            self.direction = match self.direction {
                RingDirection::Growing => RingDirection::Shrinking,
                RingDirection::Shrinking => RingDirection::Growing,
            };
        }
        match self.direction {
            RingDirection::Growing => self.radius = self.radius + self.growth_rate,
            RingDirection::Shrinking => self.radius = self.radius - self.growth_rate,
        }
        if self.radius < 0 && matches!(self.direction, RingDirection::Shrinking) {
            self.direction = RingDirection::Growing;
        }
    }
}

/// A ring never intersects itself.
pub proof fn lemma_self_intersection_false(r: Ring)
    ensures
        !intersects_spec(r, r),
{
}

/// Two shrinking rings never intersect, whatever their radii and origins.
pub proof fn lemma_shrinking_pair_no_intersection(r: Ring, o: Ring)
    requires
        r.direction is Shrinking,
        o.direction is Shrinking,
    ensures
        !intersects_spec(r, o),
{
}

/// One simulation step never changes a ring's growth rate, origin, stroke
/// weight or color; in particular a positive growth rate stays positive
/// forever.
pub proof fn lemma_step_keeps_constants(r: Ring, all: Seq<Ring>)
    ensures
        ring_after_step(r, all).growth_rate == r.growth_rate,
        ring_after_step(r, all).origin == r.origin,
        ring_after_step(r, all).weight == r.weight,
        ring_after_step(r, all).color == r.color,
{
}

} // verus!
