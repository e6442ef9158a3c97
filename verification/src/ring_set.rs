//! The simulation state: every ring spawned so far, in insertion order.
//!
//! One call to `step` advances every ring by one tick against a frozen
//! snapshot of the whole set as it stood when the tick began, so no ring's
//! update can influence another ring's intersection test within the same
//! tick. The set only grows: rings are never removed.

use vstd::prelude::*;

use crate::geometry::{Point, COORD_LIMIT};
use crate::ring::{
    hits_any, intersects_spec, ring_after_step, Ring, RingDirection, DEFAULT_GROWTH_RATE,
    DEFAULT_WEIGHT,
};

verus! {

/// The set of all rings, in insertion order.
pub struct RingSet {
    rings: Vec<Ring>,
}

impl View for RingSet {
    type V = Seq<Ring>;

    closed spec fn view(&self) -> Seq<Ring> {
        self.rings@
    }
}

/// The whole set after one tick: every ring stepped against the same frozen
/// state `s`.
pub open spec fn step_set(s: Seq<Ring>) -> Seq<Ring> {
    Seq::new(s.len(), |i: int| ring_after_step(s[i], s))
}

/// The whole set after `n` ticks.
pub open spec fn step_set_n(s: Seq<Ring>, n: nat) -> Seq<Ring>
    decreases n,
{
    if n == 0 {
        s
    } else {
        step_set(step_set_n(s, (n - 1) as nat))
    }
}

/// Stepping never adds or removes rings.
pub proof fn lemma_step_set_n_len(s: Seq<Ring>, n: nat)
    ensures
        step_set_n(s, n).len() == s.len(),
    decreases n,
{
    if n > 0 {
        lemma_step_set_n_len(s, (n - 1) as nat);
    }
}

/// Ring `i` of `s` intersects no ring of `s`.
pub open spec fn isolated(s: Seq<Ring>, i: int) -> bool {
    forall|j: int| 0 <= j < s.len() ==> !intersects_spec(s[i], #[trigger] s[j])
}

/// An isolated ring registers no hit in the intersection scan.
pub proof fn lemma_isolated_no_hit(s: Seq<Ring>, i: int)
    requires
        0 <= i < s.len(),
        isolated(s, i),
    ensures
        !hits_any(s[i], s),
{
    if hits_any(s[i], s) {
        let k = choose|k: int| 0 <= k < s.len() && intersects_spec(s[i], s[k]);
        assert(!intersects_spec(s[i], s[k]));
    }
}

impl RingSet {
    /// Every ring of the set is well formed.
    pub open spec fn wf(self) -> bool {
        forall|i: int| 0 <= i < self@.len() ==> (#[trigger] self@[i]).wf()
    }

    /// Every ring can take one more tick without leaving its bounds.
    pub open spec fn has_room(self) -> bool {
        forall|i: int| 0 <= i < self@.len() ==> {
            &&& (#[trigger] self@[i]).radius + self@[i].growth_rate <= COORD_LIMIT
            &&& -COORD_LIMIT <= self@[i].radius - self@[i].growth_rate
        }
    }

    /// An empty set: a valid and common state.
    pub fn new() -> (s: RingSet)
        ensures
            s@.len() == 0,
            s.wf(),
    {
        RingSet { rings: Vec::new() }
    }

    /// Wraps an explicit collection of rings, kept in the given order.
    pub fn from_rings(rings: Vec<Ring>) -> (s: RingSet)
        ensures
            s@ == rings@,
    {
        RingSet { rings }
    }

    /// The number of rings spawned so far.
    pub fn len(&self) -> (n: usize)
        ensures
            n == self@.len(),
    {
        self.rings.len()
    }

    /// Appends a new ring at `origin` with the default radius, weight and
    /// growth rate, growing, with a freshly randomized color. Existing
    /// rings are untouched. Returns the new ring's index.
    pub fn spawn(&mut self, origin: Point, rng: &mut rand::rngs::StdRng) -> (id: usize)
        requires
            origin.in_bounds(),
        ensures
            id == old(self)@.len(),
            final(self)@.len() == old(self)@.len() + 1,
            forall|i: int| 0 <= i < old(self)@.len() ==> final(self)@[i] == old(self)@[i],
            final(self)@[id as int].origin == origin,
            final(self)@[id as int].radius == 0,
            final(self)@[id as int].weight == DEFAULT_WEIGHT,
            final(self)@[id as int].growth_rate == DEFAULT_GROWTH_RATE,
            final(self)@[id as int].direction is Growing,
            final(self)@[id as int].color.red < 255,
            final(self)@[id as int].color.green < 255,
            200 <= final(self)@[id as int].color.blue < 255,
            final(self)@[id as int].wf(),
            old(self).wf() ==> final(self).wf(),
    {
        let mut ring = Ring::new(rng);
        ring.set_origin(origin.x, origin.y);
        let id = self.rings.len();
        self.rings.push(ring);
        id
    }

    /// A read-only copy of the set in insertion order, for the
    /// presentation layer. Taking a snapshot changes nothing, so any two
    /// snapshots with no spawn or step between them are identical.
    pub fn snapshot(&self) -> (snap: Vec<Ring>)
        ensures
            snap@ == self@,
    {
        let mut out: Vec<Ring> = Vec::new();
        let mut i: usize = 0;
        while i < self.rings.len()
            invariant
                0 <= i <= self.rings@.len(),
                out@.len() == i,
                forall|k: int| 0 <= k < i ==> out@[k] == self.rings@[k],
            decreases self.rings@.len() - i,
        {
            out.push(self.rings[i]);
            i = i + 1;
        }
        proof {
            assert(out@ =~= self.rings@);
        }
        out
    }

    /// Advances every ring by exactly one tick, each against the frozen
    /// pre-tick state of the whole set.
    pub fn step(&mut self)
        requires
            old(self).wf(),
        ensures
            final(self)@.len() == old(self)@.len(),
            forall|i: int| 0 <= i < old(self)@.len() ==> final(self)@[i] == ring_after_step(
                old(self)@[i],
                old(self)@,
            ),
            final(self)@ == step_set(old(self)@),
            old(self).has_room() ==> final(self).wf(),
    {
        let snap = self.snapshot();
        let mut stepped: Vec<Ring> = Vec::new();
        let mut i: usize = 0;
        while i < snap.len()
            invariant
                0 <= i <= snap@.len(),
                snap@ == old(self)@,
                old(self).wf(),
                stepped@.len() == i,
                forall|k: int| 0 <= k < i ==> stepped@[k] == ring_after_step(
                    old(self)@[k],
                    old(self)@,
                ),
            decreases snap@.len() - i,
        {
            let mut ring = snap[i];
            ring.update(&snap);
            stepped.push(ring);
            i = i + 1;
        }
        self.rings = stepped;
        proof {
            assert(self.rings@ =~= step_set(old(self)@));
            if old(self).has_room() {
                assert forall|i: int| 0 <= i < self.rings@.len() implies
                    (#[trigger] self.rings@[i]).wf() by {
                    assert(self.rings@[i] == ring_after_step(old(self)@[i], old(self)@));
                }
            }
        }
    }
}

/// Taking a snapshot is idempotent: two snapshots of the same state, with
/// no spawn or step between them, are the same sequence.
pub proof fn lemma_snapshot_idempotent(state: Seq<Ring>, first: Seq<Ring>, second: Seq<Ring>)
    requires
        first == state,
        second == state,
    ensures
        first == second,
{
}

/// Monotonic growth absent intersection: a growing ring that intersects
/// nothing across `n` ticks stays growing and gains exactly `n` times its
/// growth rate; its origin and growth rate never change.
pub proof fn lemma_monotonic_growth(s: Seq<Ring>, i: int, n: nat)
    requires
        0 <= i < s.len(),
        s[i].direction is Growing,
        s[i].growth_rate >= 0,
        forall|k: nat| k < n ==> isolated(#[trigger] step_set_n(s, k), i),
        s[i].radius + n * s[i].growth_rate <= i64::MAX,
    ensures
        step_set_n(s, n).len() == s.len(),
        step_set_n(s, n)[i].direction is Growing,
        step_set_n(s, n)[i].radius == s[i].radius + n * s[i].growth_rate,
        step_set_n(s, n)[i].growth_rate == s[i].growth_rate,
        step_set_n(s, n)[i].origin == s[i].origin,
    decreases n,
{
    lemma_step_set_n_len(s, n);
    let g = s[i].growth_rate as int;
    if n == 0 {
        assert(n * g == 0) by (nonlinear_arith)
            requires n == 0,
        ;
    } else {
        let m = (n - 1) as nat;
        assert(m * g <= n * g && 0 <= n * g && m * g + g == n * g) by (nonlinear_arith)
            requires
                m + 1 == n,
                g >= 0,
        ;
        lemma_monotonic_growth(s, i, m);
        lemma_step_set_n_len(s, m);
        let t = step_set_n(s, m);
        lemma_isolated_no_hit(t, i);
        assert(step_set_n(s, n) == step_set(t));
        assert(step_set(t)[i] == ring_after_step(t[i], t));
    }
}

/// Absent intersection, a shrinking ring's radius falls by exactly its
/// growth rate in one tick — strictly decreasing while the growth rate is
/// positive — and the ring keeps shrinking unless the new radius is
/// negative, in which case it bounces back to growing.
pub proof fn lemma_shrinking_decreases(s: Seq<Ring>, i: int)
    requires
        0 <= i < s.len(),
        s[i].direction is Shrinking,
        isolated(s, i),
        i64::MIN <= s[i].radius - s[i].growth_rate <= i64::MAX,
    ensures
        step_set(s)[i].radius == s[i].radius - s[i].growth_rate,
        s[i].growth_rate > 0 ==> step_set(s)[i].radius < s[i].radius,
        step_set(s)[i].direction == (if s[i].radius - s[i].growth_rate < 0 {
            RingDirection::Growing
        } else {
            RingDirection::Shrinking
        }),
{
    lemma_isolated_no_hit(s, i);
    assert(step_set(s)[i] == ring_after_step(s[i], s));
}

/// Zero-bounce: an isolated shrinking ring whose radius crosses below zero
/// flips back to growing on that very tick, and its radius is negative for
/// at most that one tick — the next tick restores the pre-crossing value.
pub proof fn lemma_zero_bounce(s: Seq<Ring>, i: int)
    requires
        0 <= i < s.len(),
        s[i].direction is Shrinking,
        0 <= s[i].radius < s[i].growth_rate,
        s[i].growth_rate <= i64::MAX,
        isolated(s, i),
        isolated(step_set(s), i),
    ensures
        step_set(s)[i].radius < 0,
        step_set(s)[i].direction is Growing,
        step_set_n(s, 2)[i].radius == s[i].radius,
        step_set_n(s, 2)[i].radius >= 0,
        step_set_n(s, 2)[i].direction is Growing,
{
    lemma_isolated_no_hit(s, i);
    let t = step_set(s);
    assert(t[i] == ring_after_step(s[i], s));
    lemma_isolated_no_hit(t, i);
    assert(step_set(t)[i] == ring_after_step(t[i], t));
    assert(step_set_n(s, 1) == step_set(step_set_n(s, 0)));
    assert(step_set_n(s, 2) == step_set(t));
}

} // verus!
