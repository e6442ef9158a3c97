//! The spawn decision of the presentation adapter.
//!
//! The host windowing layer reports the primary pointer button once per
//! tick as a level: up, or down at a point. A ring must spawn once per
//! physical press, not once per tick while the button stays held, so the
//! adapter keeps the last reported state and spawns only on the change that
//! ends in a pressed button. The decision itself is pure and lives here;
//! the adapter merely feeds it the two states and acts on the answer.

use vstd::prelude::*;

use crate::geometry::Point;

verus! {

/// The primary pointer button's state, as the host reports it each tick.
#[derive(Clone, Copy, Debug, PartialEq, Eq, Structural)]
pub enum ButtonState {
    Up,
    Down(Point),
}

/// Where a ring must spawn given the previous and the current button
/// state: at the pressed point when the state changed and the button is
/// now down, nowhere otherwise.
pub open spec fn press_edge_spec(last: ButtonState, now: ButtonState) -> Option<Point> {
    if last == now {
        None
    } else {
        match now {
            ButtonState::Down(p) => Some(p),
            ButtonState::Up => None,
        }
    }
}

/// Decides whether the transition from `last` to `now` is a press edge,
/// and where to spawn if it is. A button that stays down, even at the same
/// point, is no new press.
pub fn press_edge(last: &ButtonState, now: &ButtonState) -> (spawn_at: Option<Point>)
    ensures
        spawn_at == press_edge_spec(*last, *now),
{
    if *last == *now {
        None
    } else {
        match now {
            ButtonState::Down(p) => Some(*p),
            ButtonState::Up => None,
        }
    }
}

/// One spawn per recorded press edge: however many ticks a button stays
/// down at one point, only the tick on which the state first changed to
/// down spawns a ring.
pub proof fn lemma_one_spawn_per_press(last: ButtonState, now: ButtonState)
    requires
        last == now,
    ensures
        press_edge_spec(last, now) is None,
{
}

} // verus!
