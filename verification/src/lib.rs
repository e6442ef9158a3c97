//! A simulation of expanding and contracting rings on a 2D plane.
//!
//! Each ring grows outward from its spawn point until it detects a geometric
//! intersection with another ring, then reverses to shrinking, and reverses
//! again when its radius falls below zero. All lengths are integer
//! fixed-point values (the renderer chooses the on-screen scale), and the
//! intersection test compares squared distances, so every decision the
//! simulation makes is exact.

pub mod color;
pub mod geometry;
pub mod input;
pub mod ring;
pub mod ring_set;

pub use color::Rgb;
pub use geometry::Point;
pub use input::ButtonState;
pub use ring::{Ring, RingDirection};
pub use ring_set::RingSet;
