//! npong: the rules of a two-paddle pong game, verified with Verus.
//!
//! Positions that the game keeps with sub-pixel precision and all speeds are
//! fixed-point integers: the ball's speeds are counted in millionths of a
//! pixel per millisecond, the paddles' speeds in thousandths of a pixel per
//! millisecond, and a sub-pixel position in thousandths of a pixel.
use vstd::prelude::*;

pub mod arith;
pub mod client;
pub mod clock;
pub mod frame;
pub mod keys;
pub mod laws;
pub mod physics;
pub mod rng;
pub mod server;
pub mod local;
pub mod shared;

verus! {

/// Width of the playfield in pixels.
pub const WIDTH: u32 = 1200;

/// Height of the playfield in pixels.
pub const HEIGHT: u32 = 900;

} // verus!
