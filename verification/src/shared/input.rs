//! The controls that a tick of the game reads.
use vstd::prelude::*;

verus! {

/// The state of the controls at one tick.
#[derive(Clone, Copy, Debug, PartialEq, Eq, Default)]
pub struct GameInput {
    pub p1_left_pressed: bool,
    pub p1_right_pressed: bool,
    pub p2_left_pressed: bool,
    pub p2_right_pressed: bool,
    pub pause_toggled: bool,
    pub quit_game: bool,
}

} // verus!
