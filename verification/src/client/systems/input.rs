//! The keyboard as the client reads it.
use vstd::prelude::*;

use crate::keys::{toggled, Key, KeySet};
use crate::shared::input::GameInput;

verus! {

/// The keys held down, and the keys whose toggle is on.
pub struct Input {
    pub pressed: KeySet,
    pub toggled: KeySet,
}

impl Input {
    /// No key held and no toggle on.
    pub fn new() -> (i: Input)
        ensures
            i.pressed@ == Set::<Key>::empty(),
            i.toggled@ == Set::<Key>::empty(),
    {
        Input { pressed: KeySet::new(), toggled: KeySet::new() }
    }

    /// Records a key going down (`is_pressed`) or up. Releasing a key flips
    /// its toggle; a key is held while it is down.
    pub fn get_inputs(&mut self, key: &Key, is_pressed: bool)
        ensures
            final(self).toggled@ == if is_pressed {
                old(self).toggled@
            } else {
                toggled(old(self).toggled@, *key)
            },
            final(self).pressed@ == if is_pressed {
                old(self).pressed@.insert(*key)
            } else {
                old(self).pressed@.remove(*key)
            },
    {
        if !is_pressed {
            if self.toggled.contains(key) {
                self.toggled.remove(key);
            } else {
                self.toggled.insert(*key);
            }
        }
        if is_pressed {
            self.pressed.insert(*key);
        } else {
            self.pressed.remove(key);
        }
    }

    /// The controls the keyboard gives the local player: A or the left
    /// arrow moves left, D or the right arrow moves right, the space toggle
    /// pauses.
    pub open spec fn to_game_input_spec(&self) -> GameInput {
        GameInput {
            p1_left_pressed: self.pressed@.contains(Key::KeyA) || self.pressed@.contains(Key::ArrowLeft),
            p1_right_pressed: self.pressed@.contains(Key::KeyD) || self.pressed@.contains(Key::ArrowRight),
            p2_left_pressed: false,
            p2_right_pressed: false,
            pause_toggled: self.toggled@.contains(Key::Space),
            quit_game: false,
        }
    }

    /// The controls the keyboard gives the local player.
    pub fn to_game_input(&self) -> (g: GameInput)
        ensures
            g == self.to_game_input_spec(),
    {
        let left = self.pressed.contains(&Key::KeyA) || self.pressed.contains(&Key::ArrowLeft);
        let right = self.pressed.contains(&Key::KeyD) || self.pressed.contains(&Key::ArrowRight);
        GameInput {
            p1_left_pressed: left,
            p1_right_pressed: right,
            p2_left_pressed: false,
            p2_right_pressed: false,
            pause_toggled: self.toggled.contains(&Key::Space),
            quit_game: false,
        }
    }
}

} // verus!
