//! The keyboard as the local game reads it.
use vstd::prelude::*;

use crate::keys::{toggled, Key, KeySet};

verus! {

/// The keys held down, and the keys whose toggle is on.
pub struct Input {
    pub pressed: KeySet,
    pub toggled: KeySet,
}

impl Input {
    /// No key held and no toggle on.
    pub fn new() -> (i: Input)
        ensures
            i.pressed@ == Set::<Key>::empty(),
            i.toggled@ == Set::<Key>::empty(),
    {
        Input { pressed: KeySet::new(), toggled: KeySet::new() }
    }

    /// Records a key going down (`is_pressed`) or up. Releasing the space
    /// bar flips its toggle; any other key is held while it is down.
    pub fn get_inputs(&mut self, key: &Key, is_pressed: bool)
        ensures
            *key == Key::Space ==> {
                &&& final(self).pressed@ == old(self).pressed@
                &&& final(self).toggled@ == if is_pressed {
                    old(self).toggled@
                } else {
                    toggled(old(self).toggled@, Key::Space)
                }
            },
            *key != Key::Space ==> {
                &&& final(self).toggled@ == old(self).toggled@
                &&& final(self).pressed@ == if is_pressed {
                    old(self).pressed@.insert(*key)
                } else {
                    old(self).pressed@.remove(*key)
                }
            },
    {
        match key {
            Key::Space => {
                if !is_pressed {
                    if self.toggled.contains(key) {
                        self.toggled.remove(&Key::Space);
                    } else {
                        self.toggled.insert(Key::Space);
                    }
                }
            },
            _ => {
                if is_pressed {
                    self.pressed.insert(*key);
                } else {
                    self.pressed.remove(key);
                }
            },
        }
    }
}

} // verus!
