//! The walls around the playfield.
use vstd::prelude::*;

use crate::frame::{in_rect, paint_rect, painted, screen_bytes, solid};
use crate::shared::object::wall::{WALL_COLOR, WALL_THICKNESS};
use crate::{HEIGHT, WIDTH};

verus! {

/// A wall: its top-left corner and its size, in pixels.
#[derive(Clone, Copy, Debug)]
pub struct Wall {
    pub x: i32,
    pub y: i32,
    pub height: u32,
    pub width: u32,
}

/// The four walls of a two-player game: bottom, right, top and left.
pub open spec fn initial_walls() -> Seq<Wall> {
    seq![
        Wall { x: 0, y: (HEIGHT - WALL_THICKNESS) as i32, height: WALL_THICKNESS, width: WIDTH },
        Wall { x: (WIDTH - WALL_THICKNESS) as i32, y: 0, height: HEIGHT, width: WALL_THICKNESS },
        Wall { x: 0, y: 0, height: WALL_THICKNESS, width: WIDTH },
        Wall { x: 0, y: 0, height: HEIGHT, width: WALL_THICKNESS },
    ]
}

impl Wall {
    /// The walls for a game of `players` players.
    pub fn new(players: u8) -> (w: [Wall; 4])
        requires
            players == 2,
        ensures
            w@ == initial_walls(),
    {
        let w = [
            Wall { x: 0, y: (HEIGHT - WALL_THICKNESS) as i32, height: WALL_THICKNESS, width: WIDTH },
            Wall { x: (WIDTH - WALL_THICKNESS) as i32, y: 0, height: HEIGHT, width: WALL_THICKNESS },
            Wall { x: 0, y: 0, height: WALL_THICKNESS, width: WIDTH },
            Wall { x: 0, y: 0, height: HEIGHT, width: WALL_THICKNESS },
        ];
        assert(w@ =~= initial_walls());
        w
    }

    /// The frame with the wall drawn on it.
    pub open spec fn drawn(self, frame: Seq<u8>) -> Seq<u8> {
        painted(frame, in_rect(self.x as int, self.y as int, self.width as int, self.height as int), solid(WALL_COLOR), false)
    }

    /// Draws the wall.
    pub fn draw(&self, frame: &mut [u8])
        requires
            old(frame)@.len() >= screen_bytes(),
        ensures
            final(frame)@ == self.drawn(old(frame)@),
    {
        paint_rect(frame, self.x as i64, self.y as i64, self.width as i64, self.height as i64, WALL_COLOR, false);
    }
}

} // verus!
