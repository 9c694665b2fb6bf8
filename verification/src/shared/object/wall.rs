//! The walls around the playfield.
use vstd::prelude::*;

use crate::arith::{to_pixels, trunc_div};
use crate::frame::{in_rect, paint_rect, painted, screen_bytes, solid};
use crate::shared::coordinates::Coordinate;
use crate::{HEIGHT, WIDTH};

verus! {

/// Thickness of the walls in pixels.
pub const WALL_THICKNESS: u32 = 10;

/// The colour of the walls.
pub const WALL_COLOR: [u8; 4] = [200, 235, 255, 255];

/// A wall: its top-left corner (in thousandths of a pixel) and its size in
/// pixels.
#[derive(Clone, Copy, Debug)]
pub struct Wall {
    pub position: Coordinate,
    pub height: u32,
    pub width: u32,
    pub critical: bool,
}

/// The four walls of a two-player game: bottom, right, top and left.
pub open spec fn initial_walls() -> Seq<Wall> {
    seq![
        Wall {
            position: Coordinate { x: 0, y: ((HEIGHT - WALL_THICKNESS) * 1000) as i32 },
            height: WALL_THICKNESS,
            width: WIDTH,
            critical: false,
        },
        Wall {
            position: Coordinate { x: ((WIDTH - WALL_THICKNESS) * 1000) as i32, y: 0 },
            height: HEIGHT,
            width: WALL_THICKNESS,
            critical: false,
        },
        Wall { position: Coordinate { x: 0, y: 0 }, height: WALL_THICKNESS, width: WIDTH, critical: false },
        Wall { position: Coordinate { x: 0, y: 0 }, height: HEIGHT, width: WALL_THICKNESS, critical: false },
    ]
}

impl Wall {
    /// The walls for a game of `players` players.
    pub fn new(players: u8) -> (w: [Wall; 4])
        requires
            players == 2,
        ensures
            w@ == initial_walls(),
    {
        let w = [
            Wall {
                position: Coordinate::from_cartesian(0, ((HEIGHT - WALL_THICKNESS) * 1000) as i32),
                height: WALL_THICKNESS,
                width: WIDTH,
                critical: false,
            },
            Wall {
                position: Coordinate::from_cartesian(((WIDTH - WALL_THICKNESS) * 1000) as i32, 0),
                height: HEIGHT,
                width: WALL_THICKNESS,
                critical: false,
            },
            Wall {
                position: Coordinate::from_cartesian(0, 0),
                height: WALL_THICKNESS,
                width: WIDTH,
                critical: false,
            },
            Wall {
                position: Coordinate::from_cartesian(0, 0),
                height: HEIGHT,
                width: WALL_THICKNESS,
                critical: false,
            },
        ];
        assert(w@ =~= initial_walls());
        w
    }

    /// The frame with the wall drawn on it for player `viewer_id` (player 2
    /// sees the field turned half a turn).
    pub open spec fn drawn(self, frame: Seq<u8>, viewer_id: u8) -> Seq<u8> {
        let x = trunc_div(self.position.x as int, 1000);
        let y = trunc_div(self.position.y as int, 1000);
        painted(frame, in_rect(x, y, self.width as int, self.height as int), solid(WALL_COLOR), viewer_id == 2)
    }

    /// Draws the wall for player `viewer_id`.
    pub fn draw(&self, frame: &mut [u8], viewer_id: u8)
        requires
            old(frame)@.len() >= screen_bytes(),
        ensures
            final(frame)@ == self.drawn(old(frame)@, viewer_id),
    {
        let (x, y) = self.position.get_cartesian();
        paint_rect(
            frame,
            to_pixels(x) as i64,
            to_pixels(y) as i64,
            self.width as i64,
            self.height as i64,
            WALL_COLOR,
            viewer_id == 2,
        );
    }
}

} // verus!
