//! A paddle.
use vstd::prelude::*;

use crate::arith::{clamp_i32, clamp_to_i32, to_i32_wrapping, to_pixels, trunc_div, wrap_i32};
use crate::frame::{in_rect, paint_rect, painted, screen_bytes, solid};
use crate::shared::coordinates::Coordinate;
use crate::{HEIGHT, WIDTH};

verus! {

/// Base speed of a paddle, in thousandths of a pixel per millisecond.
pub const PADDLE_SPEED: i32 = 300;

/// How much each tick of steady movement adds to a paddle's extra speed.
pub const PADDLE_ACCELERATION_STEP: i32 = 10;

/// A paddle: its top-left corner (in thousandths of a pixel), its size in
/// pixels, and its extra speed (thousandths of a pixel per millisecond,
/// negative to the left).
#[derive(Clone, Copy, Debug)]
pub struct Paddle {
    pub position: Coordinate,
    pub height: u32,
    pub width: u32,
    pub acceleration: i32,
}

/// The column at which both paddles start, in thousandths of a pixel.
pub open spec fn start_column() -> i32 {
    (((WIDTH - WIDTH / 15) / 2) * 1000) as i32
}

/// The paddles of a two-player game as they stand at the start: the first
/// along the bottom edge, the second along the top edge, both centred.
pub open spec fn initial_paddles() -> Seq<Paddle> {
    seq![
        Paddle {
            position: Coordinate { x: start_column(), y: ((HEIGHT - HEIGHT / 30) * 1000) as i32 },
            height: HEIGHT / 60,
            width: WIDTH / 15,
            acceleration: 0,
        },
        Paddle {
            position: Coordinate { x: start_column(), y: ((HEIGHT / 60) * 1000) as i32 },
            height: HEIGHT / 60,
            width: WIDTH / 15,
            acceleration: 0,
        },
    ]
}

/// The rightmost column at which the left edge of a paddle of width `width`
/// stays on screen (zero at least), in thousandths of a pixel.
pub open spec fn max_column(width: u32) -> int {
    let room = WIDTH - wrap_i32(width);
    1000 * (if room > 0 { room } else { 0 })
}

impl Paddle {
    /// The paddles for a game of `players` players.
    pub fn new(players: u8) -> (v: Vec<Paddle>)
        requires
            players == 2,
        ensures
            v@ == initial_paddles(),
    {
        let col = ((WIDTH - WIDTH / 15) / 2) as i32 * 1000;
        let mut v: Vec<Paddle> = Vec::new();
        v.push(
            Paddle {
                position: Coordinate::from_cartesian(col, (HEIGHT - HEIGHT / 30) as i32 * 1000),
                height: HEIGHT / 60,
                width: WIDTH / 15,
                acceleration: 0,
            },
        );
        v.push(
            Paddle {
                position: Coordinate::from_cartesian(col, (HEIGHT / 60) as i32 * 1000),
                height: HEIGHT / 60,
                width: WIDTH / 15,
                acceleration: 0,
            },
        );
        assert(v@ =~= initial_paddles());
        v
    }

    /// The paddle after a tick of `delta` milliseconds of moving left: a
    /// paddle that was speeding right loses that speed first; it moves
    /// left by its base speed plus its extra speed, stopping at the left
    /// edge of the screen; its extra speed to the left then grows by a step.
    pub open spec fn shifted_left(self, delta: int) -> Paddle {
        let acc = if self.acceleration > 0 { 0 } else { self.acceleration as int };
        let x = self.position.x - (PADDLE_SPEED - acc) * delta;
        Paddle {
            position: Coordinate { x: (if x > 0 { x } else { 0 }) as i32, y: self.position.y },
            acceleration: clamp_i32(acc - PADDLE_ACCELERATION_STEP) as i32,
            ..self
        }
    }

    /// The paddle after a tick of `delta` milliseconds of moving right:
    /// the mirror of `shifted_left`, stopping where the paddle's right edge
    /// meets the right edge of the screen.
    pub open spec fn shifted_right(self, delta: int) -> Paddle {
        let acc = if self.acceleration < 0 { 0 } else { self.acceleration as int };
        let x = self.position.x + (PADDLE_SPEED + acc) * delta;
        let x0 = if x > 0 { x } else { 0 };
        let x1 = if x0 < max_column(self.width) { x0 } else { max_column(self.width) };
        Paddle {
            position: Coordinate { x: clamp_i32(x1) as i32, y: self.position.y },
            acceleration: clamp_i32(acc + PADDLE_ACCELERATION_STEP) as i32,
            ..self
        }
    }

    /// Moves the paddle left for a tick of `delta` milliseconds.
    pub fn left_shift(&mut self, delta: u128)
        ensures
            *final(self) == old(self).shifted_left(delta as int),
    {
        if self.acceleration > 0 {
            self.acceleration = 0;
        }
        let (x, y) = self.position.get_cartesian();
        let speed: u128 = (PADDLE_SPEED as i64 - self.acceleration as i64) as u128;
        let new_x: i32 = match speed.checked_mul(delta) {
            None => 0,
            Some(shift) => {
                if shift >= x as i128 as u128 || x <= 0 {
                    0
                } else {
                    (x as i128 - shift as i128) as i32
                }
            },
        };
        proof {
            let sh = speed * delta;
            if speed.checked_mul(delta) is None {
                assert(sh > u128::MAX);
            }
            assert(speed * delta >= 0) by (nonlinear_arith) requires speed >= 0, delta >= 0;
        }
        self.position = Coordinate::from_cartesian(new_x, y);
        self.acceleration = clamp_to_i32(self.acceleration as i64 - PADDLE_ACCELERATION_STEP as i64);
    }

    /// Moves the paddle right for a tick of `delta` milliseconds.
    pub fn right_shift(&mut self, delta: u128)
        ensures
            *final(self) == old(self).shifted_right(delta as int),
    {
        if self.acceleration < 0 {
            self.acceleration = 0;
        }
        let (x, y) = self.position.get_cartesian();
        let room: i64 = WIDTH as i64 - to_i32_wrapping(self.width) as i64;
        let max_x: i64 = if room > 0 { room * 1000 } else { 0 };
        let speed: u128 = (PADDLE_SPEED as i64 + self.acceleration as i64) as u128;
        let x1: i64 = match speed.checked_mul(delta) {
            None => max_x,
            Some(shift) => {
                if shift >= max_x as u128 + 0x8000_0000 {
                    max_x
                } else {
                    let x0: i64 = x as i64 + shift as i64;
                    let x0 = if x0 > 0 { x0 } else { 0 };
                    if x0 < max_x { x0 } else { max_x }
                }
            },
        };
        proof {
            let sh = speed * delta;
            if speed.checked_mul(delta) is None {
                assert(sh > u128::MAX);
            }
            assert(speed * delta >= 0) by (nonlinear_arith) requires speed >= 0, delta >= 0;
        }
        self.position = Coordinate::from_cartesian(clamp_to_i32(x1), y);
        self.acceleration = clamp_to_i32(self.acceleration as i64 + PADDLE_ACCELERATION_STEP as i64);
    }

    /// The frame with the paddle drawn on it in `color` for player
    /// `viewer_id` (player 2 sees the field turned half a turn): the
    /// rectangle from its position, in whole pixels, of its width and height.
    pub open spec fn drawn(self, frame: Seq<u8>, viewer_id: u8, color: [u8; 4]) -> Seq<u8> {
        let x = trunc_div(self.position.x as int, 1000);
        let y = trunc_div(self.position.y as int, 1000);
        painted(frame, in_rect(x, y, self.width as int, self.height as int), solid(color), viewer_id == 2)
    }

    /// Draws the paddle in `color` for player `viewer_id`.
    pub fn draw(&self, frame: &mut [u8], viewer_id: u8, color: [u8; 4])
        requires
            old(frame)@.len() >= screen_bytes(),
        ensures
            final(frame)@ == self.drawn(old(frame)@, viewer_id, color),
    {
        let (x, y) = self.position.get_cartesian();
        paint_rect(
            frame,
            to_pixels(x) as i64,
            to_pixels(y) as i64,
            self.width as i64,
            self.height as i64,
            color,
            viewer_id == 2,
        );
    }
}

} // verus!
