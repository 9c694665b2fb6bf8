//! A paddle, placed by its shift from the centre line.
use vstd::prelude::*;

use crate::arith::{clamp_i32, clamp_to_i32, scaled_step, trunc_div};
use crate::frame::{in_rect, paint_rect, painted, screen_bytes, solid};
use crate::shared::object::paddle::{PADDLE_ACCELERATION_STEP, PADDLE_SPEED};
use crate::{HEIGHT, WIDTH};

verus! {

/// A paddle: which player it belongs to, how far (in pixels, positive to
/// the right) its centre stands from the centre line, its size in pixels,
/// and its extra speed (thousandths of a pixel per millisecond, negative to
/// the left).
#[derive(Clone, Copy, Debug)]
pub struct Paddle {
    pub id: u8,
    pub shift: i32,
    pub height: u32,
    pub width: u32,
    pub acceleration: i32,
}

/// The paddles of a two-player game as they stand at the start.
pub open spec fn initial_paddles() -> Seq<Paddle> {
    seq![
        Paddle { id: 0, shift: 0, height: HEIGHT / 60, width: WIDTH / 15, acceleration: 0 },
        Paddle { id: 1, shift: 0, height: HEIGHT / 60, width: WIDTH / 15, acceleration: 0 },
    ]
}

impl Paddle {
    /// The paddles for a game of `players` players.
    pub fn new(players: u8) -> (v: Vec<Paddle>)
        requires
            players == 2,
        ensures
            v@ == initial_paddles(),
    {
        let mut v: Vec<Paddle> = Vec::new();
        v.push(Paddle { id: 0, shift: 0, height: HEIGHT / 60, width: WIDTH / 15, acceleration: 0 });
        v.push(Paddle { id: 1, shift: 0, height: HEIGHT / 60, width: WIDTH / 15, acceleration: 0 });
        assert(v@ =~= initial_paddles());
        v
    }

    /// The column of the paddle's centre.
    pub open spec fn centre_x(self) -> int {
        clamp_i32(WIDTH / 2 + self.shift)
    }

    /// The centre of the paddle on the field as the collision test sees it:
    /// player 1 guards the bottom edge, any other player the top edge.
    pub open spec fn spec_global_coordinates(self, player_id: u8) -> (int, int) {
        let y = if player_id == 1 { HEIGHT - self.height - 10 } else { self.height + 10 };
        (self.centre_x(), clamp_i32(y))
    }

    /// The centre of the paddle on the field as the collision test sees it.
    pub fn global_coordinates(&self, player_id: u8) -> (r: (i32, i32))
        ensures
            r.0 == self.spec_global_coordinates(player_id).0,
            r.1 == self.spec_global_coordinates(player_id).1,
    {
        let x = clamp_to_i32((WIDTH / 2) as i64 + self.shift as i64);
        let y: i64 = if player_id == 1 {
            HEIGHT as i64 - self.height as i64 - 10
        } else {
            self.height as i64 + 10
        };
        (x, clamp_to_i32(y))
    }

    /// The row of the paddle's centre as drawn for the player who sees the
    /// field upright: paddle 0 near the top edge, any other near the bottom.
    pub open spec fn spec_y_coordinate(self) -> int {
        let reach = HEIGHT / 2 - 10 - (HEIGHT / 60) / 2;
        if self.id == 0 { HEIGHT / 2 - reach } else { HEIGHT / 2 + reach }
    }

    fn y_coordinate(&self) -> (r: i32)
        ensures
            r == self.spec_y_coordinate(),
    {
        let paddle_thick: u32 = HEIGHT / 60;
        let wall_offset: u32 = 10;
        let multiplier: i32 = if self.id == 0 { -1 } else { 1 };
        (HEIGHT / 2) as i32 + (multiplier * (HEIGHT / 2 - wall_offset - paddle_thick / 2) as i32)
    }

    /// The centre of the paddle as drawn for `player_id`: player 0 sees the
    /// field turned half a turn.
    pub open spec fn spec_local_coordinates(self, player_id: u8) -> (int, int) {
        let x = self.centre_x();
        let y = self.spec_y_coordinate();
        if player_id == 0 { (clamp_i32(WIDTH - x), HEIGHT - y) } else { (x, y) }
    }

    /// The centre of the paddle as drawn for `player_id`.
    pub fn local_coordinates(&self, player_id: u8) -> (r: (i32, i32))
        ensures
            r.0 == self.spec_local_coordinates(player_id).0,
            r.1 == self.spec_local_coordinates(player_id).1,
    {
        let x = clamp_to_i32((WIDTH / 2) as i64 + self.shift as i64);
        let y = self.y_coordinate();
        if player_id == 0 {
            (clamp_to_i32(WIDTH as i64 - x as i64), (HEIGHT as i32) - y)
        } else {
            (x, y)
        }
    }

    /// The paddle after a tick of `delta` milliseconds of moving left: a
    /// paddle that was speeding right loses that speed first; its shift
    /// drops by its base speed plus its extra speed (rounded toward zero to
    /// whole pixels); its extra speed to the left then grows by a step.
    pub open spec fn shifted_left(self, delta: int) -> Paddle {
        let acc = if self.acceleration > 0 { 0 } else { self.acceleration as int };
        let step = clamp_i32(trunc_div((-PADDLE_SPEED + acc) * delta, 1000));
        Paddle {
            shift: clamp_i32(self.shift + step) as i32,
            acceleration: clamp_i32(acc - PADDLE_ACCELERATION_STEP) as i32,
            ..self
        }
    }

    /// The paddle after a tick of `delta` milliseconds of moving right: the
    /// mirror of `shifted_left`.
    pub open spec fn shifted_right(self, delta: int) -> Paddle {
        let acc = if self.acceleration < 0 { 0 } else { self.acceleration as int };
        let step = clamp_i32(trunc_div((PADDLE_SPEED + acc) * delta, 1000));
        Paddle {
            shift: clamp_i32(self.shift + step) as i32,
            acceleration: clamp_i32(acc + PADDLE_ACCELERATION_STEP) as i32,
            ..self
        }
    }

    /// Moves the paddle left for a tick of `delta` milliseconds.
    pub fn left_shift(&mut self, delta: u128)
        ensures
            *final(self) == old(self).shifted_left(delta as int),
    {
        if self.acceleration > 0 {
            self.acceleration = 0;
        }
        let step = scaled_step(-(PADDLE_SPEED as i64) + self.acceleration as i64, delta, false, 1000);
        self.shift = clamp_to_i32(self.shift as i64 + step as i64);
        self.acceleration = clamp_to_i32(self.acceleration as i64 - PADDLE_ACCELERATION_STEP as i64);
    }

    /// Moves the paddle right for a tick of `delta` milliseconds.
    pub fn right_shift(&mut self, delta: u128)
        ensures
            *final(self) == old(self).shifted_right(delta as int),
    {
        if self.acceleration < 0 {
            self.acceleration = 0;
        }
        let step = scaled_step(PADDLE_SPEED as i64 + self.acceleration as i64, delta, false, 1000);
        self.shift = clamp_to_i32(self.shift as i64 + step as i64);
        self.acceleration = clamp_to_i32(self.acceleration as i64 + PADDLE_ACCELERATION_STEP as i64);
    }

    /// The colour of the paddle: green for paddle 0, red for any other.
    pub open spec fn color(self) -> [u8; 4] {
        if self.id == 0 { [100, 255, 100, 255] } else { [255, 100, 100, 255] }
    }

    /// The frame with the paddle drawn on it for player `viewer_id`: the
    /// rectangle around the centre that `local_coordinates` gives, as wide
    /// and as high as the paddle (each rounded down to an even number).
    pub open spec fn drawn(self, frame: Seq<u8>, viewer_id: u8) -> Seq<u8> {
        let (x, y) = self.spec_local_coordinates(viewer_id);
        let hw = self.width / 2;
        let hh = self.height / 2;
        painted(frame, in_rect(x - hw, y - hh, 2 * hw, 2 * hh), solid(self.color()), false)
    }

    /// Draws the paddle for player `viewer_id`.
    pub fn draw(&self, viewer_id: u8, frame: &mut [u8])
        requires
            old(frame)@.len() >= screen_bytes(),
        ensures
            final(frame)@ == self.drawn(old(frame)@, viewer_id),
    {
        let (x, y) = self.local_coordinates(viewer_id);
        let half_w: i64 = (self.width / 2) as i64;
        let half_h: i64 = (self.height / 2) as i64;
        let color: [u8; 4] = if self.id == 0 { [100, 255, 100, 255] } else { [255, 100, 100, 255] };
        paint_rect(frame, x as i64 - half_w, y as i64 - half_h, 2 * half_w, 2 * half_h, color, false);
    }
}

} // verus!
