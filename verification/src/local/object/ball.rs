//! The ball.
use vstd::prelude::*;

use crate::arith::{clamp_i32, is_nearest_root, nearest_root, round_div, scaled_step};
use crate::frame::{field_point, in_disk, paint_disk, painted, screen_bytes, shaded};
use crate::rng::{random_range_i32, random_ratio};
use crate::shared::object::ball::{at_serve_speed, lemma_nearest_root_at_speed, BALL_ACCELERATION, BALL_RADIUS, SERVE_SPEED};
use crate::{HEIGHT, WIDTH};

verus! {

/// The ball: its centre in pixels, its speeds in millionths of a pixel per
/// millisecond.
#[derive(Clone, Copy, Debug)]
pub struct Ball {
    pub radius: u8,
    pub x: i32,
    pub y: i32,
    pub vx: i32,
    pub vy: i32,
    pub acceleration: i32,
}

/// How far, in whole pixels, a ball moving at `v` travels in `delta`
/// milliseconds: rounded to the nearest pixel and held to the range of `i32`.
pub open spec fn travel(v: int, delta: int) -> int {
    clamp_i32(round_div(v * delta, 1_000_000))
}

impl Ball {
    /// Whether this is the ball served at horizontal speed `vx`, heading
    /// down the field (`heads`) or up it: at the centre, with speed
    /// `SERVE_SPEED` split between the axes (the vertical part rounded to
    /// the nearest integer).
    pub open spec fn is_served(self, vx: int, heads: bool) -> bool {
        &&& self.radius == BALL_RADIUS
        &&& self.x == WIDTH / 2
        &&& self.y == HEIGHT / 2
        &&& self.acceleration == BALL_ACCELERATION
        &&& self.vx == vx
        &&& is_nearest_root(SERVE_SPEED * SERVE_SPEED - vx * vx, if heads { self.vy as int } else { -self.vy })
    }

    /// Whether this is a freshly served ball, whichever way it was served.
    pub open spec fn is_fresh(self) -> bool {
        &&& -SERVE_SPEED <= self.vx <= SERVE_SPEED
        &&& (self.is_served(self.vx as int, true) || self.is_served(self.vx as int, false))
    }

    /// The ball served at horizontal speed `vx`, down the field when
    /// `heads` holds and up it otherwise.
    pub fn served(vx: i32, heads: bool) -> (b: Ball)
        requires
            -SERVE_SPEED <= vx <= SERVE_SPEED,
        ensures
            b.is_served(vx as int, heads),
            b.is_fresh(),
            at_serve_speed(b.vx as int, b.vy as int),
    {
        proof {
            crate::arith::lemma_square_bound(vx as int, SERVE_SPEED as int);
        }
        let sq: i64 = (vx as i64) * (vx as i64);
        let n: u64 = (SERVE_SPEED as i64 * SERVE_SPEED as i64 - sq) as u64;
        let s = nearest_root(n);
        proof {
            lemma_nearest_root_at_speed(vx as int, n as int, s as int);
        }
        let vy: i32 = if heads { s as i32 } else { -(s as i32) };
        Ball {
            radius: BALL_RADIUS,
            x: (WIDTH / 2) as i32,
            y: (HEIGHT / 2) as i32,
            vx,
            vy,
            acceleration: BALL_ACCELERATION,
        }
    }

    /// A new ball at the centre, served in a random direction at speed
    /// `SERVE_SPEED`.
    pub fn new() -> (b: Ball)
        ensures
            b.is_fresh(),
            at_serve_speed(b.vx as int, b.vy as int),
    {
        let vx = random_range_i32(-SERVE_SPEED, SERVE_SPEED);
        let heads = random_ratio(1, 2);
        Ball::served(vx, heads)
    }

    /// The ball after `delta` milliseconds of flight.
    pub open spec fn moved(self, delta: int) -> Ball {
        Ball {
            x: clamp_i32(self.x + travel(self.vx as int, delta)) as i32,
            y: clamp_i32(self.y + travel(self.vy as int, delta)) as i32,
            ..self
        }
    }

    /// Moves the ball along its velocity for `delta` milliseconds.
    pub fn update(&mut self, delta: u128)
        ensures
            *final(self) == old(self).moved(delta as int),
    {
        let sx = scaled_step(self.vx as i64, delta, true, 1_000_000);
        let sy = scaled_step(self.vy as i64, delta, true, 1_000_000);
        let tx = self.x as i64 + sx as i64;
        let ty = self.y as i64 + sy as i64;
        self.x = crate::arith::clamp_to_i32(tx);
        self.y = crate::arith::clamp_to_i32(ty);
    }

    /// The frame with the ball drawn on it: the disk of the ball, each
    /// point with the red and blue that `shades` gives for its squared
    /// distance from the centre, and full green and alpha.
    pub open spec fn drawn(self, frame: Seq<u8>, shades: Seq<[u8; 2]>) -> Seq<u8> {
        painted(frame, in_disk(self.x as int, self.y as int, self.radius as int), shaded(self.x as int, self.y as int, shades), false)
    }

    /// Draws the ball.
    pub fn draw(&self, frame: &mut [u8], shades: &Vec<[u8; 2]>)
        requires
            old(frame)@.len() >= screen_bytes(),
            shades@.len() > self.radius * self.radius,
        ensures
            final(frame)@ == self.drawn(old(frame)@, shades@),
            forall|i: int|
                0 <= i < screen_bytes() && (i % 4 == 1 || i % 4 == 3) && in_disk(
                    self.x as int,
                    self.y as int,
                    self.radius as int,
                )(field_point(i, false).0, field_point(i, false).1) ==> #[trigger] final(frame)@[i] == 255,
    {
        paint_disk(frame, self.x as i64, self.y as i64, self.radius as i64, shades, false);
    }
}

} // verus!
