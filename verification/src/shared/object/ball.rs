//! The ball.
use vstd::prelude::*;

use crate::arith::{clamp_i32, clamp_to_i32, is_nearest_root, nearest_root, round_div, scaled_step, to_pixels, trunc_div};
use crate::frame::{field_point, in_disk, paint_disk, painted, screen_bytes, shaded};
use crate::rng::{random_range_i32, random_ratio};
use crate::shared::coordinates::Coordinate;
use crate::{HEIGHT, WIDTH};

verus! {

/// Speed of a freshly served ball, in millionths of a pixel per millisecond.
pub const SERVE_SPEED: i32 = 500_000;

/// Radius of the ball in pixels.
pub const BALL_RADIUS: u8 = 10;

/// How much each bounce adds to the ball's speed along each axis.
pub const BALL_ACCELERATION: i32 = 10_000;

/// The ball. Its speeds are in millionths of a pixel per millisecond.
#[derive(Clone, Copy, Debug)]
pub struct Ball {
    pub radius: u8,
    pub position: Coordinate,
    pub vx: i32,
    pub vy: i32,
    pub acceleration: i32,
}

/// How far, in thousandths of a pixel, a ball moving at `v` (millionths of
/// a pixel per millisecond) travels in `delta` milliseconds: rounded to the
/// nearest thousandth and held to the range of `i32`.
pub open spec fn travel(v: int, delta: int) -> int {
    clamp_i32(round_div(v * delta, 1000))
}

/// The centre of the playfield.
pub open spec fn centre() -> Coordinate {
    Coordinate { x: 600_000, y: 450_000 }
}

/// Whether the speeds `vx` and `vy` make up the serve speed: the square
/// of the speed is within `SERVE_SPEED` of the square of `SERVE_SPEED`
/// (that is within 5e-7 square pixels per square millisecond).
pub open spec fn at_serve_speed(vx: int, vy: int) -> bool {
    SERVE_SPEED * SERVE_SPEED - SERVE_SPEED <= vx * vx + vy * vy <= SERVE_SPEED * SERVE_SPEED + SERVE_SPEED
}

/// Splitting the serve speed with the vertical part rounded to the nearest
/// integer keeps the serve speed.
pub proof fn lemma_nearest_root_at_speed(vx: int, n: int, s: int)
    requires
        -SERVE_SPEED <= vx <= SERVE_SPEED,
        n == SERVE_SPEED * SERVE_SPEED - vx * vx,
        is_nearest_root(n, s),
    ensures
        0 <= s <= SERVE_SPEED,
        at_serve_speed(vx, s),
        at_serve_speed(vx, -s),
{
    let big = SERVE_SPEED as int;
    assert(0 <= vx * vx <= big * big) by (nonlinear_arith)
        requires -big <= vx <= big;
    if s > big {
        vstd::arithmetic::mul::lemma_mul_upper_bound(big + 1, s, big, s - 1);
        assert(s * (s - 1) == s * s - s) by (nonlinear_arith);
        assert((big + 1) * big == big * big + big) by (nonlinear_arith);
    }
    assert((-s) * (-s) == s * s) by (nonlinear_arith);
}

impl Ball {
    /// Whether this is the ball served at horizontal speed `vx`, heading
    /// down the field (`heads`) or up it: at the centre, with speed
    /// `SERVE_SPEED` split between the axes (the vertical part rounded to
    /// the nearest integer).
    pub open spec fn is_served(self, vx: int, heads: bool) -> bool {
        &&& self.radius == BALL_RADIUS
        &&& self.position == centre()
        &&& self.acceleration == BALL_ACCELERATION
        &&& self.vx == vx
        &&& is_nearest_root(SERVE_SPEED * SERVE_SPEED - vx * vx, if heads { self.vy as int } else { -self.vy })
    }

    /// Whether this is a freshly served ball, whichever way it was served.
    pub open spec fn is_fresh(self) -> bool {
        &&& -SERVE_SPEED <= self.vx <= SERVE_SPEED
        &&& (self.is_served(self.vx as int, true) || self.is_served(self.vx as int, false))
    }

    /// The ball served at horizontal speed `vx`, down the field when
    /// `heads` holds and up it otherwise.
    pub fn served(vx: i32, heads: bool) -> (b: Ball)
        requires
            -SERVE_SPEED <= vx <= SERVE_SPEED,
        ensures
            b.is_served(vx as int, heads),
            b.is_fresh(),
            at_serve_speed(b.vx as int, b.vy as int),
    {
        proof {
            crate::arith::lemma_square_bound(vx as int, SERVE_SPEED as int);
        }
        let sq: i64 = (vx as i64) * (vx as i64);
        let n: u64 = (SERVE_SPEED as i64 * SERVE_SPEED as i64 - sq) as u64;
        let s = nearest_root(n);
        proof {
            lemma_nearest_root_at_speed(vx as int, n as int, s as int);
        }
        let vy: i32 = if heads { s as i32 } else { -(s as i32) };
        let position = Coordinate::from_cartesian((WIDTH / 2) as i32 * 1000, (HEIGHT / 2) as i32 * 1000);
        Ball { radius: BALL_RADIUS, position, vx, vy, acceleration: BALL_ACCELERATION }
    }

    /// A new ball at the centre, served in a random direction at speed
    /// `SERVE_SPEED`.
    pub fn new() -> (b: Ball)
        ensures
            b.is_fresh(),
            at_serve_speed(b.vx as int, b.vy as int),
    {
        let vx = random_range_i32(-SERVE_SPEED, SERVE_SPEED);
        let heads = random_ratio(1, 2);
        Ball::served(vx, heads)
    }

    /// The ball after `delta` milliseconds of flight: each coordinate moves
    /// by the speed times `delta`, rounded to the nearest thousandth of a
    /// pixel.
    pub open spec fn moved(self, delta: int) -> Ball {
        Ball {
            position: Coordinate {
                x: clamp_i32(self.position.x + travel(self.vx as int, delta)) as i32,
                y: clamp_i32(self.position.y + travel(self.vy as int, delta)) as i32,
            },
            ..self
        }
    }

    /// Moves the ball along its velocity for `delta` milliseconds.
    pub fn update(&mut self, delta: u128)
        ensures
            *final(self) == old(self).moved(delta as int),
    {
        let (tx, ty) = self.position.get_cartesian();
        let sx = scaled_step(self.vx as i64, delta, true, 1000);
        let sy = scaled_step(self.vy as i64, delta, true, 1000);
        let nx = clamp_to_i32(tx as i64 + sx as i64);
        let ny = clamp_to_i32(ty as i64 + sy as i64);
        self.position = Coordinate::from_cartesian(nx, ny);
    }

    /// The frame with the ball drawn on it for player `viewer_id` (player 2
    /// sees the field turned half a turn): the disk of the ball around its
    /// centre in whole pixels, each point with the red and blue that
    /// `shades` gives for its squared distance from the centre, and full
    /// green and alpha.
    pub open spec fn drawn(self, frame: Seq<u8>, viewer_id: u8, shades: Seq<[u8; 2]>) -> Seq<u8> {
        let cx = trunc_div(self.position.x as int, 1000);
        let cy = trunc_div(self.position.y as int, 1000);
        painted(frame, in_disk(cx, cy, self.radius as int), shaded(cx, cy, shades), viewer_id == 2)
    }

    /// Draws the ball for player `viewer_id`.
    pub fn draw(&self, frame: &mut [u8], viewer_id: u8, shades: &Vec<[u8; 2]>)
        requires
            old(frame)@.len() >= screen_bytes(),
            shades@.len() > self.radius * self.radius,
        ensures
            final(frame)@ == self.drawn(old(frame)@, viewer_id, shades@),
            forall|i: int|
                0 <= i < screen_bytes() && (i % 4 == 1 || i % 4 == 3) && in_disk(
                    trunc_div(self.position.x as int, 1000),
                    trunc_div(self.position.y as int, 1000),
                    self.radius as int,
                )(field_point(i, viewer_id == 2).0, field_point(i, viewer_id == 2).1) ==> #[trigger] final(frame)@[i] == 255,
    {
        let (x, y) = self.position.get_cartesian();
        let r = self.radius as i64;
        paint_disk(frame, to_pixels(x) as i64, to_pixels(y) as i64, r, shades, viewer_id == 2);
    }
}

} // verus!
