//! Collisions of the local game.
use vstd::prelude::*;

use crate::arith::{clamp_i32, clamp_to_i32, neg_sat, sign};
use crate::local::gamestate::{restarted, GameState, LocalView};
use crate::local::object::ball::Ball;
use crate::local::object::paddle::Paddle;
use crate::physics::{box_in_range, contact, probe_in_range, spec_contact, Contact, PaddleBox, Probe};
use crate::{HEIGHT, WIDTH};

verus! {

/// The collision rules of the local game.
pub struct CollisionSystem;

/// The ball as the contact test sees it.
pub open spec fn probe_of(ball: Ball) -> Probe {
    Probe { x: ball.x as i64, y: ball.y as i64, r: ball.radius as i64 }
}

/// The game after the ball has met the walls, and whether it met one. A
/// ball that reaches the bottom or the top wall ends the rally: the game
/// starts over with the ball `serve`. A ball that reaches the right or the
/// left wall turns and is put back against it.
pub open spec fn bounced_off_walls(v: LocalView, serve: Ball) -> (LocalView, bool) {
    let p = probe_of(v.ball);
    let bottom = p.y + p.r >= HEIGHT - 10;
    let top = p.y - p.r <= 10;
    let right = p.x + p.r >= WIDTH - 10;
    let left = p.x - p.r <= 10;
    let v1 = if bottom { restarted(v, serve) } else { v };
    let v2 = if top { restarted(v1, serve) } else { v1 };
    let v3 = if right {
        LocalView {
            ball: Ball { vx: clamp_i32(-v2.ball.vx) as i32, x: (WIDTH - 10 - p.r) as i32, ..v2.ball },
            ..v2
        }
    } else {
        v2
    };
    let v4 = if left {
        LocalView { ball: Ball { vx: clamp_i32(-v3.ball.vx) as i32, x: (10 + p.r) as i32, ..v3.ball }, ..v3 }
    } else {
        v3
    };
    (v4, bottom || top || right || left)
}

/// The paddle pushed back between the side walls: a paddle whose left end
/// reaches the left wall is put against it, and one whose right end
/// reaches the right wall is put against that one (which wins).
pub open spec fn kept_between_walls(p: Paddle) -> Paddle {
    let x = p.centre_x();
    let hw = p.width / 2;
    let s1 = if x - hw <= 10 { -(WIDTH / 2) + 10 + hw } else { p.shift as int };
    let s2 = if x + hw >= WIDTH - 10 { WIDTH / 2 - 10 - hw } else { s1 };
    Paddle { shift: s2 as i32, ..p }
}

/// The paddle at position `idx` as the contact test sees it: its box is
/// centred on the point `global_coordinates` gives for player `idx + 1`
/// (counted in `u8`), and it guards the bottom edge when that point lies in
/// the lower half of the field.
pub open spec fn box_of(p: Paddle, idx: int) -> PaddleBox {
    let player = if idx % 256 == 255 { 0u8 } else { (idx % 256 + 1) as u8 };
    let (x, y) = p.spec_global_coordinates(player);
    let hw = p.width / 2;
    let hh = p.height / 2;
    PaddleBox {
        top: (y + hh) as i64,
        bot: (y - hh) as i64,
        left: (x - hw) as i64,
        right: (x + hw) as i64,
        is_bottom: y > HEIGHT / 2,
    }
}

/// The ball after a contact.
pub open spec fn struck(ball: Ball, c: Contact) -> Ball {
    match c {
        Contact::Miss => ball,
        Contact::Face(y) => Ball { vy: clamp_i32(-ball.vy) as i32, y: clamp_i32(y as int) as i32, ..ball },
        Contact::Left(x) => Ball { vx: clamp_i32(-ball.vx) as i32, x: clamp_i32(x as int) as i32, ..ball },
        Contact::Right(x) => Ball { vx: clamp_i32(-ball.vx) as i32, x: clamp_i32(x as int) as i32, ..ball },
        Contact::Corner => Ball { vx: clamp_i32(-ball.vy) as i32, vy: clamp_i32(-ball.vx) as i32, ..ball },
    }
}

/// The ball after meeting each paddle in turn, tested from where the ball
/// stood at the start of the tick, and whether it met any.
pub open spec fn paddle_pass(p: Probe, boxes: Seq<PaddleBox>, ball: Ball) -> (Ball, bool)
    decreases boxes.len(),
{
    if boxes.len() == 0 {
        (ball, false)
    } else {
        let (b, hit) = paddle_pass(p, boxes.drop_last(), ball);
        let c = spec_contact(p, boxes.last());
        (struck(b, c), hit || c != Contact::Miss)
    }
}

/// The ball after a bounce has sped it up: each speed grows by the ball's
/// acceleration in its own direction. A speed of zero has no direction and
/// stays zero.
pub open spec fn sped_up(ball: Ball) -> Ball {
    Ball {
        vx: clamp_i32(ball.vx + ball.acceleration * sign(ball.vx as int)) as i32,
        vy: clamp_i32(ball.vy + ball.acceleration * sign(ball.vy as int)) as i32,
        ..ball
    }
}

/// The boxes of the paddles, in order.
pub open spec fn boxes_of(paddles: Seq<Paddle>) -> Seq<PaddleBox> {
    Seq::new(paddles.len(), |i: int| box_of(paddles[i], i))
}

/// The game after the collision step of a tick of `delta` milliseconds,
/// with `serve` as the ball of a restart: the ball meets the walls, the
/// paddles are kept between the walls, the ball meets the paddles; after
/// any contact the ball moves on for `delta` milliseconds and speeds up.
pub open spec fn after_collision(v: LocalView, delta: int, serve: Ball) -> LocalView {
    let p = probe_of(v.ball);
    let (v4, hit_walls) = bounced_off_walls(v, serve);
    let paddles = v4.paddles.map_values(|q: Paddle| kept_between_walls(q));
    let (b5, hit_paddles) = paddle_pass(p, boxes_of(paddles), v4.ball);
    let ball = if hit_walls || hit_paddles { sped_up(b5.moved(delta)) } else { b5 };
    LocalView { ball, paddles, ..v4 }
}

/// The paddle's box for the contact test.
fn paddle_box(p: &Paddle, idx: usize) -> (b: PaddleBox)
    ensures
        b == box_of(*p, idx as int),
        box_in_range(b),
{
    let player: u8 = if idx % 256 == 255 { 0 } else { (idx % 256 + 1) as u8 };
    let (x, y) = p.global_coordinates(player);
    let hw: i64 = (p.width / 2) as i64;
    let hh: i64 = (p.height / 2) as i64;
    PaddleBox {
        top: y as i64 + hh,
        bot: y as i64 - hh,
        left: x as i64 - hw,
        right: x as i64 + hw,
        is_bottom: y as i64 > (HEIGHT / 2) as i64,
    }
}

/// The ball after a contact.
fn strike(ball: Ball, c: Contact) -> (b: Ball)
    ensures
        b == struck(ball, c),
{
    match c {
        Contact::Miss => ball,
        Contact::Face(y) => Ball { vy: neg_sat(ball.vy), y: clamp_to_i32(y), ..ball },
        Contact::Left(x) => Ball { vx: neg_sat(ball.vx), x: clamp_to_i32(x), ..ball },
        Contact::Right(x) => Ball { vx: neg_sat(ball.vx), x: clamp_to_i32(x), ..ball },
        Contact::Corner => Ball { vx: neg_sat(ball.vy), vy: neg_sat(ball.vx), ..ball },
    }
}

/// The ball sped up after a bounce.
fn speed_up(ball: Ball) -> (b: Ball)
    ensures
        b == sped_up(ball),
{
    let accn = ball.acceleration as i64;
    let sx: i64 = if ball.vx > 0 { 1 } else if ball.vx < 0 { -1 } else { 0 };
    let sy: i64 = if ball.vy > 0 { 1 } else if ball.vy < 0 { -1 } else { 0 };
    Ball {
        vx: clamp_to_i32(ball.vx as i64 + accn * sx),
        vy: clamp_to_i32(ball.vy as i64 + accn * sy),
        ..ball
    }
}

impl CollisionSystem {
    /// The collision step of a tick of `delta` milliseconds, serving the
    /// ball `serve` if the rally ends.
    pub fn collide(state: &mut GameState, delta: u128, serve: Ball)
        ensures
            final(state)@ == after_collision(old(state)@, delta as int, serve),
    {
        let ghost v0 = state@;
        let mut collision = false;
        let ball_x = state.objects.ball.x as i64;
        let ball_y = state.objects.ball.y as i64;
        let ball_radius = state.objects.ball.radius as i64;
        let ball_s = ball_y + ball_radius;
        let ball_n = ball_y - ball_radius;
        let ball_e = ball_x + ball_radius;
        let ball_w = ball_x - ball_radius;

        if ball_s >= (HEIGHT - 10) as i64 {
            state.restart_with(serve);
            collision = true;
        }
        if ball_n <= 10 {
            state.restart_with(serve);
            collision = true;
        }
        if ball_e >= (WIDTH - 10) as i64 {
            state.objects.ball.vx = neg_sat(state.objects.ball.vx);
            state.objects.ball.x = ((WIDTH - 10) as i64 - ball_radius) as i32;
            collision = true;
        }
        if ball_w <= 10 {
            state.objects.ball.vx = neg_sat(state.objects.ball.vx);
            state.objects.ball.x = (10 + ball_radius) as i32;
            collision = true;
        }
        let ghost v4 = bounced_off_walls(v0, serve).0;
        assert(state@ =~= v4);
        assert(collision == bounced_off_walls(v0, serve).1);

        let n = state.objects.paddles.len();
        let mut i: usize = 0;
        while i < n
            invariant
                n == state.objects.paddles.len(),
                0 <= i <= n,
                n == v4.paddles.len(),
                forall|j: int| 0 <= j < i ==> state.objects.paddles@[j] == kept_between_walls(v4.paddles[j]),
                forall|j: int| i <= j < n ==> state.objects.paddles@[j] == v4.paddles[j],
                state.objects.ball == v4.ball,
                state.status == v4.status,
                state.players == v4.players,
                state.objects.walls@ == v4.walls,
            decreases n - i,
        {
            let mut p = state.objects.paddles[i];
            CollisionSystem::paddle_wall_collion(&mut p, i as u8);
            state.objects.paddles.set(i, p);
            i = i + 1;
        }
        let ghost paddles = v4.paddles.map_values(|q: Paddle| kept_between_walls(q));
        assert(state.objects.paddles@ =~= paddles);

        let mut paddle_data: Vec<PaddleBox> = Vec::new();
        let mut i: usize = 0;
        while i < n
            invariant
                n == state.objects.paddles.len(),
                0 <= i <= n,
                paddle_data@ =~= boxes_of(state.objects.paddles@).take(i as int),
                forall|j: int| 0 <= j < i ==> box_in_range(#[trigger] paddle_data@[j]),
            decreases n - i,
        {
            let b = paddle_box(&state.objects.paddles[i], i);
            paddle_data.push(b);
            i = i + 1;
        }
        let ghost boxes = boxes_of(paddles);
        assert(paddle_data@ =~= boxes);

        let probe = Probe { x: ball_x, y: ball_y, r: ball_radius };
        assert(probe == probe_of(v0.ball));
        let mut hit = false;
        let mut i: usize = 0;
        while i < n
            invariant
                n == paddle_data.len(),
                0 <= i <= n,
                probe_in_range(probe),
                forall|j: int| 0 <= j < n ==> box_in_range(#[trigger] paddle_data@[j]),
                (state.objects.ball, hit) == paddle_pass(probe, paddle_data@.take(i as int), v4.ball),
                state.objects.paddles@ == paddles,
                state.status == v4.status,
                state.players == v4.players,
                state.objects.walls@ == v4.walls,
            decreases n - i,
        {
            let c = contact(&probe, &paddle_data[i]);
            proof {
                assert(paddle_data@.take(i + 1).drop_last() =~= paddle_data@.take(i as int));
                assert(paddle_data@.take(i + 1).last() == paddle_data@[i as int]);
            }
            state.objects.ball = strike(state.objects.ball, c);
            if c != Contact::Miss {
                hit = true;
            }
            i = i + 1;
        }
        assert(paddle_data@.take(n as int) =~= paddle_data@);
        assert((state.objects.ball, hit) == paddle_pass(probe_of(v0.ball), boxes, v4.ball));
        if collision || hit {
            state.objects.ball.update(delta);
            state.objects.ball = speed_up(state.objects.ball);
        }
        assert(state@ =~= after_collision(v0, delta as int, serve));
    }

    /// The collision step of a tick of `delta` milliseconds: when the rally
    /// ends, a freshly served ball comes into play.
    pub fn collision(state: &mut GameState, delta: u128)
        ensures
            exists|serve: Ball| serve.is_fresh() && final(state)@ == after_collision(old(state)@, delta as int, serve),
    {
        let serve = Ball::new();
        CollisionSystem::collide(state, delta, serve);
    }

    /// Pushes the paddle back between the side walls.
    pub fn paddle_wall_collion(paddle: &mut Paddle, id: u8)
        ensures
            *final(paddle) == kept_between_walls(*old(paddle)),
    {
        let (x, _y) = paddle.global_coordinates(id);
        let hw: i64 = (paddle.width / 2) as i64;
        let left = x as i64 - hw;
        let right = x as i64 + hw;
        if left <= 10 {
            paddle.shift = (-((WIDTH / 2) as i64) + 10 + hw) as i32;
        }
        if right >= (WIDTH - 10) as i64 {
            paddle.shift = ((WIDTH / 2) as i64 - 10 - hw) as i32;
        }
    }
}

} // verus!
