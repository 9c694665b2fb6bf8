//! The state of a networked game and the rules that advance it.
use vstd::prelude::*;

use crate::arith::{clamp_i32, clamp_to_i32, neg_sat, sign, to_i32_wrapping, to_pixels, trunc_div, wrap_i32};
use crate::physics::{contact, spec_contact, box_in_range, probe_in_range, Contact, PaddleBox, Probe};
use crate::shared::coordinates::Coordinate;
use crate::shared::input::GameInput;
use crate::shared::object::ball::Ball;
use crate::shared::object::paddle::{initial_paddles, Paddle};
use crate::shared::object::wall::{initial_walls, Wall};
use crate::shared::object::Objects;
use crate::{HEIGHT, WIDTH};

verus! {

/// Where a game stands.
#[derive(Clone, Copy, Debug, PartialEq, Eq, Structural)]
pub enum Status {
    Paused,
    Running,
    Reset,
    Exit,
}

impl Default for Status {
    /// A game starts paused.
    fn default() -> (s: Status)
        ensures
            s == Status::Paused,
    {
        Status::Paused
    }
}

/// A game: its status, the player this copy of the state belongs to (zero
/// for a game played on one machine) and everything on the playfield.
pub struct GameState {
    pub status: Status,
    pub player_id: u8,
    pub objects: Objects,
}

/// The mathematical value of a `GameState`.
#[verifier::ext_equal]
pub struct GameView {
    pub status: Status,
    pub player_id: u8,
    pub ball: Ball,
    pub paddles: Seq<Paddle>,
    pub walls: Seq<Wall>,
}

impl View for GameState {
    type V = GameView;

    open spec fn view(&self) -> GameView {
        GameView {
            status: self.status,
            player_id: self.player_id,
            ball: self.objects.ball,
            paddles: self.objects.paddles@,
            walls: self.objects.walls@,
        }
    }
}

/// The ball as the contact test sees it: its centre in whole pixels
/// (rounded toward zero) and its radius.
pub open spec fn probe_of(ball: Ball) -> Probe {
    Probe {
        x: trunc_div(ball.position.x as int, 1000) as i64,
        y: trunc_div(ball.position.y as int, 1000) as i64,
        r: ball.radius as i64,
    }
}

/// The ball after meeting the walls, and whether it met one. A ball that
/// reaches the bottom wall turns upward and is put back against it, one
/// that reaches the top wall turns and is put back against it, and
/// likewise with the right and the left wall. Each wall puts the ball back
/// from where the ball stood before any wall was tested.
pub open spec fn bounced_off_walls(ball: Ball) -> (Ball, bool) {
    let p = probe_of(ball);
    let x0 = ball.position.x;
    let y0 = ball.position.y;
    let bottom = p.y + p.r >= HEIGHT - 10;
    let top = p.y - p.r <= 10;
    let right = p.x + p.r >= WIDTH - 10;
    let left = p.x - p.r <= 10;
    let b1 = if bottom {
        Ball {
            vy: if ball.vy > 0 { -ball.vy } else { ball.vy as int } as i32,
            position: Coordinate { x: x0, y: ((HEIGHT - 10 - p.r) * 1000) as i32 },
            ..ball
        }
    } else {
        ball
    };
    let b2 = if top {
        Ball {
            vy: clamp_i32(-b1.vy) as i32,
            position: Coordinate { x: x0, y: ((10 + p.r) * 1000) as i32 },
            ..b1
        }
    } else {
        b1
    };
    let b3 = if right {
        Ball {
            vx: clamp_i32(-b2.vx) as i32,
            position: Coordinate { x: ((WIDTH - 10 - p.r) * 1000) as i32, y: y0 },
            ..b2
        }
    } else {
        b2
    };
    let b4 = if left {
        Ball {
            vx: clamp_i32(-b3.vx) as i32,
            position: Coordinate { x: ((10 + p.r) * 1000) as i32, y: y0 },
            ..b3
        }
    } else {
        b3
    };
    (b4, bottom || top || right || left)
}

/// The paddle pushed back between the side walls: a paddle whose left edge
/// reaches the left wall is put against it, and one whose right edge
/// reaches the right wall is put against that one (which wins).
pub open spec fn kept_between_walls(p: Paddle) -> Paddle {
    let left = trunc_div(p.position.x as int, 1000);
    let right = left + wrap_i32(p.width);
    let l1 = if left <= 10 { 10 } else { left };
    let l2 = if right >= WIDTH - 10 { WIDTH - 10 - p.width } else { l1 };
    Paddle { position: Coordinate { x: clamp_i32(l2 * 1000) as i32, y: p.position.y }, ..p }
}

/// The paddle as the contact test sees it, in whole pixels: `top` is the
/// row of its position, `bot` that row plus its height, and it guards the
/// bottom edge when it stands in the lower half of the field.
pub open spec fn box_of(p: Paddle) -> PaddleBox {
    let top = trunc_div(p.position.y as int, 1000);
    let left = trunc_div(p.position.x as int, 1000);
    PaddleBox {
        top: top as i64,
        bot: (top + wrap_i32(p.height)) as i64,
        left: left as i64,
        right: (left + wrap_i32(p.width)) as i64,
        is_bottom: top > HEIGHT / 2,
    }
}

/// The ball after a contact.
pub open spec fn struck(ball: Ball, c: Contact) -> Ball {
    match c {
        Contact::Miss => ball,
        Contact::Face(y) => Ball {
            vy: clamp_i32(-ball.vy) as i32,
            position: Coordinate { x: ball.position.x, y: clamp_i32(y * 1000) as i32 },
            ..ball
        },
        Contact::Left(x) => Ball {
            vx: clamp_i32(-ball.vx) as i32,
            position: Coordinate { x: clamp_i32(x * 1000) as i32, y: ball.position.y },
            ..ball
        },
        Contact::Right(x) => Ball {
            vx: clamp_i32(-ball.vx) as i32,
            position: Coordinate { x: clamp_i32(x * 1000) as i32, y: ball.position.y },
            ..ball
        },
        Contact::Corner => Ball { vx: clamp_i32(-ball.vy) as i32, vy: clamp_i32(-ball.vx) as i32, ..ball },
    }
}

/// The ball after meeting each paddle in turn, tested from where the ball
/// stood at the start of the tick, and whether it met any.
pub open spec fn paddle_pass(p: Probe, boxes: Seq<PaddleBox>, ball: Ball) -> (Ball, bool)
    decreases boxes.len(),
{
    if boxes.len() == 0 {
        (ball, false)
    } else {
        let (b, hit) = paddle_pass(p, boxes.drop_last(), ball);
        let c = spec_contact(p, boxes.last());
        (struck(b, c), hit || c != Contact::Miss)
    }
}

/// The ball after a bounce has sped it up: each non-zero speed grows by
/// the ball's acceleration, keeping its direction.
pub open spec fn sped_up(ball: Ball) -> Ball {
    Ball {
        vx: if ball.vx != 0 { clamp_i32(ball.vx + ball.acceleration * sign(ball.vx as int)) as i32 } else { ball.vx },
        vy: if ball.vy != 0 { clamp_i32(ball.vy + ball.acceleration * sign(ball.vy as int)) as i32 } else { ball.vy },
        ..ball
    }
}

/// The paddles of a game after they have been kept between the walls.
pub open spec fn kept_paddles(paddles: Seq<Paddle>) -> Seq<Paddle> {
    paddles.map_values(|q: Paddle| kept_between_walls(q))
}

/// The game after the collision step of a tick of `delta` milliseconds:
/// the ball meets the walls, the paddles are kept between the walls, the
/// ball meets the paddles; after any bounce the ball moves on for `delta`
/// milliseconds and speeds up.
pub open spec fn after_collision(v: GameView, delta: int) -> GameView {
    let p = probe_of(v.ball);
    let (b4, hit_walls) = bounced_off_walls(v.ball);
    let paddles = kept_paddles(v.paddles);
    let boxes = paddles.map_values(|q: Paddle| box_of(q));
    let (b5, hit_paddles) = paddle_pass(p, boxes, b4);
    let ball = if hit_walls || hit_paddles { sped_up(b5.moved(delta)) } else { b5 };
    GameView { ball, paddles, ..v }
}

/// A tick of play: a running game moves its ball and then resolves
/// collisions; a game that is not running stays as it is.
pub open spec fn after_update(v: GameView, delta: int) -> GameView {
    if v.status == Status::Running {
        after_collision(GameView { ball: v.ball.moved(delta), ..v }, delta)
    } else {
        v
    }
}

/// The paddle moved by a player who holds the left key (`left`) and/or the
/// right key (`right`): left first, then right.
pub open spec fn driven(p: Paddle, left: bool, right: bool, delta: int) -> Paddle {
    let a = if left { p.shifted_left(delta) } else { p };
    if right { a.shifted_right(delta) } else { a }
}

/// The paddle moved by a player who sees the field upside down: the left
/// key moves it right, then the right key moves it left.
pub open spec fn driven_mirrored(p: Paddle, left: bool, right: bool, delta: int) -> Paddle {
    let a = if left { p.shifted_right(delta) } else { p };
    if right { a.shifted_left(delta) } else { a }
}

/// A paddle that did not move this tick loses its extra speed.
pub open spec fn settled(p: Paddle, moved: bool) -> Paddle {
    if moved { p } else { Paddle { acceleration: 0, ..p } }
}

/// The status chosen by the controls of a running game.
pub open spec fn status_after_input(input: GameInput) -> Status {
    if input.quit_game {
        Status::Exit
    } else if input.pause_toggled {
        Status::Paused
    } else {
        Status::Running
    }
}

/// The game after the controls of a tick of `delta` milliseconds. On one
/// machine (player zero) the first player's keys drive the first paddle and
/// the second player's keys the second; on a networked copy, the local
/// player's keys drive that player's paddle, mirrored for the second
/// player (the local player's paddle is only touched while one of the
/// first player's keys is held). A paddle that did not move loses its extra
/// speed. Pausing and quitting act last. A game that is not running ignores
/// the controls.
pub open spec fn after_input(v: GameView, input: GameInput, delta: int) -> GameView {
    if v.status != Status::Running {
        v
    } else {
        let ps = v.paddles;
        let moved1 = input.p1_left_pressed || input.p1_right_pressed;
        let moved2 = input.p2_left_pressed || input.p2_right_pressed;
        let k = v.player_id - 1;
        let ps1 = if v.player_id == 0 {
            ps.update(0, driven(ps[0], input.p1_left_pressed, input.p1_right_pressed, delta)).update(
                1,
                driven(ps[1], input.p2_left_pressed, input.p2_right_pressed, delta),
            )
        } else if !moved1 {
            ps
        } else if k == 0 {
            ps.update(0, driven(ps[0], input.p1_left_pressed, input.p1_right_pressed, delta))
        } else {
            ps.update(k, driven_mirrored(ps[k], input.p1_left_pressed, input.p1_right_pressed, delta))
        };
        let m1 = if v.player_id == 0 { moved1 } else { k == 0 && moved1 };
        let m2 = if v.player_id == 0 { moved2 } else { k != 0 && moved1 };
        let ps2 = ps1.update(0, settled(ps1[0], m1)).update(1, settled(ps1[1], m2));
        GameView { status: status_after_input(input), paddles: ps2, ..v }
    }
}

/// Whether the paddles of `v` are the ones a game starts with.
pub open spec fn starts_fresh(v: GameView) -> bool {
    &&& v.paddles == initial_paddles()
    &&& v.walls == initial_walls()
    &&& v.ball.is_fresh()
}

/// The paddle kept between the walls.
fn keep_between_walls(p: Paddle) -> (q: Paddle)
    ensures
        q == kept_between_walls(p),
{
    let (px, py) = p.position.get_cartesian();
    let left0: i64 = to_pixels(px) as i64;
    let right: i64 = left0 + to_i32_wrapping(p.width) as i64;
    let mut left = left0;
    if left <= 10 {
        left = 10;
    }
    if right >= (WIDTH - 10) as i64 {
        left = (WIDTH - 10) as i64 - p.width as i64;
    }
    Paddle { position: Coordinate::from_cartesian(clamp_to_i32(left * 1000), py), ..p }
}

/// The paddle's box for the contact test.
fn paddle_box(p: &Paddle) -> (b: PaddleBox)
    ensures
        b == box_of(*p),
        box_in_range(b),
{
    let (px, py) = p.position.get_cartesian();
    let top: i64 = to_pixels(py) as i64;
    let left: i64 = to_pixels(px) as i64;
    PaddleBox {
        top,
        bot: top + to_i32_wrapping(p.height) as i64,
        left,
        right: left + to_i32_wrapping(p.width) as i64,
        is_bottom: top > (HEIGHT / 2) as i64,
    }
}

/// The ball after a contact.
fn strike(ball: Ball, c: Contact) -> (b: Ball)
    requires
        c is Face ==> -0x2_0000_0000 <= c->Face_0 <= 0x2_0000_0000,
        c is Left ==> -0x2_0000_0000 <= c->Left_0 <= 0x2_0000_0000,
        c is Right ==> -0x2_0000_0000 <= c->Right_0 <= 0x2_0000_0000,
    ensures
        b == struck(ball, c),
{
    match c {
        Contact::Miss => ball,
        Contact::Face(y) => Ball {
            vy: neg_sat(ball.vy),
            position: Coordinate::from_cartesian(ball.position.x, clamp_to_i32(y * 1000)),
            ..ball
        },
        Contact::Left(x) => Ball {
            vx: neg_sat(ball.vx),
            position: Coordinate::from_cartesian(clamp_to_i32(x * 1000), ball.position.y),
            ..ball
        },
        Contact::Right(x) => Ball {
            vx: neg_sat(ball.vx),
            position: Coordinate::from_cartesian(clamp_to_i32(x * 1000), ball.position.y),
            ..ball
        },
        Contact::Corner => Ball { vx: neg_sat(ball.vy), vy: neg_sat(ball.vx), ..ball },
    }
}

/// The ball sped up after a bounce.
fn speed_up(ball: Ball) -> (b: Ball)
    ensures
        b == sped_up(ball),
{
    let accn = ball.acceleration as i64;
    let mut b = ball;
    if b.vx != 0 {
        let s: i64 = if b.vx > 0 { 1 } else { -1 };
        b.vx = clamp_to_i32(b.vx as i64 + accn * s);
    }
    if b.vy != 0 {
        let s: i64 = if b.vy > 0 { 1 } else { -1 };
        b.vy = clamp_to_i32(b.vy as i64 + accn * s);
    }
    b
}

impl GameState {
    /// A new game for player `id` (zero for a game played on one machine):
    /// paused, with the paddles and walls of a two-player game and a freshly
    /// served ball.
    pub fn new(id: u8) -> (gs: GameState)
        ensures
            gs@.status == Status::Paused,
            gs@.player_id == id,
            starts_fresh(gs@),
    {
        GameState {
            status: Status::Paused,
            player_id: id,
            objects: Objects { paddles: Paddle::new(2), ball: Ball::new(), walls: Wall::new(2) },
        }
    }

    /// A tick of `delta` milliseconds: a running game moves its ball and
    /// resolves collisions.
    pub fn update(&mut self, delta: u128)
        ensures
            final(self)@ == after_update(old(self)@, delta as int),
    {
        if self.status == Status::Running {
            self.objects.ball.update(delta);
            self.collision(delta);
        }
    }

    /// Applies the controls of a tick of `delta` milliseconds.
    pub fn handle_input(&mut self, input: &GameInput, delta: u128)
        requires
            old(self).status == Status::Running ==> {
                &&& old(self).objects.paddles.len() >= 2
                &&& (input.p1_left_pressed || input.p1_right_pressed) ==> old(self).player_id
                    <= old(self).objects.paddles.len()
            },
        ensures
            final(self)@ == after_input(old(self)@, *input, delta as int),
    {
        if let Status::Running = self.status {
            let mut paddle1_movement = false;
            let mut paddle2_movement = false;

            if self.player_id == 0 {
                let mut p0 = self.objects.paddles[0];
                if input.p1_left_pressed {
                    p0.left_shift(delta);
                    paddle1_movement = true;
                }
                if input.p1_right_pressed {
                    p0.right_shift(delta);
                    paddle1_movement = true;
                }
                self.objects.paddles.set(0, p0);
                let mut p1 = self.objects.paddles[1];
                if input.p2_left_pressed {
                    p1.left_shift(delta);
                    paddle2_movement = true;
                }
                if input.p2_right_pressed {
                    p1.right_shift(delta);
                    paddle2_movement = true;
                }
                self.objects.paddles.set(1, p1);
            } else {
                let local_idx = (self.player_id - 1) as usize;
                let mut local_movement = false;
                if input.p1_left_pressed || input.p1_right_pressed {
                    let mut p = self.objects.paddles[local_idx];
                    if local_idx == 0 {
                        if input.p1_left_pressed {
                            p.left_shift(delta);
                            local_movement = true;
                        }
                        if input.p1_right_pressed {
                            p.right_shift(delta);
                            local_movement = true;
                        }
                    } else {
                        if input.p1_left_pressed {
                            p.right_shift(delta);
                            local_movement = true;
                        }
                        if input.p1_right_pressed {
                            p.left_shift(delta);
                            local_movement = true;
                        }
                    }
                    self.objects.paddles.set(local_idx, p);
                }
                if local_idx == 0 {
                    paddle1_movement = local_movement;
                } else {
                    paddle2_movement = local_movement;
                }
            }

            if !paddle1_movement {
                let mut p = self.objects.paddles[0];
                p.acceleration = 0;
                self.objects.paddles.set(0, p);
            }
            if !paddle2_movement {
                let mut p = self.objects.paddles[1];
                p.acceleration = 0;
                self.objects.paddles.set(1, p);
            }

            if input.pause_toggled {
                self.status = Status::Paused;
            } else {
                self.status = Status::Running;
            }

            if input.quit_game {
                self.status = Status::Exit;
            }
        }
    }

    /// Reads the pause control while the game is paused: the game stays
    /// paused while pause is toggled on, and runs otherwise.
    pub fn check_paused(&mut self, input: &GameInput)
        ensures
            final(self)@ == (GameView {
                status: if input.pause_toggled { Status::Paused } else { Status::Running },
                ..old(self)@
            }),
    {
        if input.pause_toggled {
            self.status = Status::Paused;
        } else {
            self.status = Status::Running;
        }
    }

    /// Puts the paddles, the ball and the walls back as a new game has them
    /// and marks the game as reset.
    pub fn reset(&mut self)
        ensures
            final(self)@.status == Status::Reset,
            final(self)@.player_id == old(self)@.player_id,
            starts_fresh(final(self)@),
    {
        self.objects.paddles = Paddle::new(2);
        self.objects.ball = Ball::new();
        self.objects.walls = Wall::new(2);
        self.status = Status::Reset;
    }

    /// The collision step of a tick of `delta` milliseconds.
    pub fn collision(&mut self, delta: u128)
        ensures
            final(self)@ == after_collision(old(self)@, delta as int),
    {
        let ghost v0 = self@;
        let mut collision = false;
        let (ball_x_f, ball_y_f) = self.objects.ball.position.get_cartesian();
        let ball_x = to_pixels(ball_x_f) as i64;
        let ball_y = to_pixels(ball_y_f) as i64;
        let ball_radius = self.objects.ball.radius as i64;
        let ball_s = ball_y + ball_radius;
        let ball_n = ball_y - ball_radius;
        let ball_e = ball_x + ball_radius;
        let ball_w = ball_x - ball_radius;

        if ball_s >= (HEIGHT - 10) as i64 {
            let vy = self.objects.ball.vy;
            self.objects.ball.vy = if vy > 0 { -vy } else { vy };
            self.objects.ball.position = Coordinate::from_cartesian(
                ball_x_f,
                (((HEIGHT - 10) as i64 - ball_radius) * 1000) as i32,
            );
            collision = true;
        }
        if ball_n <= 10 {
            self.objects.ball.vy = neg_sat(self.objects.ball.vy);
            self.objects.ball.position = Coordinate::from_cartesian(
                ball_x_f,
                ((10 + ball_radius) * 1000) as i32,
            );
            collision = true;
        }
        if ball_e >= (WIDTH - 10) as i64 {
            self.objects.ball.vx = neg_sat(self.objects.ball.vx);
            self.objects.ball.position = Coordinate::from_cartesian(
                (((WIDTH - 10) as i64 - ball_radius) * 1000) as i32,
                ball_y_f,
            );
            collision = true;
        }
        if ball_w <= 10 {
            self.objects.ball.vx = neg_sat(self.objects.ball.vx);
            self.objects.ball.position = Coordinate::from_cartesian(
                ((10 + ball_radius) * 1000) as i32,
                ball_y_f,
            );
            collision = true;
        }
        assert(self.objects.ball == bounced_off_walls(v0.ball).0);
        assert(collision == bounced_off_walls(v0.ball).1);

        let n = self.objects.paddles.len();
        let mut i: usize = 0;
        while i < n
            invariant
                n == self.objects.paddles.len(),
                0 <= i <= n,
                self.objects.ball == bounced_off_walls(v0.ball).0,
                n == v0.paddles.len(),
                forall|j: int| 0 <= j < i ==> self.objects.paddles@[j] == kept_between_walls(v0.paddles[j]),
                forall|j: int| i <= j < n ==> self.objects.paddles@[j] == v0.paddles[j],
                self.status == v0.status,
                self.player_id == v0.player_id,
                self.objects.walls@ == v0.walls,
            decreases n - i,
        {
            let p = keep_between_walls(self.objects.paddles[i]);
            self.objects.paddles.set(i, p);
            i = i + 1;
        }
        let ghost paddles = kept_paddles(v0.paddles);
        assert(self.objects.paddles@ =~= paddles);

        let mut paddle_data: Vec<PaddleBox> = Vec::new();
        let mut i: usize = 0;
        while i < n
            invariant
                n == self.objects.paddles.len(),
                0 <= i <= n,
                paddle_data@ =~= self.objects.paddles@.take(i as int).map_values(|q: Paddle| box_of(q)),
                forall|j: int| 0 <= j < i ==> box_in_range(#[trigger] paddle_data@[j]),
            decreases n - i,
        {
            let b = paddle_box(&self.objects.paddles[i]);
            paddle_data.push(b);
            assert(self.objects.paddles@.take(i + 1) =~= self.objects.paddles@.take(i as int).push(
                self.objects.paddles@[i as int],
            ));
            i = i + 1;
        }
        let ghost boxes = paddles.map_values(|q: Paddle| box_of(q));
        assert(self.objects.paddles@.take(n as int) =~= self.objects.paddles@);
        assert(paddle_data@ =~= boxes);

        let probe = Probe { x: ball_x, y: ball_y, r: ball_radius };
        assert(probe == probe_of(v0.ball));
        let ghost b4 = bounced_off_walls(v0.ball).0;
        let mut hit = false;
        let mut i: usize = 0;
        while i < n
            invariant
                n == paddle_data.len(),
                0 <= i <= n,
                probe_in_range(probe),
                forall|j: int| 0 <= j < n ==> box_in_range(#[trigger] paddle_data@[j]),
                (self.objects.ball, hit) == paddle_pass(probe, paddle_data@.take(i as int), b4),
                self.objects.paddles@ == paddles,
                self.status == v0.status,
                self.player_id == v0.player_id,
                self.objects.walls@ == v0.walls,
            decreases n - i,
        {
            let c = contact(&probe, &paddle_data[i]);
            proof {
                assert(paddle_data@.take(i + 1).drop_last() =~= paddle_data@.take(i as int));
                assert(paddle_data@.take(i + 1).last() == paddle_data@[i as int]);
            }
            self.objects.ball = strike(self.objects.ball, c);
            if c != Contact::Miss {
                hit = true;
            }
            i = i + 1;
        }
        assert(paddle_data@.take(n as int) =~= paddle_data@);
        assert((self.objects.ball, hit) == paddle_pass(probe_of(v0.ball), boxes, b4));
        assert(self.objects.paddles@ == paddles);
        if collision || hit {
            self.objects.ball.update(delta);
            self.objects.ball = speed_up(self.objects.ball);
        }
        assert(self@ =~= after_collision(v0, delta as int));
    }
}

} // verus!
