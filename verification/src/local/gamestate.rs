//! The state of a local game and the rules that advance it.
use vstd::prelude::*;

use crate::keys::Key;
use crate::local::object::ball::Ball;
use crate::local::object::paddle::{initial_paddles, Paddle};
use crate::local::object::wall::{initial_walls, Wall};
use crate::local::object::Objects;
use crate::local::systems::collision::{after_collision, CollisionSystem};
use crate::local::systems::input::Input;

pub use crate::shared::state::gamestate::Status;

verus! {

/// A local game: its status, its number of players and everything on the
/// playfield.
pub struct GameState {
    pub status: Status,
    pub players: u8,
    pub objects: Objects,
}

/// The mathematical value of a local `GameState`.
#[verifier::ext_equal]
pub struct LocalView {
    pub status: Status,
    pub players: u8,
    pub ball: Ball,
    pub paddles: Seq<Paddle>,
    pub walls: Seq<Wall>,
}

impl View for GameState {
    type V = LocalView;

    open spec fn view(&self) -> LocalView {
        LocalView {
            status: self.status,
            players: self.players,
            ball: self.objects.ball,
            paddles: self.objects.paddles@,
            walls: self.objects.walls@,
        }
    }
}

/// Whether the playfield of `v` is the one a game starts with, `ball` aside.
pub open spec fn field_fresh(v: LocalView) -> bool {
    &&& v.paddles == initial_paddles()
    &&& v.walls == initial_walls()
}

/// The game started over with the ball `serve`: the paddles and walls as
/// at the start, the status `Reset`.
pub open spec fn restarted(v: LocalView, serve: Ball) -> LocalView {
    LocalView { status: Status::Reset, ball: serve, paddles: initial_paddles(), walls: initial_walls(), ..v }
}

/// The paddle moved by a player who holds the left key (`left`) and/or the
/// right key (`right`): left first, then right.
pub open spec fn driven(p: Paddle, left: bool, right: bool, delta: int) -> Paddle {
    let a = if left { p.shifted_left(delta) } else { p };
    if right { a.shifted_right(delta) } else { a }
}

/// A paddle that did not move this tick loses its extra speed.
pub open spec fn settled(p: Paddle, moved: bool) -> Paddle {
    if moved { p } else { Paddle { acceleration: 0, ..p } }
}

/// The game after the keyboard of a tick of `delta` milliseconds: A and D
/// drive the first paddle, the arrows the second; a paddle that did not
/// move loses its extra speed; the space toggle pauses the game. A game
/// that is not running ignores the keyboard.
pub open spec fn after_keys(v: LocalView, pressed: Set<Key>, toggled: Set<Key>, delta: int) -> LocalView {
    if v.status != Status::Running {
        v
    } else {
        let l1 = pressed.contains(Key::KeyA);
        let r1 = pressed.contains(Key::KeyD);
        let l2 = pressed.contains(Key::ArrowLeft);
        let r2 = pressed.contains(Key::ArrowRight);
        let p0 = settled(driven(v.paddles[0], l1, r1, delta), l1 || r1);
        let p1 = settled(driven(v.paddles[1], l2, r2, delta), l2 || r2);
        LocalView {
            status: if toggled.contains(Key::Space) { Status::Paused } else { Status::Running },
            paddles: v.paddles.update(0, p0).update(1, p1),
            ..v
        }
    }
}

impl GameState {
    /// A new local game for two players: paused, with a freshly served ball.
    pub fn new() -> (gs: GameState)
        ensures
            gs@.status == Status::Paused,
            gs@.players == 2,
            field_fresh(gs@),
            gs@.ball.is_fresh(),
    {
        GameState {
            status: Status::Paused,
            players: 2,
            objects: Objects { paddles: Paddle::new(2), ball: Ball::new(), walls: Wall::new(2) },
        }
    }

    /// A tick of `delta` milliseconds: the ball moves, then collisions are
    /// resolved. Whatever ball a restart serves, the game is the one
    /// `after_collision` gives with that ball.
    pub fn update(&mut self, delta: u128)
        ensures
            exists|serve: Ball|
                serve.is_fresh() && final(self)@ == after_collision(
                    LocalView { ball: old(self)@.ball.moved(delta as int), ..old(self)@ },
                    delta as int,
                    serve,
                ),
    {
        self.objects.ball.update(delta);
        self.collision(delta);
    }

    /// Applies the keyboard of a tick of `delta` milliseconds.
    pub fn handle_input(&mut self, input: &Input, delta: u128)
        requires
            old(self).status == Status::Running ==> old(self).objects.paddles.len() >= 2,
        ensures
            final(self)@ == after_keys(old(self)@, input.pressed@, input.toggled@, delta as int),
    {
        if let Status::Running = self.status {
            let mut paddle1_movement = false;
            let mut paddle2_movement = false;
            let mut p0 = self.objects.paddles[0];
            let mut p1 = self.objects.paddles[1];
            if input.pressed.contains(&Key::KeyA) {
                p0.left_shift(delta);
                paddle1_movement = true;
            }
            if input.pressed.contains(&Key::KeyD) {
                p0.right_shift(delta);
                paddle1_movement = true;
            }
            if input.pressed.contains(&Key::ArrowLeft) {
                p1.left_shift(delta);
                paddle2_movement = true;
            }
            if input.pressed.contains(&Key::ArrowRight) {
                p1.right_shift(delta);
                paddle2_movement = true;
            }
            if !paddle1_movement {
                p0.acceleration = 0;
            }
            if !paddle2_movement {
                p1.acceleration = 0;
            }
            self.objects.paddles.set(0, p0);
            self.objects.paddles.set(1, p1);
            if input.toggled.contains(&Key::Space) {
                self.status = Status::Paused;
            } else {
                self.status = Status::Running;
            }
        }
    }

    /// Reads the pause toggle while the game is paused: the game stays
    /// paused while the toggle is on, and runs otherwise.
    pub fn check_paused(&mut self, input: &Input)
        ensures
            final(self)@ == (LocalView {
                status: if input.toggled@.contains(Key::Space) { Status::Paused } else { Status::Running },
                ..old(self)@
            }),
    {
        if input.toggled.contains(&Key::Space) {
            self.status = Status::Paused;
        } else {
            self.status = Status::Running;
        }
    }

    /// Starts the game over with the ball `serve`.
    pub fn restart_with(&mut self, serve: Ball)
        ensures
            final(self)@ == restarted(old(self)@, serve),
    {
        self.objects.paddles = Paddle::new(2);
        self.objects.ball = serve;
        self.objects.walls = Wall::new(2);
        self.status = Status::Reset;
    }

    /// Starts the game over with a freshly served ball.
    pub fn reset(&mut self)
        ensures
            exists|serve: Ball| serve.is_fresh() && final(self)@ == restarted(old(self)@, serve),
    {
        let serve = Ball::new();
        self.restart_with(serve);
    }

    /// The collision step of a tick of `delta` milliseconds.
    pub fn collision(&mut self, delta: u128)
        ensures
            exists|serve: Ball| serve.is_fresh() && final(self)@ == after_collision(old(self)@, delta as int, serve),
    {
        CollisionSystem::collision(self, delta);
    }
}

} // verus!
