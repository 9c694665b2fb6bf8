//! The decisions of the local game's loop.
use vstd::prelude::*;

use std::time::{Duration, Instant};

use crate::clock::{as_millis, duration_since, instant_now};
use crate::local::gamestate::{after_keys, GameState, LocalView, Status};
use crate::local::object::ball::Ball;
use crate::local::systems::collision::after_collision;
use crate::local::systems::input::Input;

verus! {

/// The pace of the loop: how long a tick lasts and when the game was last
/// advanced.
pub struct GameLoop {
    pub ticks: Duration,
    pub last_update: Instant,
}

/// What the loop does after a tick.
#[derive(Clone, Copy, Debug, PartialEq, Eq, Structural)]
pub enum TickOutcome {
    /// The game was played or held; the clock of the last update restarts.
    Advanced,
    /// The game is starting over: the loop waits a moment first.
    Restarting,
    /// The game is over: the loop stops.
    Exiting,
}

/// The game after a tick of play of `delta` milliseconds, with `serve` as
/// the ball of a restart.
pub open spec fn after_play(v: LocalView, input: Input, delta: int, serve: Ball) -> LocalView {
    let w = after_keys(v, input.pressed@, input.toggled@, delta);
    after_collision(LocalView { ball: w.ball.moved(delta), ..w }, delta, serve)
}

impl GameLoop {
    /// The whole milliseconds elapsed since the last update.
    pub fn get_delta(&self) -> u128 {
        let now = instant_now();
        let d = duration_since(&now, &self.last_update);
        as_millis(&d)
    }

    /// One tick of the loop on `state`, with the keyboard `input` and
    /// `delta` milliseconds since the last update. A running game reads the
    /// keyboard and plays a tick; a paused game reads the pause toggle; a
    /// game that was reset runs again after a wait; a game that is over
    /// stops the loop.
    pub fn step(state: &mut GameState, input: &Input, delta: u128) -> (t: TickOutcome)
        requires
            old(state).status == Status::Running ==> old(state).objects.paddles.len() >= 2,
        ensures
            old(state).status == Status::Running ==> {
                &&& t == TickOutcome::Advanced
                &&& exists|serve: Ball|
                    serve.is_fresh() && final(state)@ == after_play(old(state)@, *input, delta as int, serve)
            },
            old(state).status == Status::Paused ==> {
                &&& t == TickOutcome::Advanced
                &&& final(state)@ == (LocalView {
                    status: if input.toggled@.contains(crate::keys::Key::Space) {
                        Status::Paused
                    } else {
                        Status::Running
                    },
                    ..old(state)@
                })
            },
            old(state).status == Status::Reset ==> {
                &&& t == TickOutcome::Restarting
                &&& final(state)@ == (LocalView { status: Status::Running, ..old(state)@ })
            },
            old(state).status == Status::Exit ==> {
                &&& t == TickOutcome::Exiting
                &&& final(state)@ == old(state)@
            },
    {
        match state.status {
            Status::Running => {
                state.handle_input(input, delta);
                state.update(delta);
                TickOutcome::Advanced
            },
            Status::Paused => {
                state.check_paused(input);
                TickOutcome::Advanced
            },
            Status::Reset => {
                state.status = Status::Running;
                TickOutcome::Restarting
            },
            Status::Exit => TickOutcome::Exiting,
        }
    }
}

} // verus!
