//! The decisions of the client's loop.
use vstd::prelude::*;

use std::time::{Duration, Instant};

use crate::client::systems::input::Input;
use crate::shared::net::{client_msg_of, ClientMsg};
use crate::shared::state::gamestate::{after_input, status_after_input, GameState, Status};

verus! {

/// The pace of the client's loop: how long a tick lasts and when the game
/// was last advanced.
pub struct Gameloop {
    pub ticks: Duration,
    pub last_update: Instant,
}

/// What the client's loop does after a tick.
#[derive(Clone, Copy, Debug, PartialEq, Eq)]
pub enum ClientTick {
    /// The game is over: the loop stops.
    Stop,
    /// The game runs: send the server this message, then apply what the
    /// server sent.
    Sync(ClientMsg),
    /// The game does not run: nothing to exchange.
    Idle,
}

impl Gameloop {
    /// One tick of the client's loop on `state`, with the keyboard `input`
    /// and `delta` milliseconds since the last tick. A game that is over
    /// stops the loop; otherwise the local player's keys act, and a game
    /// still running sends its paddle's column to the server. The local
    /// player's paddle need exist only when the tick moves it or the game
    /// goes on running.
    pub fn step(state: &mut GameState, input: &Input, delta: u128) -> (t: ClientTick)
        requires
            old(state).status == Status::Running ==> {
                &&& old(state).objects.paddles.len() >= 2
                &&& (input.to_game_input_spec().p1_left_pressed || input.to_game_input_spec().p1_right_pressed)
                    ==> old(state).player_id <= old(state).objects.paddles.len()
                &&& status_after_input(input.to_game_input_spec()) == Status::Running ==> 1
                    <= old(state).player_id <= old(state).objects.paddles.len()
            },
        ensures
            old(state).status == Status::Exit ==> t == ClientTick::Stop && final(state)@ == old(state)@,
            old(state).status != Status::Exit ==> final(state)@ == after_input(
                old(state)@,
                input.to_game_input_spec(),
                delta as int,
            ),
            old(state).status != Status::Exit && final(state)@.status == Status::Running ==> t == ClientTick::Sync(
                client_msg_of(final(state)@),
            ),
            old(state).status != Status::Exit && final(state)@.status != Status::Running ==> t == ClientTick::Idle,
    {
        if let Status::Exit = state.status {
            return ClientTick::Stop;
        }
        let g = input.to_game_input();
        state.handle_input(&g, delta);
        if let Status::Running = state.status {
            ClientTick::Sync(state.client_msg())
        } else {
            ClientTick::Idle
        }
    }
}

} // verus!
