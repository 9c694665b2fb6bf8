//! The client's own state.
use vstd::prelude::*;

use crate::shared::state::gamestate::{starts_fresh, GameState, Status};

verus! {

/// The game as a client holds it, and which player the client is.
pub struct ClientState {
    pub game: GameState,
    pub player_id: u8,
}

impl Default for ClientState {
    /// Player 1, with a new game.
    fn default() -> (s: ClientState)
        ensures
            s.player_id == 1,
            s.game@.player_id == 1,
            s.game@.status == Status::Paused,
            starts_fresh(s.game@),
    {
        ClientState { game: GameState::new(1), player_id: 1 }
    }
}

} // verus!
