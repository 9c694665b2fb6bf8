//! The state of a game.
pub mod gamestate;
