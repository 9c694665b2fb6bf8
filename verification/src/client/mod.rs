//! The client of the networked game.
pub mod clientstate;
pub mod gameloop;
pub mod systems;
