//! The systems that act on a local game.
pub mod collision;
pub mod input;
pub mod render;
