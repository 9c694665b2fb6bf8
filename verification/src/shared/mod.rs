//! The networked version of the game, shared by the server and the clients.
//!
//! Positions are sub-pixel coordinates kept in thousandths of a pixel.
pub mod coordinates;
pub mod input;
pub mod net;
pub mod object;
pub mod state;
