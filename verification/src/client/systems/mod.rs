//! The systems of the client.
pub mod input;
pub mod render;
