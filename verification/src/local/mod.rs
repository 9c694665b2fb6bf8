//! The game played by two players at one keyboard.
//!
//! Positions are whole pixels; the ball's speeds are in millionths of a
//! pixel per millisecond, the paddles' speeds in thousandths of a pixel per
//! millisecond.
pub mod gameloop;
pub mod gamestate;
pub mod object;
pub mod systems;
