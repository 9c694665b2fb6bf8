//! The things on the playfield.
use vstd::prelude::*;

pub mod ball;
pub mod paddle;
pub mod wall;

verus! {

/// Everything on the playfield: the ball, the paddles and the four walls.
pub struct Objects {
    pub ball: ball::Ball,
    pub paddles: Vec<paddle::Paddle>,
    pub walls: [wall::Wall; 4],
}

/// One thing on the playfield.
pub enum Object {
    Ball(ball::Ball),
    Paddle(paddle::Paddle),
    Wall(wall::Wall),
}

} // verus!
