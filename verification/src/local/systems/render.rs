//! Drawing the local game.
use vstd::prelude::*;

use crate::frame::{everywhere, gradient, paint_background, painted, screen_bytes};
use crate::local::gamestate::{GameState, LocalView};
use crate::local::object::paddle::Paddle;
use crate::local::object::wall::Wall;

verus! {

/// Draws the local game.
pub struct Render {}

/// The frame with the paddles drawn on it in turn, for player `viewer_id`.
pub open spec fn paddles_drawn(frame: Seq<u8>, paddles: Seq<Paddle>, viewer_id: u8) -> Seq<u8>
    decreases paddles.len(),
{
    if paddles.len() == 0 {
        frame
    } else {
        paddles.last().drawn(paddles_drawn(frame, paddles.drop_last(), viewer_id), viewer_id)
    }
}

/// The frame with the walls drawn on it in turn.
pub open spec fn walls_drawn(frame: Seq<u8>, walls: Seq<Wall>) -> Seq<u8>
    decreases walls.len(),
{
    if walls.len() == 0 {
        frame
    } else {
        walls.last().drawn(walls_drawn(frame, walls.drop_last()))
    }
}

/// The frame with the game drawn on it: the paddles as player 0 sees
/// them, then the ball, then the walls.
pub open spec fn scene_drawn(frame: Seq<u8>, v: LocalView, shades: Seq<[u8; 2]>) -> Seq<u8> {
    walls_drawn(v.ball.drawn(paddles_drawn(frame, v.paddles, 0), shades), v.walls)
}

impl Render {
    /// Paints the whole screen with the background gradient.
    pub fn clear_screen(frame: &mut [u8])
        requires
            old(frame)@.len() >= screen_bytes(),
        ensures
            final(frame)@ == painted(old(frame)@, everywhere(), gradient(), false),
    {
        paint_background(frame, false);
    }

    /// Draws the paddles, the ball (shaded by `shades`) and the walls.
    pub fn draw_objects(state: &GameState, frame: &mut [u8], shades: &Vec<[u8; 2]>)
        requires
            old(frame)@.len() >= screen_bytes(),
            shades@.len() > state.objects.ball.radius * state.objects.ball.radius,
        ensures
            final(frame)@ == scene_drawn(old(frame)@, state@, shades@),
    {
        let ghost base = frame@;
        let paddles = &state.objects.paddles;
        let mut i: usize = 0;
        while i < paddles.len()
            invariant
                0 <= i <= paddles.len(),
                frame@.len() == base.len(),
                base.len() >= screen_bytes(),
                frame@ == paddles_drawn(base, paddles@.take(i as int), 0),
            decreases paddles.len() - i,
        {
            paddles[i].draw(0, frame);
            assert(paddles@.take(i + 1).drop_last() =~= paddles@.take(i as int));
            i = i + 1;
        }
        assert(paddles@.take(paddles.len() as int) =~= paddles@);
        state.objects.ball.draw(frame, shades);
        let ghost after_ball = frame@;
        let mut j: usize = 0;
        while j < 4
            invariant
                0 <= j <= 4,
                frame@.len() == base.len(),
                base.len() >= screen_bytes(),
                frame@ == walls_drawn(after_ball, state.objects.walls@.take(j as int)),
            decreases 4 - j,
        {
            state.objects.walls[j].draw(frame);
            assert(state.objects.walls@.take(j + 1).drop_last() =~= state.objects.walls@.take(j as int));
            j = j + 1;
        }
        assert(state.objects.walls@.take(4) =~= state.objects.walls@);
    }
}

} // verus!
