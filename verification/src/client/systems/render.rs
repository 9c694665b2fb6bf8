//! Drawing the game as a client sees it.
use vstd::prelude::*;

use crate::frame::{everywhere, gradient, paint_background, painted, screen_bytes};
use crate::shared::object::paddle::Paddle;
use crate::shared::object::wall::Wall;
use crate::shared::state::gamestate::{GameState, GameView};

verus! {

/// Draws the game for one player.
pub struct Render {}

/// The colour of the paddle at position `i`: green for the first, red for
/// the others.
pub open spec fn paddle_color(i: int) -> [u8; 4] {
    if i == 0 { [0, 255, 0, 255] } else { [255, 0, 0, 255] }
}

/// The frame with the paddles drawn on it in turn, for player `viewer_id`.
pub open spec fn paddles_drawn(frame: Seq<u8>, paddles: Seq<Paddle>, viewer_id: u8) -> Seq<u8>
    decreases paddles.len(),
{
    if paddles.len() == 0 {
        frame
    } else {
        let i = paddles.len() - 1;
        paddles[i].drawn(paddles_drawn(frame, paddles.drop_last(), viewer_id), viewer_id, paddle_color(i))
    }
}

/// The frame with the walls drawn on it in turn, for player `viewer_id`.
pub open spec fn walls_drawn(frame: Seq<u8>, walls: Seq<Wall>, viewer_id: u8) -> Seq<u8>
    decreases walls.len(),
{
    if walls.len() == 0 {
        frame
    } else {
        walls.last().drawn(walls_drawn(frame, walls.drop_last(), viewer_id), viewer_id)
    }
}

/// The frame with the game drawn on it for its player: the paddles, then
/// the ball, then the walls.
pub open spec fn scene_drawn(frame: Seq<u8>, v: GameView, shades: Seq<[u8; 2]>) -> Seq<u8> {
    let p = v.player_id;
    walls_drawn(v.ball.drawn(paddles_drawn(frame, v.paddles, p), p, shades), v.walls, p)
}

impl Render {
    /// Paints the whole screen with the background gradient, as player
    /// `viewer_id` sees the field.
    pub fn clear_screen(frame: &mut [u8], viewer_id: u8)
        requires
            old(frame)@.len() >= screen_bytes(),
        ensures
            final(frame)@ == painted(old(frame)@, everywhere(), gradient(), viewer_id == 2),
    {
        paint_background(frame, viewer_id == 2);
    }

    /// Draws the paddles, the ball (shaded by `shades`) and the walls as
    /// the game's player sees them.
    pub fn draw_objects(state: &GameState, frame: &mut [u8], shades: &Vec<[u8; 2]>)
        requires
            old(frame)@.len() >= screen_bytes(),
            shades@.len() > state.objects.ball.radius * state.objects.ball.radius,
        ensures
            final(frame)@ == scene_drawn(old(frame)@, state@, shades@),
    {
        let ghost base = frame@;
        let paddles = &state.objects.paddles;
        let mut i: usize = 0;
        while i < paddles.len()
            invariant
                0 <= i <= paddles.len(),
                frame@.len() == base.len(),
                base.len() >= screen_bytes(),
                frame@ == paddles_drawn(base, paddles@.take(i as int), state.player_id),
            decreases paddles.len() - i,
        {
            let color: [u8; 4] = if i == 0 { [0, 255, 0, 255] } else { [255, 0, 0, 255] };
            paddles[i].draw(frame, state.player_id, color);
            assert(paddles@.take(i + 1).drop_last() =~= paddles@.take(i as int));
            i = i + 1;
        }
        assert(paddles@.take(paddles.len() as int) =~= paddles@);
        state.objects.ball.draw(frame, state.player_id, shades);
        let ghost after_ball = frame@;
        let mut j: usize = 0;
        while j < 4
            invariant
                0 <= j <= 4,
                frame@.len() == base.len(),
                base.len() >= screen_bytes(),
                frame@ == walls_drawn(after_ball, state.objects.walls@.take(j as int), state.player_id),
            decreases 4 - j,
        {
            state.objects.walls[j].draw(frame, state.player_id);
            assert(state.objects.walls@.take(j + 1).drop_last() =~= state.objects.walls@.take(j as int));
            j = j + 1;
        }
        assert(state.objects.walls@.take(4) =~= state.objects.walls@);
    }
}

} // verus!
