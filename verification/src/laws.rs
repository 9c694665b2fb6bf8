//! Properties of the game that hold across its operations.
use vstd::prelude::*;

use crate::arith::{round_div, trunc_div};
use crate::physics::{spec_contact, Contact, PaddleBox, Probe};
use crate::frame::{field_point, lemma_disk_box, lemma_on_screen, lemma_shows, painted, screen_bytes};
use crate::keys::{toggled, Key};
use crate::{HEIGHT, WIDTH};
use crate::shared::object::ball::{at_serve_speed, lemma_nearest_root_at_speed, Ball, SERVE_SPEED};
use crate::shared::object::paddle::{max_column, Paddle};
use crate::shared::state::gamestate::{
    after_collision, after_input, after_update, bounced_off_walls, kept_paddles, GameView, Status,
};
use crate::shared::input::GameInput;
use crate::shared::net::{client_msg_of, server_msg_of, with_client_msg, with_server_msg};
use crate::server::{is_waiting, spec_choose_seat, Seats};
use crate::local::gamestate::LocalView;
use crate::local::object::paddle::initial_paddles as local_initial_paddles;
use crate::local::object::wall::initial_walls as local_initial_walls;
use crate::local::systems::collision as local_collision;

verus! {

/// A freshly served ball moves at half a pixel per millisecond: the square
/// of its speed is within `SERVE_SPEED` of the square of `SERVE_SPEED`
/// (in millionths of a pixel per millisecond), that is within 5e-7 square
/// pixels per square millisecond of 0.25.
pub proof fn lemma_serve_speed(b: Ball)
    requires
        b.is_fresh(),
    ensures
        at_serve_speed(b.vx as int, b.vy as int),
{
    let n = SERVE_SPEED * SERVE_SPEED - b.vx * b.vx;
    let s: int = if b.is_served(b.vx as int, true) { b.vy as int } else { -b.vy };
    lemma_nearest_root_at_speed(b.vx as int, n, s);
}

/// Rounding to the nearest thousandth moves a number by at most half a
/// thousandth.
pub proof fn lemma_round_close(a: int)
    ensures
        a - 500 <= 1000 * round_div(a, 1000) <= a + 500,
{
    if a >= 0 {
        let q = (a + 500) / 1000;
        assert(1000 * q <= a + 500 < 1000 * q + 1000) by (nonlinear_arith)
            requires q == (a + 500) / 1000, a >= 0;
    } else {
        let q = (-a + 500) / 1000;
        assert(1000 * q <= -a + 500 < 1000 * q + 1000) by (nonlinear_arith)
            requires q == (-a + 500) / 1000, a < 0;
    }
}

/// Two rounded steps and one rounded step over the same distance land at
/// most one unit apart.
pub proof fn lemma_rounded_steps_add_up(a: int, b: int)
    ensures
        -1 <= round_div(a, 1000) + round_div(b, 1000) - round_div(a + b, 1000) <= 1,
{
    lemma_round_close(a);
    lemma_round_close(b);
    lemma_round_close(a + b);
    let e = round_div(a, 1000) + round_div(b, 1000) - round_div(a + b, 1000);
    assert(-1500 <= 1000 * e <= 1500) by (nonlinear_arith)
        requires
            e == round_div(a, 1000) + round_div(b, 1000) - round_div(a + b, 1000),
            a - 500 <= 1000 * round_div(a, 1000) <= a + 500,
            b - 500 <= 1000 * round_div(b, 1000) <= b + 500,
            a + b - 500 <= 1000 * round_div(a + b, 1000) <= a + b + 500;
}

/// Game time adds up: flying `d1` milliseconds and then `d2` takes the
/// ball, along each axis, to within a thousandth of a pixel of where flying
/// `d1 + d2` at once does (each flight rounds to the nearest thousandth), as
/// long as the ball stays within the range of positions.
pub proof fn lemma_flight_adds_up(b: Ball, d1: int, d2: int)
    requires
        ({
            let tx1 = round_div(b.vx * d1, 1000);
            let tx2 = round_div(b.vx * d2, 1000);
            let tx = round_div(b.vx * (d1 + d2), 1000);
            let ty1 = round_div(b.vy * d1, 1000);
            let ty2 = round_div(b.vy * d2, 1000);
            let ty = round_div(b.vy * (d1 + d2), 1000);
            &&& i32::MIN <= tx1 <= i32::MAX && i32::MIN <= tx2 <= i32::MAX && i32::MIN <= tx <= i32::MAX
            &&& i32::MIN <= ty1 <= i32::MAX && i32::MIN <= ty2 <= i32::MAX && i32::MIN <= ty <= i32::MAX
            &&& i32::MIN <= b.position.x + tx1 <= i32::MAX && i32::MIN <= b.position.x + tx1 + tx2 <= i32::MAX
            &&& i32::MIN <= b.position.x + tx <= i32::MAX
            &&& i32::MIN <= b.position.y + ty1 <= i32::MAX && i32::MIN <= b.position.y + ty1 + ty2 <= i32::MAX
            &&& i32::MIN <= b.position.y + ty <= i32::MAX
        }),
    ensures
        -1 <= b.moved(d1).moved(d2).position.x - b.moved(d1 + d2).position.x <= 1,
        -1 <= b.moved(d1).moved(d2).position.y - b.moved(d1 + d2).position.y <= 1,
        b.moved(d1).moved(d2).vx == b.moved(d1 + d2).vx,
        b.moved(d1).moved(d2).vy == b.moved(d1 + d2).vy,
{
    assert(b.vx * (d1 + d2) == b.vx * d1 + b.vx * d2) by (nonlinear_arith);
    assert(b.vy * (d1 + d2) == b.vy * d1 + b.vy * d2) by (nonlinear_arith);
    lemma_rounded_steps_add_up(b.vx * d1, b.vx * d2);
    lemma_rounded_steps_add_up(b.vy * d1, b.vy * d2);
}

/// A paddle that stands on screen stays on screen whichever way it moves:
/// its left edge neither passes the left edge of the screen nor goes so far
/// right that its right edge would pass the right edge.
pub proof fn lemma_paddle_stays_on_screen(p: Paddle, delta: int)
    requires
        0 <= delta,
        0 <= p.position.x <= max_column(p.width),
    ensures
        0 <= p.shifted_left(delta).position.x <= max_column(p.width),
        0 <= p.shifted_right(delta).position.x <= max_column(p.width),
{
    let acc = if p.acceleration > 0 { 0 } else { p.acceleration as int };
    assert((300 - acc) * delta >= 0) by (nonlinear_arith)
        requires acc <= 0, delta >= 0;
    let acc2 = if p.acceleration < 0 { 0 } else { p.acceleration as int };
    assert((300 + acc2) * delta >= 0) by (nonlinear_arith)
        requires acc2 >= 0, delta >= 0;
    assert(max_column(p.width) <= 0x1_0000_0000 * 1000);
}

/// Holding a paddle's key speeds it up: over two ticks of equal length of
/// moving left, the second tick carries the paddle further than the first,
/// by one acceleration step per millisecond, as long as it does not reach
/// the edge of the screen.
pub proof fn lemma_steady_movement_speeds_up(p: Paddle, delta: int)
    requires
        0 <= delta,
        i32::MIN + 20 <= p.acceleration,
        p.shifted_left(delta).shifted_left(delta).position.x > 0,
    ensures
        p.shifted_left(delta).position.x - p.shifted_left(delta).shifted_left(delta).position.x == p.position.x
            - p.shifted_left(delta).position.x + 10 * delta,
{
    let p1 = p.shifted_left(delta);
    let acc = if p.acceleration > 0 { 0 } else { p.acceleration as int };
    assert(p1.acceleration == acc - 10);
    let x1 = p.position.x - (300 - acc) * delta;
    let x2 = p1.position.x - (300 - p1.acceleration) * delta;
    assert((300 - acc) * delta >= 0) by (nonlinear_arith)
        requires acc <= 0, delta >= 0;
    assert((300 - (acc - 10)) * delta == (300 - acc) * delta + 10 * delta) by (nonlinear_arith);
    assert((300 - (acc - 10)) * delta >= 0) by (nonlinear_arith)
        requires acc <= 0, delta >= 0;
    assert(p1.position.x == x1);
}

/// A game that is not running ignores the controls, and a tick leaves it
/// as it is.
pub proof fn lemma_stopped_game_stands_still(v: GameView, input: GameInput, delta: int)
    requires
        v.status != Status::Running,
    ensures
        after_input(v, input, delta) == v,
        after_update(v, delta) == v,
{
}

/// In a running game, quitting wins over pausing, and pausing over
/// playing on.
pub proof fn lemma_controls_choose_status(v: GameView, input: GameInput, delta: int)
    requires
        v.status == Status::Running,
    ensures
        after_input(v, input, delta).status == if input.quit_game {
            Status::Exit
        } else if input.pause_toggled {
            Status::Paused
        } else {
            Status::Running
        },
{
}

/// The collision step keeps the walls and the number of paddles, and
/// leaves every paddle (at most 1180 pixels wide) between the side walls.
pub proof fn lemma_paddles_between_walls(v: GameView, delta: int)
    ensures
        after_collision(v, delta).walls == v.walls,
        after_collision(v, delta).paddles.len() == v.paddles.len(),
        forall|i: int|
            0 <= i < v.paddles.len() && v.paddles[i].width <= 1180 ==> {
                let q = #[trigger] after_collision(v, delta).paddles[i];
                let left = trunc_div(q.position.x as int, 1000);
                10 <= left && left + q.width <= 1190
            },
{
    assert forall|i: int|
        0 <= i < v.paddles.len() && v.paddles[i].width <= 1180 implies {
            let q = #[trigger] after_collision(v, delta).paddles[i];
            let left = trunc_div(q.position.x as int, 1000);
            10 <= left && left + q.width <= 1190
        } by {
        let p = v.paddles[i];
        let q = kept_paddles(v.paddles)[i];
        let l0 = trunc_div(p.position.x as int, 1000);
        assert(-2147484 <= l0 <= 2147483) by {
            assert(i32::MIN <= p.position.x <= i32::MAX);
        }
        let right = l0 + p.width;
        let l1 = if l0 <= 10 { 10 } else { l0 };
        let l2 = if right >= 1190 { 1190 - p.width } else { l1 };
        assert(q.position.x == l2 * 1000);
        assert(trunc_div(l2 * 1000, 1000) == l2);
    }
}

/// A ball that reaches the bottom wall (and not the top one) leaves the
/// walls moving up or level, and one that reaches the top wall (and not
/// the bottom one) leaves them moving down or level.
pub proof fn lemma_walls_turn_the_ball(ball: Ball)
    ensures
        ({
            let p = crate::shared::state::gamestate::probe_of(ball);
            let b = bounced_off_walls(ball).0;
            &&& (p.y + p.r >= 890 && !(p.y - p.r <= 10)) ==> b.vy <= 0
            &&& (p.y - p.r <= 10 && !(p.y + p.r >= 890) && ball.vy <= 0) ==> b.vy >= 0
        }),
{
}

/// Releasing a key twice leaves its toggle as it was.
pub proof fn lemma_toggle_twice(s: Set<Key>, k: Key)
    ensures
        toggled(toggled(s, k), k) == s,
{
    assert(toggled(toggled(s, k), k) =~= s);
}

/// What the server broadcasts, a client takes over: after applying the
/// broadcast, the client's ball stands where the server's does and the
/// opponent's paddle where the server holds it, while the client's own
/// paddle stays where the client put it.
pub proof fn lemma_client_mirrors_server(server: GameView, client: GameView)
    requires
        server.paddles.len() >= 2,
        client.paddles.len() >= 2,
        client.player_id == 1 || client.player_id == 2,
    ensures
        ({
            let c = with_server_msg(client, server_msg_of(server));
            let other: int = if client.player_id == 1 { 1 } else { 0 };
            let own: int = client.player_id - 1;
            &&& c.ball.position == server.ball.position
            &&& c.paddles[other].position.x == server.paddles[other].position.x
            &&& c.paddles[own] == client.paddles[own]
            &&& c.paddles.len() == client.paddles.len()
        }),
{
}

/// What a client sends, the server takes over: after applying the message
/// of player 1 or 2, the server's paddle of that player stands in the
/// column of the client's own paddle, and nothing else changes but that
/// column.
pub proof fn lemma_server_follows_client(server: GameView, client: GameView)
    requires
        server.paddles.len() >= 2,
        client.player_id == 1 || client.player_id == 2,
        client.paddles.len() >= client.player_id,
    ensures
        ({
            let idx: int = client.player_id - 1;
            let s = with_client_msg(server, client.player_id == 1, client_msg_of(client));
            &&& s.paddles[idx].position.x == client.paddles[idx].position.x
            &&& s.paddles[idx].position.y == server.paddles[idx].position.y
            &&& s.paddles[1 - idx] == server.paddles[1 - idx]
            &&& s.ball == server.ball
            &&& s.status == server.status
        }),
{
}

/// A newcomer joins a room where a player waits, on the free seat, and a
/// new room is opened only when no player waits anywhere.
pub proof fn lemma_seat_is_free(rooms: Seq<Seats>)
    ensures
        ({
            let seat = spec_choose_seat(rooms);
            &&& seat.room is None <==> (forall|i: int| 0 <= i < rooms.len() ==> !is_waiting(#[trigger] rooms[i]))
            &&& seat.room is None ==> seat.is_player1
            &&& seat.room is Some ==> exists|i: int|
                0 <= i < rooms.len() && is_waiting(#[trigger] rooms[i]) && rooms[i].room == seat.room->0
                    && seat.is_player1 == !rooms[i].player1
        }),
    decreases rooms.len(),
{
    if rooms.len() > 0 {
        lemma_seat_is_free(rooms.drop_first());
        let seat = spec_choose_seat(rooms);
        if is_waiting(rooms[0]) {
            assert(is_waiting(rooms[0]) && rooms[0].room == seat.room->0);
        } else {
            assert forall|i: int| 0 <= i < rooms.len() && !is_waiting(rooms[0]) implies (!is_waiting(
                #[trigger] rooms[i],
            ) <==> (i == 0 || !is_waiting(rooms.drop_first()[i - 1]))) by {}
            if seat.room is Some {
                let j = choose|j: int|
                    0 <= j < rooms.drop_first().len() && is_waiting(#[trigger] rooms.drop_first()[j])
                        && rooms.drop_first()[j].room == seat.room->0 && seat.is_player1
                        == !rooms.drop_first()[j].player1;
                assert(rooms[j + 1] == rooms.drop_first()[j]);
            } else {
                assert forall|i: int| 0 <= i < rooms.len() implies !is_waiting(#[trigger] rooms[i]) by {
                    if i > 0 {
                        assert(rooms[i] == rooms.drop_first()[i - 1]);
                    }
                }
            }
        }
    }
}

/// Only a goal brings a new ball into the local game: while the ball
/// reaches neither the top nor the bottom wall, the collision step is the
/// same whatever ball a restart would serve.
pub proof fn lemma_serve_only_after_goal(v: LocalView, delta: int, s1: crate::local::object::ball::Ball, s2: crate::local::object::ball::Ball)
    requires
        ({
            let p = local_collision::probe_of(v.ball);
            !(p.y + p.r >= 890) && !(p.y - p.r <= 10)
        }),
    ensures
        local_collision::after_collision(v, delta, s1) == local_collision::after_collision(v, delta, s2),
{
}

/// A goal in the local game starts it over: when the ball reaches the top
/// or the bottom wall, the game is marked reset and the paddles and walls
/// stand as at the start.
pub proof fn lemma_goal_restarts(v: LocalView, delta: int, serve: crate::local::object::ball::Ball)
    requires
        ({
            let p = local_collision::probe_of(v.ball);
            p.y + p.r >= 890 || p.y - p.r <= 10
        }),
    ensures
        local_collision::after_collision(v, delta, serve).status == Status::Reset,
        local_collision::after_collision(v, delta, serve).paddles == local_initial_paddles(),
        local_collision::after_collision(v, delta, serve).walls == local_initial_walls(),
{
    let w = local_collision::after_collision(v, delta, serve);
    assert(w.paddles =~= local_initial_paddles());
}

/// In the local game, the collision step leaves every paddle (at most
/// 1180 pixels wide) between the side walls.
pub proof fn lemma_local_paddles_between_walls(v: LocalView, delta: int, serve: crate::local::object::ball::Ball)
    ensures
        ({
            let w = local_collision::after_collision(v, delta, serve);
            forall|i: int|
                0 <= i < w.paddles.len() && w.paddles[i].width <= 1180 ==> {
                    let q = #[trigger] w.paddles[i];
                    10 <= q.centre_x() - q.width / 2 && q.centre_x() + q.width / 2 <= 1190
                }
        }),
{
}

/// A freshly served ball of the local game moves at half a pixel per
/// millisecond, as in the networked game.
pub proof fn lemma_local_serve_speed(b: crate::local::object::ball::Ball)
    requires
        b.is_fresh(),
    ensures
        at_serve_speed(b.vx as int, b.vy as int),
{
    let n = SERVE_SPEED * SERVE_SPEED - b.vx * b.vx;
    let s: int = if b.is_served(b.vx as int, true) { b.vy as int } else { -b.vy };
    lemma_nearest_root_at_speed(b.vx as int, n, s);
}

/// Drawing never touches the bytes of a frame beyond the screen.
pub proof fn lemma_drawing_stays_on_screen(
    frame: Seq<u8>,
    region: spec_fn(int, int) -> bool,
    ink: spec_fn(int, int, int) -> u8,
    flip: bool,
    i: int,
)
    requires
        screen_bytes() <= i < frame.len(),
    ensures
        painted(frame, region, ink, flip)[i] == frame[i],
{
}

/// The byte that holds channel `i % 4` of the pixel opposite, through the
/// centre of the screen, to the pixel that holds byte `i`.
pub open spec fn opposite_byte(i: int) -> int {
    let col = (i / 4) % (WIDTH as int);
    let row = (i / 4) / (WIDTH as int);
    4 * ((HEIGHT - 1 - row) * WIDTH + (WIDTH - 1 - col)) + i % 4
}

/// Player 2 sees the field turned half a turn: wherever a frame drawn
/// for player 2 shows a byte, a frame drawn the same way for player 1
/// shows that byte at the opposite pixel (given frames that matched there
/// before drawing).
pub proof fn lemma_second_player_sees_field_turned(
    f2: Seq<u8>,
    f1: Seq<u8>,
    region: spec_fn(int, int) -> bool,
    ink: spec_fn(int, int, int) -> u8,
    i: int,
)
    requires
        0 <= i < screen_bytes(),
        f1.len() >= screen_bytes(),
        f2.len() >= screen_bytes(),
        f2[i] == f1[opposite_byte(i)],
    ensures
        0 <= opposite_byte(i) < screen_bytes(),
        painted(f2, region, ink, true)[i] == painted(f1, region, ink, false)[opposite_byte(i)],
{
    lemma_on_screen(i, false);
    let col = (i / 4) % (WIDTH as int);
    let row = (i / 4) / (WIDTH as int);
    let x = WIDTH - 1 - col;
    let y = HEIGHT - 1 - row;
    let j = opposite_byte(i);
    assert(0 <= i % 4 < 4);
    assert(j == 4 * (y * WIDTH + x) + i % 4);
    lemma_shows(j, x, y, false);
    assert(j % 4 == i % 4) by (nonlinear_arith)
        requires j == 4 * (y * WIDTH + x) + i % 4, 0 <= i % 4 < 4, 0 <= y * WIDTH + x;
    assert(field_point(j, false) == (x, y));
    assert(field_point(i, true) == (x, y));
}

/// A ball never grazes the corner of a box whose face edges are in order
/// (`top <= bot`, `left <= right`), as the networked game's paddles are:
/// whenever a corner of the face lies inside the ball, the two boxes
/// overlap, and the ball strikes the face or an end instead.
pub proof fn lemma_no_corner_on_upright_boxes(p: Probe, b: PaddleBox)
    requires
        0 <= p.r,
        b.top <= b.bot,
        b.left <= b.right,
    ensures
        spec_contact(p, b) != Contact::Corner,
{
    let fy: int = if b.is_bottom { b.top as int } else { b.bot as int };
    if crate::physics::point_in_ball(p, b.left as int, fy) {
        let (a, c) = (b.left as int, p.x as int);
        let (e, d) = (fy, p.y as int);
        assert((a - c) * (a - c) + (e - d) * (e - d) == (c - a) * (c - a) + (d - e) * (d - e)) by (nonlinear_arith);
        lemma_disk_box(b.left as int, fy, p.x as int, p.y as int, p.r as int);
    }
    if crate::physics::point_in_ball(p, b.right as int, fy) {
        let (a, c) = (b.right as int, p.x as int);
        let (e, d) = (fy, p.y as int);
        assert((a - c) * (a - c) + (e - d) * (e - d) == (c - a) * (c - a) + (d - e) * (d - e)) by (nonlinear_arith);
        lemma_disk_box(b.right as int, fy, p.x as int, p.y as int, p.r as int);
    }
}

/// The side walls turn the ball: one that reaches the left wall (and not
/// the right one) while moving left or level leaves the walls moving right
/// or level, with its left edge against the wall; one that reaches the
/// right wall (and not the left one) while moving right or level leaves
/// them moving left or level, with its right edge against that wall.
pub proof fn lemma_side_walls_turn_the_ball(ball: Ball)
    ensures
        ({
            let p = crate::shared::state::gamestate::probe_of(ball);
            let b = bounced_off_walls(ball).0;
            let left = p.x - p.r <= 10;
            let right = p.x + p.r >= WIDTH - 10;
            &&& (left && !right && ball.vx <= 0) ==> b.vx >= 0 && (b.vx == -ball.vx || ball.vx == i32::MIN)
            &&& (left && !right) ==> b.position.x == (10 + p.r) * 1000
            &&& (right && !left && ball.vx >= 0) ==> b.vx <= 0 && b.vx == -ball.vx
            &&& (right && !left) ==> b.position.x == (WIDTH - 10 - p.r) * 1000
            &&& (left || right) ==> bounced_off_walls(ball).1
        }),
{
}

/// Paddles that the ball misses leave it as it is.
pub proof fn lemma_missed_paddles_leave_ball(p: Probe, boxes: Seq<PaddleBox>, ball: Ball)
    requires
        forall|i: int| 0 <= i < boxes.len() ==> spec_contact(p, #[trigger] boxes[i]) == Contact::Miss,
    ensures
        crate::shared::state::gamestate::paddle_pass(p, boxes, ball) == (ball, false),
    decreases boxes.len(),
{
    if boxes.len() > 0 {
        let rest = boxes.drop_last();
        assert forall|i: int| 0 <= i < rest.len() implies spec_contact(p, #[trigger] rest[i]) == Contact::Miss by {
            assert(rest[i] == boxes[i]);
        }
        lemma_missed_paddles_leave_ball(p, rest, ball);
        assert(spec_contact(p, boxes[boxes.len() - 1]) == Contact::Miss);
    }
}

/// A ball flying left into the left wall comes out of the collision step
/// flying right, at least as fast as it came (it is turned, then sped up),
/// as long as it misses the paddles, does not reach the right wall and its
/// acceleration is not negative; likewise into the right wall.
pub proof fn lemma_side_wall_sends_ball_back(v: GameView, delta: int)
    requires
        v.ball.acceleration >= 0,
        ({
            let p = crate::shared::state::gamestate::probe_of(v.ball);
            let boxes = kept_paddles(v.paddles).map_values(
                |q: Paddle| crate::shared::state::gamestate::box_of(q),
            );
            forall|i: int| 0 <= i < boxes.len() ==> spec_contact(p, #[trigger] boxes[i]) == Contact::Miss
        }),
    ensures
        ({
            let p = crate::shared::state::gamestate::probe_of(v.ball);
            let left = p.x - p.r <= 10;
            let right = p.x + p.r >= WIDTH - 10;
            let b = after_collision(v, delta).ball;
            &&& (left && !right && v.ball.vx < 0) ==> b.vx > 0 && (b.vx >= -v.ball.vx || v.ball.vx == i32::MIN)
            &&& (right && !left && v.ball.vx > 0) ==> b.vx < 0 && b.vx <= -v.ball.vx
        }),
{
    let p = crate::shared::state::gamestate::probe_of(v.ball);
    let boxes = kept_paddles(v.paddles).map_values(|q: Paddle| crate::shared::state::gamestate::box_of(q));
    let b4 = bounced_off_walls(v.ball).0;
    lemma_missed_paddles_leave_ball(p, boxes, b4);
    lemma_side_walls_turn_the_ball(v.ball);
}

/// Where the contact test puts the ball back: clear of the paddle, touching
/// the part it struck from outside. A ball that strikes the left end ends
/// with its right edge on that end, one that strikes the right end with its
/// left edge on that end, and one that strikes the face with its edge on
/// the face row, on the side the face looks to. The part struck is the one
/// the ball has gone least deep into; the ball strikes the paddle exactly
/// when the two boxes overlap, and misses it exactly when they do not and
/// neither corner of the face lies inside the ball.
pub proof fn lemma_contact_puts_ball_outside(p: Probe, b: PaddleBox)
    requires
        crate::physics::probe_in_range(p),
        crate::physics::box_in_range(b),
    ensures
        spec_contact(p, b) matches Contact::Left(x) ==> x + p.r == b.left && p.x + p.r - b.left <= b.right - (p.x - p.r),
        spec_contact(p, b) matches Contact::Right(x) ==> x - p.r == b.right && b.right - (p.x - p.r) < p.x + p.r - b.left,
        spec_contact(p, b) matches Contact::Face(y) ==> (if b.is_bottom { y + p.r == b.top } else { y - p.r == b.bot })
            && crate::physics::face_overlap(p, b) <= p.x + p.r - b.left
            && crate::physics::face_overlap(p, b) <= b.right - (p.x - p.r),
        (spec_contact(p, b) is Left || spec_contact(p, b) is Right || spec_contact(p, b) is Face)
            <==> crate::physics::boxes_overlap(p, b),
        spec_contact(p, b) is Miss <==> !crate::physics::boxes_overlap(p, b) && !crate::physics::point_in_ball(
            p,
            b.left as int,
            crate::physics::face_row(b),
        ) && !crate::physics::point_in_ball(p, b.right as int, crate::physics::face_row(b)),
{
}

/// The networked controls move the local player's paddle the way that
/// player sees it: for player 1 the left key moves the paddle left (its
/// column never grows, its extra speed points left) and the right key
/// right; player 2 sees the field turned, so the right key moves the paddle
/// left on the field and the left key right. The paddle stands on screen
/// and only one of the two keys is held.
pub proof fn lemma_networked_keys_move_paddle(v: GameView, input: GameInput, delta: int)
    requires
        v.status == Status::Running,
        v.paddles.len() >= 2,
        v.player_id == 1 || v.player_id == 2,
        0 <= delta,
        0 <= v.paddles[v.player_id - 1].position.x <= max_column(v.paddles[v.player_id - 1].width),
    ensures
        ({
            let k: int = v.player_id - 1;
            let p = v.paddles[k];
            let q = after_input(v, input, delta).paddles[k];
            let only_left = input.p1_left_pressed && !input.p1_right_pressed;
            let only_right = input.p1_right_pressed && !input.p1_left_pressed;
            let goes_left = if v.player_id == 1 { only_left } else { only_right };
            let goes_right = if v.player_id == 1 { only_right } else { only_left };
            &&& goes_left ==> q.position.x <= p.position.x && q.acceleration < 0
            &&& goes_right ==> q.position.x >= p.position.x && q.acceleration > 0
            &&& q.position.y == p.position.y
        }),
{
    let k: int = v.player_id - 1;
    lemma_paddle_moves_its_way(v.paddles[k], delta);
}

/// A paddle on screen moving left never moves right and ends with its
/// extra speed pointing left; moving right, the mirror.
pub proof fn lemma_paddle_moves_its_way(p: Paddle, delta: int)
    requires
        0 <= delta,
        0 <= p.position.x <= max_column(p.width),
    ensures
        p.shifted_left(delta).position.x <= p.position.x,
        p.shifted_left(delta).acceleration < 0,
        p.shifted_left(delta).position.y == p.position.y,
        p.shifted_right(delta).position.x >= p.position.x,
        p.shifted_right(delta).acceleration > 0,
        p.shifted_right(delta).position.y == p.position.y,
{
    let acc = if p.acceleration > 0 { 0 } else { p.acceleration as int };
    assert((300 - acc) * delta >= 0) by (nonlinear_arith)
        requires acc <= 0, delta >= 0;
    let acc2 = if p.acceleration < 0 { 0 } else { p.acceleration as int };
    assert((300 + acc2) * delta >= 0) by (nonlinear_arith)
        requires acc2 >= 0, delta >= 0;
}

/// On one machine each player's keys move their own paddle: the first
/// player's left key moves the first paddle left and the right key right,
/// and the second player's keys the second paddle likewise (each paddle
/// standing on screen, one of its two keys held).
pub proof fn lemma_one_machine_keys_move_paddles(v: GameView, input: GameInput, delta: int)
    requires
        v.status == Status::Running,
        v.paddles.len() >= 2,
        v.player_id == 0,
        0 <= delta,
        0 <= v.paddles[0].position.x <= max_column(v.paddles[0].width),
        0 <= v.paddles[1].position.x <= max_column(v.paddles[1].width),
    ensures
        ({
            let w = after_input(v, input, delta);
            &&& (input.p1_left_pressed && !input.p1_right_pressed) ==> w.paddles[0].position.x
                <= v.paddles[0].position.x && w.paddles[0].acceleration < 0
            &&& (input.p1_right_pressed && !input.p1_left_pressed) ==> w.paddles[0].position.x
                >= v.paddles[0].position.x && w.paddles[0].acceleration > 0
            &&& (input.p2_left_pressed && !input.p2_right_pressed) ==> w.paddles[1].position.x
                <= v.paddles[1].position.x && w.paddles[1].acceleration < 0
            &&& (input.p2_right_pressed && !input.p2_left_pressed) ==> w.paddles[1].position.x
                >= v.paddles[1].position.x && w.paddles[1].acceleration > 0
        }),
{
    lemma_paddle_moves_its_way(v.paddles[0], delta);
    lemma_paddle_moves_its_way(v.paddles[1], delta);
}

/// A paddle of the local game moving left never moves right and ends with
/// its extra speed pointing left; moving right, the mirror.
pub proof fn lemma_local_paddle_moves_its_way(p: crate::local::object::paddle::Paddle, delta: int)
    requires
        0 <= delta,
    ensures
        p.shifted_left(delta).shift <= p.shift,
        p.shifted_left(delta).acceleration < 0,
        p.shifted_right(delta).shift >= p.shift,
        p.shifted_right(delta).acceleration > 0,
{
    let acc = if p.acceleration > 0 { 0 } else { p.acceleration as int };
    assert((-300 + acc) * delta <= 0) by (nonlinear_arith)
        requires acc <= 0, delta >= 0;
    let acc2 = if p.acceleration < 0 { 0 } else { p.acceleration as int };
    assert((300 + acc2) * delta >= 0) by (nonlinear_arith)
        requires acc2 >= 0, delta >= 0;
}

/// The keyboard of the local game: A moves the first paddle left and D
/// right, the left arrow moves the second paddle left and the right arrow
/// right (each with only one of its two keys held).
pub proof fn lemma_local_keys_move_paddles(v: LocalView, pressed: Set<Key>, toggled: Set<Key>, delta: int)
    requires
        v.status == Status::Running,
        v.paddles.len() >= 2,
        0 <= delta,
    ensures
        ({
            let w = crate::local::gamestate::after_keys(v, pressed, toggled, delta);
            let a = pressed.contains(Key::KeyA);
            let d = pressed.contains(Key::KeyD);
            let l = pressed.contains(Key::ArrowLeft);
            let r = pressed.contains(Key::ArrowRight);
            &&& (a && !d) ==> w.paddles[0].shift <= v.paddles[0].shift && w.paddles[0].acceleration < 0
            &&& (d && !a) ==> w.paddles[0].shift >= v.paddles[0].shift && w.paddles[0].acceleration > 0
            &&& (l && !r) ==> w.paddles[1].shift <= v.paddles[1].shift && w.paddles[1].acceleration < 0
            &&& (r && !l) ==> w.paddles[1].shift >= v.paddles[1].shift && w.paddles[1].acceleration > 0
        }),
{
    lemma_local_paddle_moves_its_way(v.paddles[0], delta);
    lemma_local_paddle_moves_its_way(v.paddles[1], delta);
}

/// In the local game the side walls turn the ball: one that reaches the
/// left wall (and neither the right, the top nor the bottom one) while
/// moving left or level leaves the walls moving right or level, its left
/// edge against the wall, the game running on as it was; likewise at the
/// right wall.
pub proof fn lemma_local_side_walls_turn_the_ball(v: LocalView, serve: crate::local::object::ball::Ball)
    ensures
        ({
            let p = local_collision::probe_of(v.ball);
            let (w, hit) = local_collision::bounced_off_walls(v, serve);
            let left = p.x - p.r <= 10;
            let right = p.x + p.r >= WIDTH - 10;
            let rally = !(p.y + p.r >= HEIGHT - 10) && !(p.y - p.r <= 10);
            &&& (rally && left && !right && v.ball.vx <= 0) ==> w.ball.vx >= 0 && (w.ball.vx == -v.ball.vx
                || v.ball.vx == i32::MIN)
            &&& (rally && left && !right) ==> w.ball.x == 10 + p.r && w.status == v.status
            &&& (rally && right && !left && v.ball.vx >= 0) ==> w.ball.vx <= 0 && w.ball.vx == -v.ball.vx
            &&& (rally && right && !left) ==> w.ball.x == WIDTH - 10 - p.r && w.status == v.status
            &&& (left || right) ==> hit
        }),
{
}

/// Paddles that the ball misses leave it as it is, in the local game.
pub proof fn lemma_local_missed_paddles_leave_ball(p: Probe, boxes: Seq<PaddleBox>, ball: crate::local::object::ball::Ball)
    requires
        forall|i: int| 0 <= i < boxes.len() ==> spec_contact(p, #[trigger] boxes[i]) == Contact::Miss,
    ensures
        local_collision::paddle_pass(p, boxes, ball) == (ball, false),
    decreases boxes.len(),
{
    if boxes.len() > 0 {
        let rest = boxes.drop_last();
        assert forall|i: int| 0 <= i < rest.len() implies spec_contact(p, #[trigger] rest[i]) == Contact::Miss by {
            assert(rest[i] == boxes[i]);
        }
        lemma_local_missed_paddles_leave_ball(p, rest, ball);
        assert(spec_contact(p, boxes[boxes.len() - 1]) == Contact::Miss);
    }
}

/// In the local game a ball flying left into the left wall (during a
/// rally: it reaches neither the top nor the bottom wall) comes out of the
/// collision step flying right, at least as fast as it came, as long as it
/// misses the paddles, does not reach the right wall and its acceleration
/// is not negative; likewise into the right wall.
pub proof fn lemma_local_side_wall_sends_ball_back(v: LocalView, delta: int, serve: crate::local::object::ball::Ball)
    requires
        v.ball.acceleration >= 0,
        ({
            let p = local_collision::probe_of(v.ball);
            let w = local_collision::bounced_off_walls(v, serve).0;
            let boxes = local_collision::boxes_of(
                w.paddles.map_values(|q: crate::local::object::paddle::Paddle| local_collision::kept_between_walls(q)),
            );
            forall|i: int| 0 <= i < boxes.len() ==> spec_contact(p, #[trigger] boxes[i]) == Contact::Miss
        }),
    ensures
        ({
            let p = local_collision::probe_of(v.ball);
            let left = p.x - p.r <= 10;
            let right = p.x + p.r >= WIDTH - 10;
            let rally = !(p.y + p.r >= HEIGHT - 10) && !(p.y - p.r <= 10);
            let b = local_collision::after_collision(v, delta, serve).ball;
            &&& (rally && left && !right && v.ball.vx < 0) ==> b.vx > 0 && (b.vx >= -v.ball.vx || v.ball.vx == i32::MIN)
            &&& (rally && right && !left && v.ball.vx > 0) ==> b.vx < 0 && b.vx <= -v.ball.vx
        }),
{
    let p = local_collision::probe_of(v.ball);
    let w = local_collision::bounced_off_walls(v, serve).0;
    let boxes = local_collision::boxes_of(
        w.paddles.map_values(|q: crate::local::object::paddle::Paddle| local_collision::kept_between_walls(q)),
    );
    lemma_local_missed_paddles_leave_ball(p, boxes, w.ball);
    lemma_local_side_walls_turn_the_ball(v, serve);
}

} // verus!
