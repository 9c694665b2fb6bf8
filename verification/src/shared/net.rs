//! The messages between the server and the clients, and what each side
//! does with them. Positions travel in thousandths of a pixel.
use vstd::prelude::*;

use crate::shared::coordinates::Coordinate;
use crate::shared::object::ball::Ball;
use crate::shared::object::paddle::Paddle;
use crate::shared::state::gamestate::{starts_fresh, GameState, GameView, Status};

verus! {

/// What a client tells the server each tick: where its paddle stands.
#[derive(Clone, Copy, Debug, PartialEq, Eq)]
pub struct ClientMsg {
    pub paddle_x: i32,
}

/// What the server tells the clients each tick: where the two paddles and
/// the ball stand.
#[derive(Clone, Copy, Debug, PartialEq, Eq)]
pub struct ServerMsg {
    pub p1_x: i32,
    pub p2_x: i32,
    pub ball_x: i32,
    pub ball_y: i32,
}

/// The paddles with the column of paddle `idx` set to `x`.
pub open spec fn with_column(paddles: Seq<Paddle>, idx: int, x: i32) -> Seq<Paddle> {
    paddles.update(
        idx,
        Paddle { position: Coordinate { x, y: paddles[idx].position.y }, ..paddles[idx] },
    )
}

/// The column of the paddle of player `player_id` (1 or 2), which that
/// player's client sends.
pub open spec fn client_msg_of(v: GameView) -> ClientMsg {
    ClientMsg { paddle_x: v.paddles[v.player_id - 1].position.x }
}

/// The server's broadcast: where the two paddles and the ball stand.
pub open spec fn server_msg_of(v: GameView) -> ServerMsg {
    ServerMsg {
        p1_x: v.paddles[0].position.x,
        p2_x: v.paddles[1].position.x,
        ball_x: v.ball.position.x,
        ball_y: v.ball.position.y,
    }
}

/// A client's game after the server's broadcast `msg`: the other player's
/// paddle (the second one for player 1, the first one otherwise) moves to
/// the column the server holds for it, and the ball to where the server
/// holds it.
pub open spec fn with_server_msg(v: GameView, msg: ServerMsg) -> GameView {
    GameView {
        paddles: if v.player_id == 1 {
            with_column(v.paddles, 1, msg.p2_x)
        } else {
            with_column(v.paddles, 0, msg.p1_x)
        },
        ball: Ball { position: Coordinate { x: msg.ball_x, y: msg.ball_y }, ..v.ball },
        ..v
    }
}

/// The server's game after the message `msg` of player 1 (`is_player1`)
/// or player 2: that player's paddle (the first for player 1, the second
/// for player 2) moves to the column sent.
pub open spec fn with_client_msg(v: GameView, is_player1: bool, msg: ClientMsg) -> GameView {
    GameView { paddles: with_column(v.paddles, if is_player1 { 0 } else { 1 }, msg.paddle_x), ..v }
}

impl GameState {
    /// The column of the local player's paddle, which the client sends to
    /// the server.
    pub fn local_paddle_x(&self) -> (x: i32)
        requires
            1 <= self.player_id <= self.objects.paddles.len(),
        ensures
            x == self.objects.paddles@[self.player_id - 1].position.x,
    {
        let local_paddle_idx = (self.player_id - 1) as usize;
        let (local_x, _) = self.objects.paddles[local_paddle_idx].position.get_cartesian();
        local_x
    }

    /// The message the client sends the server this tick.
    pub fn client_msg(&self) -> (m: ClientMsg)
        requires
            1 <= self.player_id <= self.objects.paddles.len(),
        ensures
            m == client_msg_of(self@),
    {
        ClientMsg { paddle_x: self.local_paddle_x() }
    }

    /// Applies on a client what the server sent: the other player's paddle
    /// (the second one for player 1, the first one otherwise) moves to the
    /// column the server holds for it, and the ball to where the server
    /// holds it.
    pub fn apply_server_msg(&mut self, msg: &ServerMsg)
        requires
            old(self).objects.paddles.len() >= 2,
        ensures
            final(self)@ == with_server_msg(old(self)@, *msg),
    {
        let remote_paddle_idx: usize = if self.player_id == 1 { 1 } else { 0 };
        let remote_x = if self.player_id == 1 { msg.p2_x } else { msg.p1_x };
        let mut p = self.objects.paddles[remote_paddle_idx];
        let (_, y) = p.position.get_cartesian();
        p.position = Coordinate::from_cartesian(remote_x, y);
        self.objects.paddles.set(remote_paddle_idx, p);
        self.objects.ball.position = Coordinate::from_cartesian(msg.ball_x, msg.ball_y);
        assert(self@ =~= with_server_msg(old(self)@, *msg));
    }

    /// Applies on the server what a client sent: that player's paddle (the
    /// first for player 1, the second for player 2) moves to the column sent.
    pub fn apply_client_msg(&mut self, is_player1: bool, msg: &ClientMsg)
        requires
            old(self).objects.paddles.len() >= 2,
        ensures
            final(self)@ == with_client_msg(old(self)@, is_player1, *msg),
    {
        let p_idx: usize = if is_player1 { 0 } else { 1 };
        let mut p = self.objects.paddles[p_idx];
        let (_, y) = p.position.get_cartesian();
        p.position = Coordinate::from_cartesian(msg.paddle_x, y);
        self.objects.paddles.set(p_idx, p);
        assert(self@ =~= with_client_msg(old(self)@, is_player1, *msg));
    }

    /// What the server broadcasts each tick: the columns of the two paddles
    /// and the position of the ball.
    pub fn server_msg(&self) -> (m: ServerMsg)
        requires
            self.objects.paddles.len() >= 2,
        ensures
            m == server_msg_of(self@),
    {
        let (x1, _) = self.objects.paddles[0].position.get_cartesian();
        let (x2, _) = self.objects.paddles[1].position.get_cartesian();
        let (bx, by) = self.objects.ball.position.get_cartesian();
        ServerMsg { p1_x: x1, p2_x: x2, ball_x: bx, ball_y: by }
    }

    /// The second player has joined the room: the game runs.
    pub fn second_player_joined(&mut self)
        ensures
            final(self)@ == (GameView { status: Status::Running, ..old(self)@ }),
    {
        self.status = Status::Running;
    }

    /// A player has left the room: the game starts over and waits, paused.
    pub fn player_left(&mut self)
        ensures
            final(self)@.status == Status::Paused,
            final(self)@.player_id == old(self)@.player_id,
            starts_fresh(final(self)@),
    {
        self.reset();
        self.status = Status::Paused;
    }
}

/// The value of the decimal digits `digits`, read left to right.
pub open spec fn digits_value(digits: Seq<u8>) -> int
    decreases digits.len(),
{
    if digits.len() == 0 {
        0
    } else {
        digits_value(digits.drop_last()) * 10 + (digits.last() - 48)
    }
}

/// Whether every byte of `s` is an ASCII decimal digit.
pub open spec fn all_digits(s: Seq<u8>) -> bool {
    forall|i: int| 0 <= i < s.len() ==> 48 <= #[trigger] s[i] <= 57
}

/// The number a text names, as Rust's `u8::from_str` reads it: an optional
/// `+` followed by at least one decimal digit, worth at most 255.
pub open spec fn spec_parse_u8(s: Seq<u8>) -> Option<u8> {
    let digits = if s.len() > 0 && s[0] == 43 { s.drop_first() } else { s };
    if digits.len() > 0 && all_digits(digits) && digits_value(digits) <= 255 {
        Some(digits_value(digits) as u8)
    } else {
        None
    }
}

/// The player number that the server's greeting `raw` assigns: the number
/// the text names, or 1 when it names none.
pub fn player_id_from_greeting(raw: &[u8]) -> (id: u8)
    ensures
        id == (match spec_parse_u8(raw@) {
            Some(n) => n,
            None => 1,
        }),
{
    let start: usize = if raw.len() > 0 && raw[0] == 43 { 1 } else { 0 };
    let ghost digits = if raw@.len() > 0 && raw@[0] == 43 { raw@.drop_first() } else { raw@ };
    assert(digits =~= raw@.skip(start as int));
    if start >= raw.len() {
        return 1;
    }
    let mut value: u32 = 0;
    let mut i: usize = start;
    while i < raw.len()
        invariant
            start <= i <= raw.len(),
            start < raw.len(),
            digits =~= raw@.skip(start as int),
            digits == (if raw@.len() > 0 && raw@[0] == 43 { raw@.drop_first() } else { raw@ }),
            all_digits(raw@.subrange(start as int, i as int)),
            value == digits_value(raw@.subrange(start as int, i as int)),
            value <= 255,
        decreases raw.len() - i,
    {
        let c = raw[i];
        if c < 48 || c > 57 {
            proof {
                assert(digits[i - start] == c);
                assert(!all_digits(digits));
                assert(spec_parse_u8(raw@) is None);
            }
            return 1;
        }
        let next = value * 10 + (c - 48) as u32;
        proof {
            let sub = raw@.subrange(start as int, i + 1);
            assert(sub.drop_last() =~= raw@.subrange(start as int, i as int));
            assert(sub.last() == c);
            assert(all_digits(sub));
        }
        if next > 255 {
            proof {
                assert(digits.take(i + 1 - start) =~= raw@.subrange(start as int, i + 1));
                if all_digits(digits) {
                    lemma_digits_value_grows(digits, i + 1 - start);
                    assert(digits_value(digits) > 255);
                }
                assert(spec_parse_u8(raw@) is None);
            }
            return 1;
        }
        value = next;
        i = i + 1;
    }
    assert(raw@.subrange(start as int, raw.len() as int) =~= digits);
    value as u8
}

/// A run of digits is worth at least as much as any of its prefixes.
pub proof fn lemma_digits_value_grows(digits: Seq<u8>, k: int)
    requires
        0 <= k <= digits.len(),
        all_digits(digits),
    ensures
        digits_value(digits.take(k)) <= digits_value(digits),
    decreases digits.len(),
{
    if k < digits.len() {
        assert(digits.drop_last().take(k) =~= digits.take(k));
        assert(all_digits(digits.drop_last()));
        lemma_digits_value_grows(digits.drop_last(), k);
        assert(digits_value(digits.drop_last()) >= 0) by {
            lemma_digits_value_nonneg(digits.drop_last());
        }
        assert(48 <= digits.last());
    } else {
        assert(digits.take(k) =~= digits);
    }
}

/// A run of digits is worth at least zero.
pub proof fn lemma_digits_value_nonneg(digits: Seq<u8>)
    requires
        all_digits(digits),
    ensures
        digits_value(digits) >= 0,
    decreases digits.len(),
{
    if digits.len() > 0 {
        assert(all_digits(digits.drop_last()));
        lemma_digits_value_nonneg(digits.drop_last());
        assert(48 <= digits.last());
    }
}

} // verus!
