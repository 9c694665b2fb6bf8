//! How the server seats the players who connect.
use vstd::prelude::*;

verus! {

/// A room of the server and which of its two seats are taken.
#[derive(Clone, Copy, Debug, PartialEq, Eq)]
pub struct Seats {
    pub room: u16,
    pub player1: bool,
    pub player2: bool,
}

/// Whether exactly one seat of the room is taken, so that a newcomer can
/// join the player waiting there.
pub open spec fn is_waiting(s: Seats) -> bool {
    s.player1 != s.player2
}

/// Where a newcomer sits: in a room, as player 1 or as player 2.
#[derive(Clone, Copy, Debug, PartialEq, Eq)]
pub struct Seat {
    /// The room chosen, or `None` when a new room must be opened.
    pub room: Option<u16>,
    pub is_player1: bool,
}

/// The seat of a newcomer, the rooms taken in the order given: the first
/// room where a player waits, on its free seat; when there is none, a new
/// room, as player 1.
pub open spec fn spec_choose_seat(rooms: Seq<Seats>) -> Seat
    decreases rooms.len(),
{
    if rooms.len() == 0 {
        Seat { room: None, is_player1: true }
    } else if is_waiting(rooms[0]) {
        Seat { room: Some(rooms[0].room), is_player1: !rooms[0].player1 }
    } else {
        spec_choose_seat(rooms.drop_first())
    }
}

/// Chooses the seat of a newcomer among `rooms`.
pub fn choose_seat(rooms: &Vec<Seats>) -> (s: Seat)
    ensures
        s == spec_choose_seat(rooms@),
{
    let mut i: usize = 0;
    assert(rooms@.skip(0) =~= rooms@);
    while i < rooms.len()
        invariant
            0 <= i <= rooms.len(),
            spec_choose_seat(rooms@) == spec_choose_seat(rooms@.skip(i as int)),
        decreases rooms.len() - i,
    {
        let r = rooms[i];
        assert(rooms@.skip(i as int)[0] == r);
        assert(rooms@.skip(i as int).drop_first() =~= rooms@.skip(i + 1));
        if r.player1 && !r.player2 {
            return Seat { room: Some(r.room), is_player1: false };
        } else if !r.player1 && r.player2 {
            return Seat { room: Some(r.room), is_player1: true };
        }
        i = i + 1;
    }
    Seat { room: None, is_player1: true }
}

/// Takes the number for a new room: the counter's value, which then
/// moves on by one.
pub fn claim_room_id(next_room: &mut u16) -> (id: u16)
    requires
        *old(next_room) < u16::MAX,
    ensures
        id == *old(next_room),
        *final(next_room) == *old(next_room) + 1,
{
    let id = *next_room;
    *next_room = *next_room + 1;
    id
}

} // verus!
