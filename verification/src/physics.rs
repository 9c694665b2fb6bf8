//! Contact between the ball and one paddle, in whole pixels.
//!
//! Both versions of the game test the ball against a paddle the same way:
//! when the ball's bounding box overlaps the paddle's box, the ball leaves
//! by the side where the overlap is smallest; otherwise, when one of the two
//! corners of the paddle's face lies inside the ball, the ball is deflected
//! off the corner.
use vstd::prelude::*;

verus! {

/// The ball as the contact test sees it: its centre and radius, in pixels.
#[derive(Clone, Copy, Debug, PartialEq, Eq, Structural)]
pub struct Probe {
    pub x: i64,
    pub y: i64,
    pub r: i64,
}

/// A paddle as the contact test sees it, in pixels. `is_bottom` tells
/// whether the paddle guards the lower edge of the playfield, and so which
/// of its horizontal edges is the face that the ball strikes.
#[derive(Clone, Copy, Debug, PartialEq, Eq, Structural)]
pub struct PaddleBox {
    pub top: i64,
    pub bot: i64,
    pub left: i64,
    pub right: i64,
    pub is_bottom: bool,
}

/// What the ball does on meeting a paddle.
#[derive(Clone, Copy, Debug, PartialEq, Eq, Structural)]
pub enum Contact {
    /// No contact.
    Miss,
    /// The ball strikes the face: its vertical speed turns and its centre
    /// moves to the given row.
    Face(i64),
    /// The ball strikes the left end: its horizontal speed turns and its
    /// centre moves to the given column.
    Left(i64),
    /// The ball strikes the right end, likewise.
    Right(i64),
    /// The ball grazes a corner of the face: its two speeds trade places,
    /// both turned.
    Corner,
}

/// Bounds on the probe that keep every quantity of the test far inside `i64`.
pub open spec fn probe_in_range(p: Probe) -> bool {
    &&& -0x1_0000_0000 <= p.x <= 0x1_0000_0000
    &&& -0x1_0000_0000 <= p.y <= 0x1_0000_0000
    &&& 0 <= p.r <= 255
}

/// Bounds on the box that keep every quantity of the test far inside `i64`.
pub open spec fn box_in_range(b: PaddleBox) -> bool {
    &&& -0x1_0000_0000 <= b.top <= 0x1_0000_0000
    &&& -0x1_0000_0000 <= b.bot <= 0x1_0000_0000
    &&& -0x1_0000_0000 <= b.left <= 0x1_0000_0000
    &&& -0x1_0000_0000 <= b.right <= 0x1_0000_0000
}

/// Whether the point `(cx, cy)` lies inside the ball or on its rim.
pub open spec fn point_in_ball(p: Probe, cx: int, cy: int) -> bool {
    (p.x - cx) * (p.x - cx) + (p.y - cy) * (p.y - cy) <= p.r * p.r
}

/// Whether the ball's bounding box and the paddle's box overlap (edges
/// included), testing the face edges as `top` and `bot` name them.
pub open spec fn boxes_overlap(p: Probe, b: PaddleBox) -> bool {
    &&& p.x + p.r >= b.left
    &&& p.x - p.r <= b.right
    &&& p.y + p.r >= b.top
    &&& p.y - p.r <= b.bot
}

/// How deep the ball has gone into the paddle's face.
pub open spec fn face_overlap(p: Probe, b: PaddleBox) -> int {
    if b.is_bottom { p.y + p.r - b.top } else { b.bot - (p.y - p.r) }
}

/// The row of the paddle's face.
pub open spec fn face_row(b: PaddleBox) -> int {
    if b.is_bottom { b.top as int } else { b.bot as int }
}

/// The outcome of the contact test.
pub open spec fn spec_contact(p: Probe, b: PaddleBox) -> Contact {
    if boxes_overlap(p, b) {
        let face = face_overlap(p, b);
        let ol = p.x + p.r - b.left;
        let or = b.right - (p.x - p.r);
        if face <= ol && face <= or {
            Contact::Face(if b.is_bottom { (b.top - p.r) as i64 } else { (b.bot + p.r) as i64 })
        } else if ol <= or {
            Contact::Left((b.left - p.r) as i64)
        } else {
            Contact::Right((b.right + p.r) as i64)
        }
    } else if point_in_ball(p, b.left as int, face_row(b)) || point_in_ball(
        p,
        b.right as int,
        face_row(b),
    ) {
        Contact::Corner
    } else {
        Contact::Miss
    }
}

/// Whether `(cx, cy)` lies inside the ball.
fn corner_inside(p: &Probe, cx: i64, cy: i64) -> (r: bool)
    requires
        probe_in_range(*p),
        -0x1_0000_0000 <= cx <= 0x1_0000_0000,
        -0x1_0000_0000 <= cy <= 0x1_0000_0000,
    ensures
        r == point_in_ball(*p, cx as int, cy as int),
{
    let dx = p.x - cx;
    let dy = p.y - cy;
    assert(dx * dx <= 0x4_0000_0000_0000_0000) by (nonlinear_arith)
        requires -0x2_0000_0000 <= dx <= 0x2_0000_0000;
    assert(dy * dy <= 0x4_0000_0000_0000_0000) by (nonlinear_arith)
        requires -0x2_0000_0000 <= dy <= 0x2_0000_0000;
    assert(0 <= dx * dx && 0 <= dy * dy) by (nonlinear_arith);
    assert(p.r * p.r <= 255 * 255) by (nonlinear_arith)
        requires 0 <= p.r <= 255;
    let dx2 = (dx as i128) * (dx as i128);
    let dy2 = (dy as i128) * (dy as i128);
    let r2 = (p.r as i128) * (p.r as i128);
    dx2 + dy2 <= r2
}

/// The contact test of the ball against one paddle.
pub fn contact(p: &Probe, b: &PaddleBox) -> (c: Contact)
    requires
        probe_in_range(*p),
        box_in_range(*b),
    ensures
        c == spec_contact(*p, *b),
{
    let s = p.y + p.r;
    let n = p.y - p.r;
    let e = p.x + p.r;
    let w = p.x - p.r;
    if e >= b.left && w <= b.right && s >= b.top && n <= b.bot {
        let face = if b.is_bottom { s - b.top } else { b.bot - n };
        let ol = e - b.left;
        let or = b.right - w;
        if face <= ol && face <= or {
            Contact::Face(if b.is_bottom { b.top - p.r } else { b.bot + p.r })
        } else if ol <= or {
            Contact::Left(b.left - p.r)
        } else {
            Contact::Right(b.right + p.r)
        }
    } else {
        let cy = if b.is_bottom { b.top } else { b.bot };
        if corner_inside(p, b.left, cy) || corner_inside(p, b.right, cy) {
            Contact::Corner
        } else {
            Contact::Miss
        }
    }
}

} // verus!
