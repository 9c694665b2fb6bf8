//! A point of the playfield with sub-pixel precision.
use vstd::prelude::*;

verus! {

/// A point of the playfield; both coordinates are in thousandths of a pixel.
#[derive(Clone, Copy, Debug, PartialEq, Eq)]
pub struct Coordinate {
    pub x: i32,
    pub y: i32,
}

impl Coordinate {
    /// The point with the given Cartesian coordinates.
    pub fn from_cartesian(x: i32, y: i32) -> (c: Coordinate)
        ensures
            c.x == x,
            c.y == y,
    {
        Coordinate { x, y }
    }

    /// The Cartesian coordinates of the point.
    pub fn get_cartesian(self) -> (r: (i32, i32))
        ensures
            r == (self.x, self.y),
    {
        (self.x, self.y)
    }
}

} // verus!
