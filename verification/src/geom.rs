use vstd::prelude::*;

verus! {

/// A room-local tile position. Game coordinates range over `0..=49`;
/// adjacency is well defined for any pair of byte coordinates.
#[derive(Clone, Copy, PartialEq, Eq, Structural, Debug)]
pub struct Pos {
    pub x: u8,
    pub y: u8,
}

pub open spec fn coord_dist(a: u8, b: u8) -> int {
    if a >= b {
        a - b
    } else {
        b - a
    }
}

/// Two tiles are near when each coordinate differs by at most one;
/// in particular a tile is near itself.
pub open spec fn near(a: Pos, b: Pos) -> bool {
    coord_dist(a.x, b.x) <= 1 && coord_dist(a.y, b.y) <= 1
}

/// Adjacency test matching the game's range-1 notion ("near to").
pub fn is_near(a: Pos, b: Pos) -> (r: bool)
    ensures
        r == near(a, b),
{
    let dx = if a.x >= b.x { a.x - b.x } else { b.x - a.x };
    let dy = if a.y >= b.y { a.y - b.y } else { b.y - a.y };
    dx <= 1 && dy <= 1
}

} // verus!
