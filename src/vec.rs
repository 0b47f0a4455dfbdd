use vstd::prelude::*;

verus! {

/// A pair of non-negative integers, used both as a size and as a position.
#[derive(Clone, Copy, Debug, PartialEq, Eq, Structural)]
pub struct Vec2 {
    pub x: usize,
    pub y: usize,
}

pub open spec fn min_nat(a: usize, b: usize) -> usize {
    if a <= b { a } else { b }
}

pub open spec fn max_nat(a: usize, b: usize) -> usize {
    if a >= b { a } else { b }
}

impl Vec2 {
    pub fn new(x: usize, y: usize) -> (r: Vec2)
        ensures
            r.x == x,
            r.y == y,
    {
        Vec2 { x, y }
    }

    /// Component-wise minimum.
    pub fn min(self, other: Vec2) -> (r: Vec2)
        ensures
            r.x == min_nat(self.x, other.x),
            r.y == min_nat(self.y, other.y),
    {
        Vec2 {
            x: if self.x <= other.x { self.x } else { other.x },
            y: if self.y <= other.y { self.y } else { other.y },
        }
    }

    /// Component-wise maximum.
    pub fn max(self, other: Vec2) -> (r: Vec2)
        ensures
            r.x == max_nat(self.x, other.x),
            r.y == max_nat(self.y, other.y),
    {
        Vec2 {
            x: if self.x >= other.x { self.x } else { other.x },
            y: if self.y >= other.y { self.y } else { other.y },
        }
    }
}

} // verus!
