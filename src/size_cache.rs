use vstd::prelude::*;
use crate::vec::Vec2;

verus! {

/// A minimum size remembered together with the constraint that produced it.
#[derive(Clone, Copy, Debug, PartialEq, Eq, Structural)]
pub struct SizeCache {
    pub value: Vec2,
    pub constraint: Vec2,
}

/// One axis accepts a new constraint when it equals the old one, or when the
/// old one was roomier than the value and the new one still holds the value.
pub open spec fn axis_accepts(value: usize, constraint: usize, request: usize) -> bool {
    request == constraint || (value < constraint && value <= request)
}

impl SizeCache {
    pub open spec fn accepts(self, request: Vec2) -> bool {
        axis_accepts(self.value.x, self.constraint.x, request.x)
            && axis_accepts(self.value.y, self.constraint.y, request.y)
    }

    pub fn build(value: Vec2, constraint: Vec2) -> (r: SizeCache)
        ensures
            r.value == value,
            r.constraint == constraint,
    {
        SizeCache { value, constraint }
    }

    pub fn accept(&self, request: Vec2) -> (r: bool)
        ensures
            r == self.accepts(request),
    {
        let ax = request.x == self.constraint.x || (self.value.x < self.constraint.x
            && self.value.x <= request.x);
        let ay = request.y == self.constraint.y || (self.value.y < self.constraint.y
            && self.value.y <= request.y);
        ax && ay
    }
}

/// A cache always accepts the very constraint it was built for.
pub proof fn lemma_accepts_own_constraint(c: SizeCache)
    ensures
        c.accepts(c.constraint),
{
}

} // verus!
