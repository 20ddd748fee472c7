//! The simulated sprite.
use vstd::prelude::*;
use crate::color::Color;
use crate::geometry::{Vector, bounded};

verus! {

/// One sprite: where it is drawn, how far it moves per frame, and its tint.
/// The tint is fixed when the sprite is spawned.
#[derive(Clone, Copy, Debug, PartialEq, Eq, Structural)]
pub struct Gopher {
    pub pos: Vector,
    pub vel: Vector,
    pub color: Color,
}

/// Position and velocity are within the range on which a physics step is
/// free of overflow.
pub open spec fn in_range(g: Gopher) -> bool {
    bounded(g.pos) && bounded(g.vel)
}

/// Every sprite of the sequence is in range.
pub open spec fn all_in_range(s: Seq<Gopher>) -> bool {
    forall|i: int| 0 <= i < s.len() ==> #[trigger] in_range(s[i])
}

impl Gopher {
    /// Whether position and velocity are within the range of a physics step.
    pub fn is_in_range(&self) -> (r: bool)
        ensures
            r == in_range(*self),
    {
        self.pos.is_bounded() && self.vel.is_bounded()
    }
}

/// Whether every sprite of the store is within the range of a physics step.
pub fn store_in_range(store: &Vec<Gopher>) -> (r: bool)
    ensures
        r == all_in_range(store@),
{
    let mut i: usize = 0;
    while i < store.len()
        invariant
            i <= store@.len(),
            all_in_range(store@.subrange(0, i as int)),
        decreases store@.len() - i,
    {
        if !store[i].is_in_range() {
            assert(!in_range(store@[i as int]));
            return false;
        }
        assert(store@.subrange(0, i + 1) == store@.subrange(0, i as int).push(store@[i as int]));
        i = i + 1;
    }
    assert(store@.subrange(0, i as int) == store@);
    true
}

} // verus!
