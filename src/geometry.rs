//! Screen-space coordinates in fixed point, and the viewport's dimensions.
use vstd::prelude::*;

verus! {

/// Units per pixel: coordinates and velocities count ten-thousandths of a pixel.
pub const UNIT: i64 = 10000;

/// Viewport width (640 px).
pub const SW: i64 = 6400000;

/// Viewport height (480 px).
pub const SH: i64 = 4800000;

/// Width of a sprite (27 px).
pub const SPRITE_W: i64 = 270000;

/// Height of a sprite (29 px).
pub const SPRITE_H: i64 = 290000;

/// Added to every vertical velocity once per frame (0.0981 px).
pub const GRAVITY: i64 = 981;

/// A sprite whose top edge is at or below this line touches the floor.
pub const FLOOR_Y: i64 = SH - SPRITE_H;

/// A sprite whose left edge is right of this line is past the right wall.
pub const RIGHT_X: i64 = SW - SPRITE_W;

/// Largest magnitude of a coordinate for which one physics step cannot
/// overflow (10^13 px, far beyond any reachable screen position).
pub const MAX_COORD: i64 = 100000000000000000;

/// A point or displacement in screen space, in units of `UNIT` per pixel.
#[derive(Clone, Copy, Debug, PartialEq, Eq, Structural)]
pub struct Vector {
    pub x: i64,
    pub y: i64,
}

/// Both components have magnitude at most `MAX_COORD`.
pub open spec fn bounded(v: Vector) -> bool {
    -MAX_COORD <= v.x <= MAX_COORD && -MAX_COORD <= v.y <= MAX_COORD
}

impl Vector {
    /// The vector with the given components.
    pub fn new(x: i64, y: i64) -> (r: Vector)
        ensures
            r.x == x,
            r.y == y,
    {
        Vector { x, y }
    }

    /// Whether both components have magnitude at most `MAX_COORD`.
    pub fn is_bounded(&self) -> (r: bool)
        ensures
            r == bounded(*self),
    {
        -MAX_COORD <= self.x && self.x <= MAX_COORD && -MAX_COORD <= self.y && self.y <= MAX_COORD
    }
}

} // verus!
