//! One frame of motion: gravity, integration, and the bounce model.
use vstd::prelude::*;
use crate::geometry::{Vector, GRAVITY, FLOOR_Y, RIGHT_X, MAX_COORD};
use crate::gopher::{Gopher, in_range, all_in_range};

verus! {

/// A draw in `[0, 1)` in fixed point counts this many parts of the unit interval.
pub const DRAW_SCALE: u32 = 10000;

/// A floor hit kicks the sprite upward when its coin draw is above this (one half).
pub const COIN_HALF: u32 = 5000;

/// The upward kick of a floor hit is the kick draw times this (8 px at most).
pub const KICK_FACTOR: i64 = 8;

/// The random values a sprite may use in one frame, each a draw in `[0, 1)`
/// given in parts of `DRAW_SCALE`. They matter only when the sprite hits the
/// floor: `coin` decides whether it is kicked, `kick` how hard.
#[derive(Clone, Copy, Debug, PartialEq, Eq, Structural)]
pub struct BounceDraw {
    pub coin: u32,
    pub kick: u32,
}

/// Vertical damping on the floor: multiplication by 0.85 / 2 = 17 / 40,
/// rounded toward zero.
pub open spec fn damp(v: int) -> int {
    if v >= 0 {
        v * 17 / 40
    } else {
        -((-v) * 17 / 40)
    }
}

/// Vertical velocity after gravity, before any bounce.
pub open spec fn falling_vel_y(g: Gopher) -> int {
    g.vel.y + GRAVITY
}

/// Horizontal position after one frame.
pub open spec fn next_pos_x(g: Gopher) -> int {
    g.pos.x + g.vel.x
}

/// Vertical position after one frame.
pub open spec fn next_pos_y(g: Gopher) -> int {
    g.pos.y + falling_vel_y(g)
}

/// Vertical velocity after one frame. On the floor it is damped and, when
/// the coin comes up, kicked upward; above the ceiling it is reflected.
pub open spec fn next_vel_y(g: Gopher, d: BounceDraw) -> int {
    let v = falling_vel_y(g);
    if next_pos_y(g) >= FLOOR_Y {
        if d.coin > COIN_HALF {
            damp(v) - KICK_FACTOR * d.kick
        } else {
            damp(v)
        }
    } else if next_pos_y(g) < 0 {
        -v
    } else {
        v
    }
}

/// Horizontal velocity after one frame: pointing left past the right wall,
/// right past the left wall, unchanged in between.
pub open spec fn next_vel_x(g: Gopher) -> int {
    let v = g.vel.x as int;
    let mag = if v < 0 { -v } else { v };
    if next_pos_x(g) > RIGHT_X {
        -mag
    } else if next_pos_x(g) < 0 {
        mag
    } else {
        v
    }
}

/// `n` is `g` after one frame with the draw `d`: its color is kept.
pub open spec fn stepped(g: Gopher, d: BounceDraw, n: Gopher) -> bool {
    &&& n.pos.x == next_pos_x(g)
    &&& n.pos.y == next_pos_y(g)
    &&& n.vel.x == next_vel_x(g)
    &&& n.vel.y == next_vel_y(g, d)
    &&& n.color == g.color
}

/// `new` is `old` after one frame, each sprite with the draw of its index.
pub open spec fn advanced(old: Seq<Gopher>, draws: Seq<BounceDraw>, new: Seq<Gopher>) -> bool {
    &&& new.len() == old.len()
    &&& draws.len() == old.len()
    &&& forall|i: int| 0 <= i < old.len() ==> #[trigger] stepped(old[i], draws[i], new[i])
}

/// Damps a vertical velocity on a floor hit.
pub fn damp_velocity(v: i64) -> (r: i64)
    requires
        -MAX_COORD - GRAVITY <= v <= MAX_COORD + GRAVITY,
    ensures
        r == damp(v as int),
{
    if v >= 0 {
        v * 17 / 40
    } else {
        -((-v) * 17 / 40)
    }
}

/// The sprite `g` after one frame with the draw `d`.
pub fn step(g: Gopher, d: BounceDraw) -> (n: Gopher)
    requires
        in_range(g),
    ensures
        stepped(g, d, n),
{
    let mut vy = g.vel.y + GRAVITY;
    let px = g.pos.x + g.vel.x;
    let py = g.pos.y + vy;
    if py >= FLOOR_Y {
        vy = damp_velocity(vy);
        if d.coin > COIN_HALF {
            vy = vy - KICK_FACTOR * (d.kick as i64);
        }
    } else if py < 0 {
        vy = -vy;
    }
    let mut vx = g.vel.x;
    if px > RIGHT_X {
        vx = if vx < 0 { vx } else { -vx };
    } else if px < 0 {
        vx = if vx < 0 { -vx } else { vx };
    }
    Gopher { pos: Vector { x: px, y: py }, vel: Vector { x: vx, y: vy }, color: g.color }
}

/// Advances every sprite of the store by one frame, in store order, sprite
/// `i` with `draws[i]`. No sprite is added or removed, and none changes color.
pub fn advance(store: &mut Vec<Gopher>, draws: &Vec<BounceDraw>)
    requires
        draws@.len() == old(store)@.len(),
        all_in_range(old(store)@),
    ensures
        advanced(old(store)@, draws@, final(store)@),
        final(store)@.len() == old(store)@.len(),
        forall|i: int|
            0 <= i < old(store)@.len() ==> (#[trigger] final(store)@[i]).color == old(store)@[i].color,
{
    let ghost start = store@;
    let mut i: usize = 0;
    while i < store.len()
        invariant
            store@.len() == start.len(),
            draws@.len() == start.len(),
            all_in_range(start),
            i <= start.len(),
            forall|j: int| 0 <= j < i ==> #[trigger] stepped(start[j], draws@[j], store@[j]),
            forall|j: int| i <= j < start.len() ==> #[trigger] store@[j] == start[j],
        decreases start.len() - i,
    {
        assert(in_range(start[i as int]));
        let n = step(store[i], draws[i]);
        store.set(i, n);
        i = i + 1;
    }
    assert forall|j: int| 0 <= j < start.len() implies #[trigger] store@[j].color == start[j].color by {
        assert(stepped(start[j], draws@[j], store@[j]));
    }
}

} // verus!
