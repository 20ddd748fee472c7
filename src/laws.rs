//! Properties of the bounce model, proved over the one-frame relation that
//! `step`, `advance` and `frame` guarantee.
use vstd::prelude::*;
use crate::geometry::{GRAVITY, FLOOR_Y, RIGHT_X};
use crate::gopher::Gopher;
use crate::physics::{BounceDraw, COIN_HALF, stepped, advanced, next_pos_y};

verus! {

/// A sprite that stays strictly between the ceiling and the floor moves by
/// its velocity after gravity, and that velocity changes by exactly gravity.
/// No random draw is used: the same happens whatever `d` holds.
pub proof fn lemma_free_flight(g: Gopher, d: BounceDraw, n: Gopher)
    requires
        stepped(g, d, n),
        0 < next_pos_y(g) < FLOOR_Y,
    ensures
        n.pos.x == g.pos.x + g.vel.x,
        n.pos.y == g.pos.y + g.vel.y + GRAVITY,
        n.vel.y == g.vel.y + GRAVITY,
        forall|e: BounceDraw, m: Gopher| stepped(g, e, m) ==> m == n,
{
}

/// After a step, a sprite left of the left wall moves right or stands
/// still, and one right of the right wall moves left or stands still.
pub proof fn lemma_horizontal_clamp(g: Gopher, d: BounceDraw, n: Gopher)
    requires
        stepped(g, d, n),
    ensures
        n.pos.x < 0 ==> n.vel.x >= 0,
        n.pos.x > RIGHT_X ==> n.vel.x <= 0,
{
}

/// A sprite that ends a step above the ceiling keeps its new position and
/// has its vertical velocity, as it was after gravity, reversed.
pub proof fn lemma_ceiling_reflection(g: Gopher, d: BounceDraw, n: Gopher)
    requires
        stepped(g, d, n),
        n.pos.y < 0,
    ensures
        n.pos.y == g.pos.y + g.vel.y + GRAVITY,
        n.vel.y == -(g.vel.y + GRAVITY),
{
}

/// Advancing a store keeps its length and every sprite's color.
pub proof fn lemma_color_kept(old: Seq<Gopher>, draws: Seq<BounceDraw>, new: Seq<Gopher>, i: int)
    requires
        advanced(old, draws, new),
        0 <= i < old.len(),
    ensures
        new.len() == old.len(),
        new[i].color == old[i].color,
{
    assert(stepped(old[i], draws[i], new[i]));
}

/// On a floor hit without a kick, the vertical velocity after gravity is
/// damped by 17/40 (0.85 / 2), rounded toward zero.
pub proof fn lemma_floor_damping(g: Gopher, d: BounceDraw, n: Gopher)
    requires
        stepped(g, d, n),
        next_pos_y(g) >= FLOOR_Y,
        d.coin <= COIN_HALF,
        g.vel.y + GRAVITY >= 0,
    ensures
        n.vel.y == (g.vel.y + GRAVITY) * 17 / 40,
{
}

} // verus!
