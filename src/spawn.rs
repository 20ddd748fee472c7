//! Creating sprites: the startup population and batches spawned on demand.
use vstd::prelude::*;
use crate::color::{Color, PALETTE_LEN, palette};
use crate::geometry::Vector;
use crate::gopher::Gopher;

verus! {

/// Sprites in the store after startup.
pub const STARTING_GOPHERS: usize = 1000;

/// Sprites added by one spawn request.
pub const GOPHERS_PER_CLICK: usize = 1000;

/// A component of a new sprite's velocity is its draw times this (5 px at most).
pub const SPEED_FACTOR: i64 = 5;

/// The random values that make one new sprite: two draws in `[0, 1)` in parts
/// of `DRAW_SCALE` for the velocity's components, and a palette index.
#[derive(Clone, Copy, Debug, PartialEq, Eq, Structural)]
pub struct SpawnDraw {
    pub vx: u32,
    pub vy: u32,
    pub color: usize,
}

/// The palette index of the draw names a palette entry.
pub open spec fn valid_draw(d: SpawnDraw) -> bool {
    d.color < PALETTE_LEN
}

/// Every draw of the sequence is valid.
pub open spec fn valid_draws(ds: Seq<SpawnDraw>) -> bool {
    forall|i: int| 0 <= i < ds.len() ==> #[trigger] valid_draw(ds[i])
}

/// The sprite made at `origin` from the draw `d`.
pub open spec fn spawned(origin: Vector, d: SpawnDraw) -> Gopher {
    Gopher {
        pos: origin,
        vel: Vector { x: (SPEED_FACTOR * d.vx) as i64, y: (SPEED_FACTOR * d.vy) as i64 },
        color: palette(d.color as int),
    }
}

/// The sprites made at `origin` from the draws, one each, in order.
pub open spec fn batch(origin: Vector, ds: Seq<SpawnDraw>) -> Seq<Gopher> {
    ds.map_values(|d: SpawnDraw| spawned(origin, d))
}

/// The screen's top-left corner, where the startup population appears.
pub open spec fn top_left() -> Vector {
    Vector { x: 0, y: 0 }
}

/// A new sprite at `origin` from the draw `d`.
pub fn new_gopher(origin: Vector, d: SpawnDraw) -> (g: Gopher)
    requires
        valid_draw(d),
    ensures
        g == spawned(origin, d),
{
    Gopher {
        pos: origin,
        vel: Vector { x: SPEED_FACTOR * (d.vx as i64), y: SPEED_FACTOR * (d.vy as i64) },
        color: Color::from_palette(d.color),
    }
}

/// Appends one new sprite at `origin` for each draw, in order. What was in
/// the store stays as it was; with no draws nothing changes.
pub fn spawn_batch(store: &mut Vec<Gopher>, origin: Vector, draws: &Vec<SpawnDraw>)
    requires
        valid_draws(draws@),
        old(store)@.len() + draws@.len() <= usize::MAX,
    ensures
        final(store)@ == old(store)@ + batch(origin, draws@),
        final(store)@.len() == old(store)@.len() + draws@.len(),
        final(store)@.subrange(0, old(store)@.len() as int) == old(store)@,
        forall|i: int|
            old(store)@.len() <= i < final(store)@.len() ==> (#[trigger] final(store)@[i]).pos
                == origin,
        draws@.len() == 0 ==> final(store)@ == old(store)@,
{
    let ghost start = store@;
    let mut i: usize = 0;
    while i < draws.len()
        invariant
            valid_draws(draws@),
            start.len() + draws@.len() <= usize::MAX,
            i <= draws@.len(),
            store@ == start + batch(origin, draws@.subrange(0, i as int)),
        decreases draws@.len() - i,
    {
        assert(valid_draw(draws@[i as int]));
        let g = new_gopher(origin, draws[i]);
        store.push(g);
        assert(draws@.subrange(0, i + 1) == draws@.subrange(0, i as int).push(draws@[i as int]));
        assert(batch(origin, draws@.subrange(0, i + 1)) == batch(origin, draws@.subrange(0, i as int)).push(g));
        assert(store@ == start + batch(origin, draws@.subrange(0, i + 1)));
        i = i + 1;
    }
    assert(draws@.subrange(0, i as int) == draws@);
    assert(store@.subrange(0, start.len() as int) == start);
}

/// The startup population: one sprite at the top-left corner per draw.
pub fn setup(draws: &Vec<SpawnDraw>) -> (store: Vec<Gopher>)
    requires
        draws@.len() == STARTING_GOPHERS,
        valid_draws(draws@),
    ensures
        store@ == batch(top_left(), draws@),
        store@.len() == STARTING_GOPHERS,
        forall|i: int| 0 <= i < store@.len() ==> (#[trigger] store@[i]).pos == top_left(),
{
    let mut store: Vec<Gopher> = Vec::new();
    spawn_batch(&mut store, Vector::new(0, 0), draws);
    assert(Seq::<Gopher>::empty() + batch(top_left(), draws@) == batch(top_left(), draws@));
    store
}

} // verus!
