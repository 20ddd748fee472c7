//! One frame: react to input, advance the simulation, and list what to draw.
use vstd::prelude::*;
use crate::color::{Color, background, panel};
use crate::geometry::{Vector, UNIT, bounded};
use crate::gopher::{Gopher, all_in_range, in_range};
use crate::physics::{BounceDraw, advance, advanced};
use crate::spawn::{SpawnDraw, GOPHERS_PER_CLICK, valid_draws, batch, spawn_batch, spawned};

verus! {

/// Input code whose press requests the end of the program.
pub const EXIT_INPUT: i32 = 1;

/// Input code whose press spawns a batch of sprites at the pointer.
pub const SPAWN_INPUT: i32 = 2;

/// What the input looked like at the start of a frame.
#[derive(Clone, Copy, Debug, PartialEq, Eq, Structural)]
pub struct FrameInput {
    pub exit_pressed: bool,
    pub spawn_pressed: bool,
    pub pointer: Vector,
}

/// A line of the performance overlay. The rates are read from the host when
/// the line is drawn; the sprite count is the store's length after the frame.
#[derive(Clone, Copy, Debug, PartialEq, Eq, Structural)]
pub enum OverlayText {
    Lang,
    Fps,
    Tps,
    Count(usize),
}

/// One call to the renderer. Positions and sizes are in fixed point.
#[derive(Clone, Copy, Debug, PartialEq, Eq, Structural)]
pub enum DrawCall {
    Clear(Color),
    Image(Vector, Color),
    Rectangle(Vector, Vector, Color),
    Text(OverlayText, Vector),
}

/// What a frame asks of the host besides the store's new state.
#[derive(Debug)]
pub struct FrameOutput {
    pub request_exit: bool,
    pub calls: Vec<DrawCall>,
}

/// The point `(x, y)` given in whole pixels.
pub open spec fn px(x: int, y: int) -> Vector {
    Vector { x: (x * UNIT) as i64, y: (y * UNIT) as i64 }
}

/// The draw call for one sprite: its image at its position, tinted.
pub open spec fn sprite_call(g: Gopher) -> DrawCall {
    DrawCall::Image(g.pos, g.color)
}

/// The overlay drawn over a store of `n` sprites: a panel and four lines.
pub open spec fn overlay(n: usize) -> Seq<DrawCall> {
    seq![
        DrawCall::Rectangle(px(10, 10), px(125, 55), panel()),
        DrawCall::Text(OverlayText::Lang, px(10, 10)),
        DrawCall::Text(OverlayText::Fps, px(10, 24)),
        DrawCall::Text(OverlayText::Tps, px(10, 36)),
        DrawCall::Text(OverlayText::Count(n), px(10, 48)),
    ]
}

/// Everything a frame draws over the store `s`, in order: the clear, one
/// image per sprite in store order, then the overlay.
pub open spec fn frame_calls(s: Seq<Gopher>) -> Seq<DrawCall> {
    seq![DrawCall::Clear(background())] + s.map_values(|g: Gopher| sprite_call(g)) + overlay(
        s.len() as usize,
    )
}

/// The store after the frame's input was handled and before it was advanced.
pub open spec fn grown(old: Seq<Gopher>, input: FrameInput, spawn_draws: Seq<SpawnDraw>) -> Seq<
    Gopher,
> {
    if input.spawn_pressed {
        old + batch(input.pointer, spawn_draws)
    } else {
        old
    }
}

/// The point `(x, y)` given in whole pixels.
fn at(x: i64, y: i64) -> (v: Vector)
    requires
        0 <= x <= 1000,
        0 <= y <= 1000,
    ensures
        v == px(x as int, y as int),
{
    Vector::new(x * UNIT, y * UNIT)
}

/// The draw calls of a frame over the store.
pub fn draw_calls(store: &Vec<Gopher>) -> (calls: Vec<DrawCall>)
    ensures
        calls@ == frame_calls(store@),
{
    let mut calls: Vec<DrawCall> = Vec::new();
    calls.push(DrawCall::Clear(Color::background()));
    let mut i: usize = 0;
    while i < store.len()
        invariant
            i <= store@.len(),
            calls@ == seq![DrawCall::Clear(background())] + store@.subrange(0, i as int).map_values(
                |g: Gopher| sprite_call(g),
            ),
        decreases store@.len() - i,
    {
        let g = store[i];
        calls.push(DrawCall::Image(g.pos, g.color));
        assert(store@.subrange(0, i + 1) == store@.subrange(0, i as int).push(g));
        i = i + 1;
    }
    assert(store@.subrange(0, i as int) == store@);
    let ghost head = calls@;
    calls.push(DrawCall::Rectangle(at(10, 10), at(125, 55), Color::panel()));
    calls.push(DrawCall::Text(OverlayText::Lang, at(10, 10)));
    calls.push(DrawCall::Text(OverlayText::Fps, at(10, 24)));
    calls.push(DrawCall::Text(OverlayText::Tps, at(10, 36)));
    calls.push(DrawCall::Text(OverlayText::Count(store.len()), at(10, 48)));
    assert(calls@ == head + overlay(store@.len() as usize));
    calls
}

/// One frame. A pressed exit input is passed on as a request; a pressed
/// spawn input appends one sprite at the pointer per spawn draw. Then every
/// sprite is advanced, sprite `i` with `bounce_draws[i]`, and the frame's
/// draw calls are listed over the advanced store.
pub fn frame(
    store: &mut Vec<Gopher>,
    input: FrameInput,
    spawn_draws: &Vec<SpawnDraw>,
    bounce_draws: &Vec<BounceDraw>,
) -> (out: FrameOutput)
    requires
        all_in_range(old(store)@),
        old(store)@.len() + GOPHERS_PER_CLICK <= usize::MAX,
        input.spawn_pressed ==> spawn_draws@.len() == GOPHERS_PER_CLICK,
        input.spawn_pressed ==> bounded(input.pointer),
        valid_draws(spawn_draws@),
        bounce_draws@.len() == grown(old(store)@, input, spawn_draws@).len(),
    ensures
        out.request_exit == input.exit_pressed,
        advanced(grown(old(store)@, input, spawn_draws@), bounce_draws@, final(store)@),
        out.calls@ == frame_calls(final(store)@),
{
    if input.spawn_pressed {
        spawn_batch(store, input.pointer, spawn_draws);
        assert forall|i: int| 0 <= i < store@.len() implies #[trigger] in_range(store@[i]) by {
            if i >= old(store)@.len() {
                let d = spawn_draws@[i - old(store)@.len()];
                assert(store@[i] == spawned(input.pointer, d));
            }
        }
    }
    advance(store, bounce_draws);
    let calls = draw_calls(store);
    FrameOutput { request_exit: input.exit_pressed, calls }
}

} // verus!
