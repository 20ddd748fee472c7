//! Four-channel colors in fixed point, and the fixed colors of the demo.
use vstd::prelude::*;

verus! {

/// Full intensity of a channel: channels count thousandths.
pub const FULL: u16 = 1000;

/// Number of colors in the palette that new sprites are tinted from.
pub const PALETTE_LEN: usize = 3;

/// A color with red, green, blue and alpha channels, each in thousandths of
/// full intensity (`FULL` is 1.0).
#[derive(Clone, Copy, Debug, PartialEq, Eq, Structural)]
pub struct Color {
    pub r: u16,
    pub g: u16,
    pub b: u16,
    pub a: u16,
}

/// The color with the given channels.
pub open spec fn rgba(r: u16, g: u16, b: u16, a: u16) -> Color {
    Color { r, g, b, a }
}

/// The palette: a reddish, a greenish and a bluish tint, each translucent.
pub open spec fn palette(i: int) -> Color
    recommends
        0 <= i < PALETTE_LEN,
{
    if i == 0 {
        rgba(1000, 250, 250, 750)
    } else if i == 1 {
        rgba(250, 1000, 250, 600)
    } else {
        rgba(250, 250, 1000, 650)
    }
}

/// The color the frame is cleared to: an opaque dark grey.
pub open spec fn background() -> Color {
    rgba(190, 190, 190, 1000)
}

/// The color of the panel behind the performance overlay: half-transparent black.
pub open spec fn panel() -> Color {
    rgba(0, 0, 0, 500)
}

impl Color {
    /// The color with the given channels.
    pub fn new(r: u16, g: u16, b: u16, a: u16) -> (c: Color)
        ensures
            c == rgba(r, g, b, a),
    {
        Color { r, g, b, a }
    }

    /// Entry `i` of the palette.
    pub fn from_palette(i: usize) -> (c: Color)
        requires
            i < PALETTE_LEN,
        ensures
            c == palette(i as int),
    {
        if i == 0 {
            Color::new(1000, 250, 250, 750)
        } else if i == 1 {
            Color::new(250, 1000, 250, 600)
        } else {
            Color::new(250, 250, 1000, 650)
        }
    }

    /// The background color.
    pub fn background() -> (c: Color)
        ensures
            c == background(),
    {
        Color::new(190, 190, 190, 1000)
    }

    /// The overlay panel's color.
    pub fn panel() -> (c: Color)
        ensures
            c == panel(),
    {
        Color::new(0, 0, 0, 500)
    }
}

} // verus!
