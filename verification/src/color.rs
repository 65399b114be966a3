//! RGB colors as plain values. The canvas stores one color per pixel; the
//! all-zero color doubles as the empty/background color that collision
//! probing treats as unoccupied.

use vstd::prelude::*;

verus! {

/// A 24-bit RGB color.
#[derive(Debug, Clone, Copy, PartialEq, Eq, Structural)]
pub struct Color {
    pub r: u8,
    pub g: u8,
    pub b: u8,
}

impl Color {
    /// The color a pixel has before anything is drawn on it; collision
    /// probing treats pixels of this color as unoccupied.
    pub open spec fn spec_background() -> Color {
        Color { r: 0, g: 0, b: 0 }
    }

    pub fn from_rgb(r: u8, g: u8, b: u8) -> (c: Color)
        ensures
            c == (Color { r, g, b }),
    {
        Color { r, g, b }
    }

    pub fn background() -> (c: Color)
        ensures
            c == Color::spec_background(),
    {
        Color { r: 0, g: 0, b: 0 }
    }
}

} // verus!
