//! The color policy tables: each scheme maps a spawned piece's shape, the
//! digit being built, and the board's position in the six-digit display to
//! the piece's draw color. Pure lookup data, consumed once per spawned piece.

use vstd::prelude::*;

use crate::color::Color;
use crate::digits::Digit;
use crate::tetromino::Shape;

verus! {

/// The available color-selection policies.
#[derive(Debug, Clone, Copy, PartialEq, Eq, Structural)]
pub enum Colorscheme {
    /// Classic colors with bright, distinct shades per shape.
    Original,
    /// Shades of gray for a monochrome look.
    Grayscale,
    /// Colors keyed by the digit position in the time display.
    Position,
    /// Each digit gets its own distinct color.
    Digit,
    /// Vibrant neon colors.
    Neon,
    /// Soft, muted pastel colors.
    Pastel,
    /// Shades of blue and turquoise.
    Ocean,
    /// Warm fall colors.
    Autumn,
    /// Reds, greens and gold.
    Christmas,
    /// A warm spectrum of yellows and oranges.
    Warm,
    /// Digital green shades.
    Matrix,
    /// Deep purple and violet shades.
    Purple,
}

/// The color a scheme assigns to a piece of the given shape, spawned while
/// the given digit is displayed at the given position of the display. Only
/// the `Position` scheme reads `position`, and only for positions up to 6.
pub open spec fn spec_apply(
    scheme: Colorscheme,
    shape: Shape,
    digit: Digit,
    position: int,
) -> Color {
    match scheme {
        Colorscheme::Original => match shape {
            Shape::L => (Color { r: 223, g: 155, b: 42 }),
            Shape::J => (Color { r: 22, g: 0, b: 230 }),
            Shape::O => (Color { r: 237, g: 238, b: 57 }),
            Shape::T => (Color { r: 136, g: 26, b: 231 }),
            Shape::I => (Color { r: 103, g: 232, b: 236 }),
            Shape::S => (Color { r: 100, g: 233, b: 49 }),
            Shape::Z => (Color { r: 213, g: 50, b: 27 }),
        },
        Colorscheme::Grayscale => match shape {
            Shape::L => (Color { r: 178, g: 178, b: 178 }),
            Shape::J => (Color { r: 74, g: 74, b: 74 }),
            Shape::O => (Color { r: 234, g: 234, b: 234 }),
            Shape::T => (Color { r: 98, g: 98, b: 98 }),
            Shape::I => (Color { r: 216, g: 216, b: 216 }),
            Shape::S => (Color { r: 200, g: 200, b: 200 }),
            Shape::Z => (Color { r: 120, g: 120, b: 120 }),
        },
        Colorscheme::Position => if position == 0 {
            (Color { r: 237, g: 238, b: 57 })
        } else if position == 1 {
            (Color { r: 213, g: 50, b: 27 })
        } else if position == 2 {
            (Color { r: 223, g: 155, b: 42 })
        } else if position == 3 {
            (Color { r: 136, g: 26, b: 231 })
        } else if position == 4 {
            (Color { r: 103, g: 232, b: 236 })
        } else if position == 5 {
            (Color { r: 100, g: 233, b: 49 })
        } else if position == 6 {
            (Color { r: 213, g: 50, b: 27 })
        } else {
            Color::spec_background()
        },
        Colorscheme::Digit => match digit {
            Digit::Zero => (Color { r: 180, g: 180, b: 180 }),
            Digit::One => (Color { r: 255, g: 215, b: 0 }),
            Digit::Two => (Color { r: 255, g: 105, b: 180 }),
            Digit::Three => (Color { r: 0, g: 139, b: 139 }),
            Digit::Four => (Color { r: 255, g: 160, b: 122 }),
            Digit::Five => (Color { r: 147, g: 112, b: 219 }),
            Digit::Six => (Color { r: 32, g: 178, b: 170 }),
            Digit::Seven => (Color { r: 255, g: 218, b: 185 }),
            Digit::Eight => (Color { r: 176, g: 196, b: 222 }),
            Digit::Nine => (Color { r: 255, g: 192, b: 203 }),
        },
        Colorscheme::Neon => match shape {
            Shape::L => (Color { r: 255, g: 41, b: 117 }),
            Shape::J => (Color { r: 0, g: 255, b: 255 }),
            Shape::O => (Color { r: 255, g: 236, b: 39 }),
            Shape::T => (Color { r: 167, g: 0, b: 255 }),
            Shape::I => (Color { r: 0, g: 255, b: 169 }),
            Shape::S => (Color { r: 123, g: 255, b: 0 }),
            Shape::Z => (Color { r: 255, g: 82, b: 0 }),
        },
        Colorscheme::Pastel => match shape {
            Shape::L => (Color { r: 255, g: 183, b: 197 }),
            Shape::J => (Color { r: 174, g: 198, b: 255 }),
            Shape::O => (Color { r: 255, g: 251, b: 150 }),
            Shape::T => (Color { r: 211, g: 178, b: 255 }),
            Shape::I => (Color { r: 178, g: 255, b: 241 }),
            Shape::S => (Color { r: 178, g: 255, b: 178 }),
            Shape::Z => (Color { r: 255, g: 178, b: 178 }),
        },
        Colorscheme::Ocean => match shape {
            Shape::L => (Color { r: 144, g: 224, b: 239 }),
            Shape::J => (Color { r: 0, g: 119, b: 182 }),
            Shape::O => (Color { r: 202, g: 240, b: 248 }),
            Shape::T => (Color { r: 3, g: 4, b: 94 }),
            Shape::I => (Color { r: 0, g: 150, b: 199 }),
            Shape::S => (Color { r: 72, g: 202, b: 228 }),
            Shape::Z => (Color { r: 0, g: 180, b: 216 }),
        },
        Colorscheme::Autumn => match shape {
            Shape::L => (Color { r: 230, g: 125, b: 35 }),
            Shape::J => (Color { r: 153, g: 62, b: 29 }),
            Shape::O => (Color { r: 255, g: 190, b: 15 }),
            Shape::T => (Color { r: 130, g: 48, b: 56 }),
            Shape::I => (Color { r: 217, g: 80, b: 48 }),
            Shape::S => (Color { r: 85, g: 107, b: 47 }),
            Shape::Z => (Color { r: 168, g: 50, b: 27 }),
        },
        Colorscheme::Christmas => match shape {
            Shape::L => (Color { r: 176, g: 0, b: 0 }),
            Shape::J => (Color { r: 0, g: 105, b: 0 }),
            Shape::O => (Color { r: 255, g: 215, b: 0 }),
            Shape::T => (Color { r: 146, g: 22, b: 34 }),
            Shape::I => (Color { r: 0, g: 140, b: 0 }),
            Shape::S => (Color { r: 212, g: 175, b: 55 }),
            Shape::Z => (Color { r: 190, g: 0, b: 0 }),
        },
        Colorscheme::Warm => match shape {
            Shape::L => (Color { r: 255, g: 167, b: 0 }),
            Shape::J => (Color { r: 255, g: 140, b: 0 }),
            Shape::O => (Color { r: 255, g: 215, b: 0 }),
            Shape::T => (Color { r: 255, g: 198, b: 0 }),
            Shape::I => (Color { r: 255, g: 179, b: 25 }),
            Shape::S => (Color { r: 255, g: 126, b: 0 }),
            Shape::Z => (Color { r: 255, g: 103, b: 0 }),
        },
        Colorscheme::Matrix => match shape {
            Shape::L => (Color { r: 0, g: 255, b: 0 }),
            Shape::J => (Color { r: 0, g: 185, b: 0 }),
            Shape::O => (Color { r: 172, g: 255, b: 172 }),
            Shape::T => (Color { r: 0, g: 140, b: 0 }),
            Shape::I => (Color { r: 0, g: 215, b: 0 }),
            Shape::S => (Color { r: 128, g: 255, b: 128 }),
            Shape::Z => (Color { r: 0, g: 155, b: 0 }),
        },
        Colorscheme::Purple => match shape {
            Shape::L => (Color { r: 148, g: 0, b: 211 }),
            Shape::J => (Color { r: 106, g: 13, b: 173 }),
            Shape::O => (Color { r: 178, g: 102, b: 255 }),
            Shape::T => (Color { r: 75, g: 0, b: 130 }),
            Shape::I => (Color { r: 128, g: 0, b: 128 }),
            Shape::S => (Color { r: 153, g: 50, b: 204 }),
            Shape::Z => (Color { r: 139, g: 0, b: 139 }),
        },
    }
}

impl Default for Colorscheme {
    fn default() -> (c: Self)
        ensures
            c == Colorscheme::Original,
    {
        Colorscheme::Original
    }
}

impl Colorscheme {
    /// Resolve the color for one spawned piece. A position past 6 under the
    /// `Position` scheme is a contract violation of the boundary that
    /// assigns position indices.
    pub fn apply(&self, shape: Shape, digit: Digit, position: usize) -> (c: Color)
        requires
            *self == Colorscheme::Position ==> position <= 6,
        ensures
            c == spec_apply(*self, shape, digit, position as int),
    {
        match self {
            Colorscheme::Original => match shape {
                Shape::L => Color::from_rgb(223, 155, 42),
                Shape::J => Color::from_rgb(22, 0, 230),
                Shape::O => Color::from_rgb(237, 238, 57),
                Shape::T => Color::from_rgb(136, 26, 231),
                Shape::I => Color::from_rgb(103, 232, 236),
                Shape::S => Color::from_rgb(100, 233, 49),
                Shape::Z => Color::from_rgb(213, 50, 27),
            },
            Colorscheme::Grayscale => match shape {
                Shape::L => Color::from_rgb(178, 178, 178),
                Shape::J => Color::from_rgb(74, 74, 74),
                Shape::O => Color::from_rgb(234, 234, 234),
                Shape::T => Color::from_rgb(98, 98, 98),
                Shape::I => Color::from_rgb(216, 216, 216),
                Shape::S => Color::from_rgb(200, 200, 200),
                Shape::Z => Color::from_rgb(120, 120, 120),
            },
            Colorscheme::Position => match position {
                0 => Color::from_rgb(237, 238, 57),
                1 => Color::from_rgb(213, 50, 27),
                2 => Color::from_rgb(223, 155, 42),
                3 => Color::from_rgb(136, 26, 231),
                4 => Color::from_rgb(103, 232, 236),
                5 => Color::from_rgb(100, 233, 49),
                6 => Color::from_rgb(213, 50, 27),
                _ => Color::background(),
            },
            Colorscheme::Digit => match digit {
                Digit::Zero => Color::from_rgb(180, 180, 180),
                Digit::One => Color::from_rgb(255, 215, 0),
                Digit::Two => Color::from_rgb(255, 105, 180),
                Digit::Three => Color::from_rgb(0, 139, 139),
                Digit::Four => Color::from_rgb(255, 160, 122),
                Digit::Five => Color::from_rgb(147, 112, 219),
                Digit::Six => Color::from_rgb(32, 178, 170),
                Digit::Seven => Color::from_rgb(255, 218, 185),
                Digit::Eight => Color::from_rgb(176, 196, 222),
                Digit::Nine => Color::from_rgb(255, 192, 203),
            },
            Colorscheme::Neon => match shape {
                Shape::L => Color::from_rgb(255, 41, 117),
                Shape::J => Color::from_rgb(0, 255, 255),
                Shape::O => Color::from_rgb(255, 236, 39),
                Shape::T => Color::from_rgb(167, 0, 255),
                Shape::I => Color::from_rgb(0, 255, 169),
                Shape::S => Color::from_rgb(123, 255, 0),
                Shape::Z => Color::from_rgb(255, 82, 0),
            },
            Colorscheme::Pastel => match shape {
                Shape::L => Color::from_rgb(255, 183, 197),
                Shape::J => Color::from_rgb(174, 198, 255),
                Shape::O => Color::from_rgb(255, 251, 150),
                Shape::T => Color::from_rgb(211, 178, 255),
                Shape::I => Color::from_rgb(178, 255, 241),
                Shape::S => Color::from_rgb(178, 255, 178),
                Shape::Z => Color::from_rgb(255, 178, 178),
            },
            Colorscheme::Ocean => match shape {
                Shape::L => Color::from_rgb(144, 224, 239),
                Shape::J => Color::from_rgb(0, 119, 182),
                Shape::O => Color::from_rgb(202, 240, 248),
                Shape::T => Color::from_rgb(3, 4, 94),
                Shape::I => Color::from_rgb(0, 150, 199),
                Shape::S => Color::from_rgb(72, 202, 228),
                Shape::Z => Color::from_rgb(0, 180, 216),
            },
            Colorscheme::Autumn => match shape {
                Shape::L => Color::from_rgb(230, 125, 35),
                Shape::J => Color::from_rgb(153, 62, 29),
                Shape::O => Color::from_rgb(255, 190, 15),
                Shape::T => Color::from_rgb(130, 48, 56),
                Shape::I => Color::from_rgb(217, 80, 48),
                Shape::S => Color::from_rgb(85, 107, 47),
                Shape::Z => Color::from_rgb(168, 50, 27),
            },
            Colorscheme::Christmas => match shape {
                Shape::L => Color::from_rgb(176, 0, 0),
                Shape::J => Color::from_rgb(0, 105, 0),
                Shape::O => Color::from_rgb(255, 215, 0),
                Shape::T => Color::from_rgb(146, 22, 34),
                Shape::I => Color::from_rgb(0, 140, 0),
                Shape::S => Color::from_rgb(212, 175, 55),
                Shape::Z => Color::from_rgb(190, 0, 0),
            },
            Colorscheme::Warm => match shape {
                Shape::L => Color::from_rgb(255, 167, 0),
                Shape::J => Color::from_rgb(255, 140, 0),
                Shape::O => Color::from_rgb(255, 215, 0),
                Shape::T => Color::from_rgb(255, 198, 0),
                Shape::I => Color::from_rgb(255, 179, 25),
                Shape::S => Color::from_rgb(255, 126, 0),
                Shape::Z => Color::from_rgb(255, 103, 0),
            },
            Colorscheme::Matrix => match shape {
                Shape::L => Color::from_rgb(0, 255, 0),
                Shape::J => Color::from_rgb(0, 185, 0),
                Shape::O => Color::from_rgb(172, 255, 172),
                Shape::T => Color::from_rgb(0, 140, 0),
                Shape::I => Color::from_rgb(0, 215, 0),
                Shape::S => Color::from_rgb(128, 255, 128),
                Shape::Z => Color::from_rgb(0, 155, 0),
            },
            Colorscheme::Purple => match shape {
                Shape::L => Color::from_rgb(148, 0, 211),
                Shape::J => Color::from_rgb(106, 13, 173),
                Shape::O => Color::from_rgb(178, 102, 255),
                Shape::T => Color::from_rgb(75, 0, 130),
                Shape::I => Color::from_rgb(128, 0, 128),
                Shape::S => Color::from_rgb(153, 50, 204),
                Shape::Z => Color::from_rgb(139, 0, 139),
            },
        }
    }
}

} // verus!
