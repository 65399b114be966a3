//! The digits a board can display and, for each digit, the authored
//! choreography: the ordered drop events whose pieces stack into the digit's
//! glyph. The sequences are fixed data, replayed from the start whenever a
//! board's digit changes.

use vstd::prelude::*;

use crate::tetromino::{Rotation, Shape};

verus! {

/// A decimal digit as displayed by one board.
#[derive(Debug, Clone, Copy, PartialEq, Eq, Structural)]
pub enum Digit {
    Zero,
    One,
    Two,
    Three,
    Four,
    Five,
    Six,
    Seven,
    Eight,
    Nine,
}

/// One drop event of a choreography: which shape falls, at which orientation,
/// and at which horizontal offset from the board's anchor.
#[derive(Debug, Clone, Copy, PartialEq, Eq, Structural)]
pub struct FallingTetromino {
    pub shape: Shape,
    pub rotation: Rotation,
    pub dx: i64,
}

/// A digit's choreography: its drop events in playback order.
pub type Animation = Vec<FallingTetromino>;

impl FallingTetromino {
    pub fn new(shape: Shape, rotation: Rotation, dx: i64) -> (t: FallingTetromino)
        ensures
            t == (FallingTetromino { shape, rotation, dx }),
    {
        FallingTetromino { shape, rotation, dx }
    }
}

/// The authored drop sequence of each digit's glyph.
pub open spec fn spec_animation(digit: Digit) -> Seq<FallingTetromino> {
    match digit {
        Digit::Zero => seq![
            (FallingTetromino { shape: Shape::J, rotation: Rotation::Degrees90, dx: 4i64 }),
            (FallingTetromino { shape: Shape::I, rotation: Rotation::Degrees90, dx: 0i64 }),
            (FallingTetromino { shape: Shape::S, rotation: Rotation::NoRotation, dx: 2i64 }),
            (FallingTetromino { shape: Shape::T, rotation: Rotation::Degrees270, dx: 1i64 }),
            (FallingTetromino { shape: Shape::T, rotation: Rotation::Degrees90, dx: 1i64 }),
            (FallingTetromino { shape: Shape::Z, rotation: Rotation::Degrees90, dx: 4i64 }),
            (FallingTetromino { shape: Shape::Z, rotation: Rotation::Degrees90, dx: 4i64 }),
            (FallingTetromino { shape: Shape::T, rotation: Rotation::Degrees270, dx: 4i64 }),
            (FallingTetromino { shape: Shape::Z, rotation: Rotation::Degrees90, dx: 0i64 }),
            (FallingTetromino { shape: Shape::T, rotation: Rotation::Degrees270, dx: 0i64 }),
            (FallingTetromino { shape: Shape::Z, rotation: Rotation::NoRotation, dx: 2i64 }),
            (FallingTetromino { shape: Shape::J, rotation: Rotation::NoRotation, dx: 5i64 }),
        ],
        Digit::One => seq![
            (FallingTetromino { shape: Shape::O, rotation: Rotation::NoRotation, dx: 4i64 }),
            (FallingTetromino { shape: Shape::L, rotation: Rotation::Degrees270, dx: 4i64 }),
            (FallingTetromino { shape: Shape::I, rotation: Rotation::Degrees90, dx: 5i64 }),
            (FallingTetromino { shape: Shape::J, rotation: Rotation::Degrees270, dx: 4i64 }),
            (FallingTetromino { shape: Shape::O, rotation: Rotation::NoRotation, dx: 4i64 }),
        ],
        Digit::Two => seq![
            (FallingTetromino { shape: Shape::I, rotation: Rotation::Degrees90, dx: 0i64 }),
            (FallingTetromino { shape: Shape::O, rotation: Rotation::NoRotation, dx: 4i64 }),
            (FallingTetromino { shape: Shape::L, rotation: Rotation::Degrees180, dx: 1i64 }),
            (FallingTetromino { shape: Shape::L, rotation: Rotation::Degrees270, dx: 1i64 }),
            (FallingTetromino { shape: Shape::I, rotation: Rotation::NoRotation, dx: 1i64 }),
            (FallingTetromino { shape: Shape::J, rotation: Rotation::NoRotation, dx: 5i64 }),
            (FallingTetromino { shape: Shape::L, rotation: Rotation::NoRotation, dx: 0i64 }),
            (FallingTetromino { shape: Shape::O, rotation: Rotation::NoRotation, dx: 4i64 }),
            (FallingTetromino { shape: Shape::I, rotation: Rotation::NoRotation, dx: 1i64 }),
            (FallingTetromino { shape: Shape::J, rotation: Rotation::NoRotation, dx: 5i64 }),
            (FallingTetromino { shape: Shape::L, rotation: Rotation::NoRotation, dx: 0i64 }),
        ],
        Digit::Three => seq![
            (FallingTetromino { shape: Shape::I, rotation: Rotation::NoRotation, dx: 2i64 }),
            (FallingTetromino { shape: Shape::O, rotation: Rotation::NoRotation, dx: 0i64 }),
            (FallingTetromino { shape: Shape::L, rotation: Rotation::Degrees180, dx: 2i64 }),
            (FallingTetromino { shape: Shape::L, rotation: Rotation::Degrees90, dx: 5i64 }),
            (FallingTetromino { shape: Shape::I, rotation: Rotation::NoRotation, dx: 1i64 }),
            (FallingTetromino { shape: Shape::L, rotation: Rotation::NoRotation, dx: 0i64 }),
            (FallingTetromino { shape: Shape::J, rotation: Rotation::NoRotation, dx: 5i64 }),
            (FallingTetromino { shape: Shape::O, rotation: Rotation::NoRotation, dx: 4i64 }),
            (FallingTetromino { shape: Shape::I, rotation: Rotation::NoRotation, dx: 1i64 }),
            (FallingTetromino { shape: Shape::L, rotation: Rotation::NoRotation, dx: 0i64 }),
            (FallingTetromino { shape: Shape::J, rotation: Rotation::NoRotation, dx: 5i64 }),
        ],
        Digit::Four => seq![
            (FallingTetromino { shape: Shape::J, rotation: Rotation::Degrees90, dx: 4i64 }),
            (FallingTetromino { shape: Shape::J, rotation: Rotation::Degrees270, dx: 4i64 }),
            (FallingTetromino { shape: Shape::I, rotation: Rotation::NoRotation, dx: 1i64 }),
            (FallingTetromino { shape: Shape::L, rotation: Rotation::NoRotation, dx: 0i64 }),
            (FallingTetromino { shape: Shape::O, rotation: Rotation::NoRotation, dx: 0i64 }),
            (FallingTetromino { shape: Shape::O, rotation: Rotation::NoRotation, dx: 0i64 }),
            (FallingTetromino { shape: Shape::J, rotation: Rotation::NoRotation, dx: 5i64 }),
            (FallingTetromino { shape: Shape::J, rotation: Rotation::Degrees90, dx: 4i64 }),
            (FallingTetromino { shape: Shape::J, rotation: Rotation::Degrees270, dx: 4i64 }),
        ],
        Digit::Five => seq![
            (FallingTetromino { shape: Shape::J, rotation: Rotation::Degrees90, dx: 4i64 }),
            (FallingTetromino { shape: Shape::J, rotation: Rotation::Degrees270, dx: 4i64 }),
            (FallingTetromino { shape: Shape::I, rotation: Rotation::NoRotation, dx: 0i64 }),
            (FallingTetromino { shape: Shape::I, rotation: Rotation::NoRotation, dx: 0i64 }),
            (FallingTetromino { shape: Shape::I, rotation: Rotation::NoRotation, dx: 1i64 }),
            (FallingTetromino { shape: Shape::L, rotation: Rotation::NoRotation, dx: 0i64 }),
            (FallingTetromino { shape: Shape::J, rotation: Rotation::NoRotation, dx: 5i64 }),
            (FallingTetromino { shape: Shape::O, rotation: Rotation::NoRotation, dx: 0i64 }),
            (FallingTetromino { shape: Shape::I, rotation: Rotation::NoRotation, dx: 1i64 }),
            (FallingTetromino { shape: Shape::J, rotation: Rotation::NoRotation, dx: 5i64 }),
            (FallingTetromino { shape: Shape::L, rotation: Rotation::NoRotation, dx: 0i64 }),
        ],
        Digit::Six => seq![
            (FallingTetromino { shape: Shape::J, rotation: Rotation::Degrees90, dx: 4i64 }),
            (FallingTetromino { shape: Shape::J, rotation: Rotation::Degrees270, dx: 4i64 }),
            (FallingTetromino { shape: Shape::I, rotation: Rotation::NoRotation, dx: 0i64 }),
            (FallingTetromino { shape: Shape::I, rotation: Rotation::NoRotation, dx: 0i64 }),
            (FallingTetromino { shape: Shape::O, rotation: Rotation::NoRotation, dx: 0i64 }),
            (FallingTetromino { shape: Shape::I, rotation: Rotation::NoRotation, dx: 1i64 }),
            (FallingTetromino { shape: Shape::J, rotation: Rotation::NoRotation, dx: 5i64 }),
            (FallingTetromino { shape: Shape::L, rotation: Rotation::NoRotation, dx: 0i64 }),
            (FallingTetromino { shape: Shape::O, rotation: Rotation::NoRotation, dx: 0i64 }),
            (FallingTetromino { shape: Shape::I, rotation: Rotation::NoRotation, dx: 1i64 }),
            (FallingTetromino { shape: Shape::L, rotation: Rotation::NoRotation, dx: 0i64 }),
            (FallingTetromino { shape: Shape::J, rotation: Rotation::NoRotation, dx: 5i64 }),
        ],
        Digit::Seven => seq![
            (FallingTetromino { shape: Shape::O, rotation: Rotation::NoRotation, dx: 4i64 }),
            (FallingTetromino { shape: Shape::L, rotation: Rotation::Degrees270, dx: 4i64 }),
            (FallingTetromino { shape: Shape::I, rotation: Rotation::Degrees90, dx: 5i64 }),
            (FallingTetromino { shape: Shape::J, rotation: Rotation::Degrees270, dx: 4i64 }),
            (FallingTetromino { shape: Shape::I, rotation: Rotation::NoRotation, dx: 1i64 }),
            (FallingTetromino { shape: Shape::L, rotation: Rotation::NoRotation, dx: 0i64 }),
            (FallingTetromino { shape: Shape::J, rotation: Rotation::NoRotation, dx: 5i64 }),
        ],
        Digit::Eight => seq![
            (FallingTetromino { shape: Shape::I, rotation: Rotation::NoRotation, dx: 1i64 }),
            (FallingTetromino { shape: Shape::L, rotation: Rotation::Degrees180, dx: 2i64 }),
            (FallingTetromino { shape: Shape::T, rotation: Rotation::Degrees270, dx: 0i64 }),
            (FallingTetromino { shape: Shape::I, rotation: Rotation::Degrees90, dx: 5i64 }),
            (FallingTetromino { shape: Shape::S, rotation: Rotation::Degrees90, dx: 1i64 }),
            (FallingTetromino { shape: Shape::L, rotation: Rotation::Degrees180, dx: 1i64 }),
            (FallingTetromino { shape: Shape::T, rotation: Rotation::Degrees270, dx: 4i64 }),
            (FallingTetromino { shape: Shape::S, rotation: Rotation::Degrees90, dx: 5i64 }),
            (FallingTetromino { shape: Shape::J, rotation: Rotation::Degrees180, dx: 0i64 }),
            (FallingTetromino { shape: Shape::S, rotation: Rotation::Degrees90, dx: 1i64 }),
            (FallingTetromino { shape: Shape::Z, rotation: Rotation::NoRotation, dx: 1i64 }),
            (FallingTetromino { shape: Shape::Z, rotation: Rotation::NoRotation, dx: 3i64 }),
            (FallingTetromino { shape: Shape::L, rotation: Rotation::Degrees90, dx: 5i64 }),
        ],
        Digit::Nine => seq![
            (FallingTetromino { shape: Shape::O, rotation: Rotation::NoRotation, dx: 0i64 }),
            (FallingTetromino { shape: Shape::L, rotation: Rotation::Degrees180, dx: 3i64 }),
            (FallingTetromino { shape: Shape::L, rotation: Rotation::NoRotation, dx: 2i64 }),
            (FallingTetromino { shape: Shape::O, rotation: Rotation::NoRotation, dx: 4i64 }),
            (FallingTetromino { shape: Shape::I, rotation: Rotation::Degrees90, dx: 5i64 }),
            (FallingTetromino { shape: Shape::I, rotation: Rotation::NoRotation, dx: 1i64 }),
            (FallingTetromino { shape: Shape::T, rotation: Rotation::Degrees270, dx: 0i64 }),
            (FallingTetromino { shape: Shape::L, rotation: Rotation::Degrees180, dx: 2i64 }),
            (FallingTetromino { shape: Shape::Z, rotation: Rotation::Degrees90, dx: 4i64 }),
            (FallingTetromino { shape: Shape::J, rotation: Rotation::Degrees270, dx: 1i64 }),
            (FallingTetromino { shape: Shape::T, rotation: Rotation::NoRotation, dx: 3i64 }),
            (FallingTetromino { shape: Shape::J, rotation: Rotation::Degrees270, dx: 0i64 }),
        ],
    }
}

impl Digit {
    pub open spec fn spec_from_value(value: u32) -> Digit
        recommends
            value <= 9,
    {
        if value == 0 {
            Digit::Zero
        } else if value == 1 {
            Digit::One
        } else if value == 2 {
            Digit::Two
        } else if value == 3 {
            Digit::Three
        } else if value == 4 {
            Digit::Four
        } else if value == 5 {
            Digit::Five
        } else if value == 6 {
            Digit::Six
        } else if value == 7 {
            Digit::Seven
        } else if value == 8 {
            Digit::Eight
        } else {
            Digit::Nine
        }
    }

    /// The digit for a numeric value; values past nine are a contract
    /// violation of the boundary that produced them.
    pub fn from_value(value: u32) -> (d: Digit)
        requires
            value <= 9,
        ensures
            d == Digit::spec_from_value(value),
    {
        match value {
            0 => Digit::Zero,
            1 => Digit::One,
            2 => Digit::Two,
            3 => Digit::Three,
            4 => Digit::Four,
            5 => Digit::Five,
            6 => Digit::Six,
            7 => Digit::Seven,
            8 => Digit::Eight,
            _ => Digit::Nine,
        }
    }

    /// This digit's choreography as runtime data, identical to the authored
    /// sequence on every query. Every event's horizontal offset lies between
    /// 0 and 5, so a spawned piece stays within 5 columns of its board's
    /// anchor.
    pub fn animation(self) -> (r: Animation)
        ensures
            r@ == spec_animation(self),
            4 <= r@.len() <= 13,
            forall|j: int| #![trigger r@[j]] 0 <= j < r@.len() ==> 0 <= r@[j].dx <= 5,
    {
        match self {
            Digit::Zero => vec![
                FallingTetromino::new(Shape::J, Rotation::Degrees90, 4),
                FallingTetromino::new(Shape::I, Rotation::Degrees90, 0),
                FallingTetromino::new(Shape::S, Rotation::NoRotation, 2),
                FallingTetromino::new(Shape::T, Rotation::Degrees270, 1),
                FallingTetromino::new(Shape::T, Rotation::Degrees90, 1),
                FallingTetromino::new(Shape::Z, Rotation::Degrees90, 4),
                FallingTetromino::new(Shape::Z, Rotation::Degrees90, 4),
                FallingTetromino::new(Shape::T, Rotation::Degrees270, 4),
                FallingTetromino::new(Shape::Z, Rotation::Degrees90, 0),
                FallingTetromino::new(Shape::T, Rotation::Degrees270, 0),
                FallingTetromino::new(Shape::Z, Rotation::NoRotation, 2),
                FallingTetromino::new(Shape::J, Rotation::NoRotation, 5),
            ],
            Digit::One => vec![
                FallingTetromino::new(Shape::O, Rotation::NoRotation, 4),
                FallingTetromino::new(Shape::L, Rotation::Degrees270, 4),
                FallingTetromino::new(Shape::I, Rotation::Degrees90, 5),
                FallingTetromino::new(Shape::J, Rotation::Degrees270, 4),
                FallingTetromino::new(Shape::O, Rotation::NoRotation, 4),
            ],
            Digit::Two => vec![
                FallingTetromino::new(Shape::I, Rotation::Degrees90, 0),
                FallingTetromino::new(Shape::O, Rotation::NoRotation, 4),
                FallingTetromino::new(Shape::L, Rotation::Degrees180, 1),
                FallingTetromino::new(Shape::L, Rotation::Degrees270, 1),
                FallingTetromino::new(Shape::I, Rotation::NoRotation, 1),
                FallingTetromino::new(Shape::J, Rotation::NoRotation, 5),
                FallingTetromino::new(Shape::L, Rotation::NoRotation, 0),
                FallingTetromino::new(Shape::O, Rotation::NoRotation, 4),
                FallingTetromino::new(Shape::I, Rotation::NoRotation, 1),
                FallingTetromino::new(Shape::J, Rotation::NoRotation, 5),
                FallingTetromino::new(Shape::L, Rotation::NoRotation, 0),
            ],
            Digit::Three => vec![
                FallingTetromino::new(Shape::I, Rotation::NoRotation, 2),
                FallingTetromino::new(Shape::O, Rotation::NoRotation, 0),
                FallingTetromino::new(Shape::L, Rotation::Degrees180, 2),
                FallingTetromino::new(Shape::L, Rotation::Degrees90, 5),
                FallingTetromino::new(Shape::I, Rotation::NoRotation, 1),
                FallingTetromino::new(Shape::L, Rotation::NoRotation, 0),
                FallingTetromino::new(Shape::J, Rotation::NoRotation, 5),
                FallingTetromino::new(Shape::O, Rotation::NoRotation, 4),
                FallingTetromino::new(Shape::I, Rotation::NoRotation, 1),
                FallingTetromino::new(Shape::L, Rotation::NoRotation, 0),
                FallingTetromino::new(Shape::J, Rotation::NoRotation, 5),
            ],
            Digit::Four => vec![
                FallingTetromino::new(Shape::J, Rotation::Degrees90, 4),
                FallingTetromino::new(Shape::J, Rotation::Degrees270, 4),
                FallingTetromino::new(Shape::I, Rotation::NoRotation, 1),
                FallingTetromino::new(Shape::L, Rotation::NoRotation, 0),
                FallingTetromino::new(Shape::O, Rotation::NoRotation, 0),
                FallingTetromino::new(Shape::O, Rotation::NoRotation, 0),
                FallingTetromino::new(Shape::J, Rotation::NoRotation, 5),
                FallingTetromino::new(Shape::J, Rotation::Degrees90, 4),
                FallingTetromino::new(Shape::J, Rotation::Degrees270, 4),
            ],
            Digit::Five => vec![
                FallingTetromino::new(Shape::J, Rotation::Degrees90, 4),
                FallingTetromino::new(Shape::J, Rotation::Degrees270, 4),
                FallingTetromino::new(Shape::I, Rotation::NoRotation, 0),
                FallingTetromino::new(Shape::I, Rotation::NoRotation, 0),
                FallingTetromino::new(Shape::I, Rotation::NoRotation, 1),
                FallingTetromino::new(Shape::L, Rotation::NoRotation, 0),
                FallingTetromino::new(Shape::J, Rotation::NoRotation, 5),
                FallingTetromino::new(Shape::O, Rotation::NoRotation, 0),
                FallingTetromino::new(Shape::I, Rotation::NoRotation, 1),
                FallingTetromino::new(Shape::J, Rotation::NoRotation, 5),
                FallingTetromino::new(Shape::L, Rotation::NoRotation, 0),
            ],
            Digit::Six => vec![
                FallingTetromino::new(Shape::J, Rotation::Degrees90, 4),
                FallingTetromino::new(Shape::J, Rotation::Degrees270, 4),
                FallingTetromino::new(Shape::I, Rotation::NoRotation, 0),
                FallingTetromino::new(Shape::I, Rotation::NoRotation, 0),
                FallingTetromino::new(Shape::O, Rotation::NoRotation, 0),
                FallingTetromino::new(Shape::I, Rotation::NoRotation, 1),
                FallingTetromino::new(Shape::J, Rotation::NoRotation, 5),
                FallingTetromino::new(Shape::L, Rotation::NoRotation, 0),
                FallingTetromino::new(Shape::O, Rotation::NoRotation, 0),
                FallingTetromino::new(Shape::I, Rotation::NoRotation, 1),
                FallingTetromino::new(Shape::L, Rotation::NoRotation, 0),
                FallingTetromino::new(Shape::J, Rotation::NoRotation, 5),
            ],
            Digit::Seven => vec![
                FallingTetromino::new(Shape::O, Rotation::NoRotation, 4),
                FallingTetromino::new(Shape::L, Rotation::Degrees270, 4),
                FallingTetromino::new(Shape::I, Rotation::Degrees90, 5),
                FallingTetromino::new(Shape::J, Rotation::Degrees270, 4),
                FallingTetromino::new(Shape::I, Rotation::NoRotation, 1),
                FallingTetromino::new(Shape::L, Rotation::NoRotation, 0),
                FallingTetromino::new(Shape::J, Rotation::NoRotation, 5),
            ],
            Digit::Eight => vec![
                FallingTetromino::new(Shape::I, Rotation::NoRotation, 1),
                FallingTetromino::new(Shape::L, Rotation::Degrees180, 2),
                FallingTetromino::new(Shape::T, Rotation::Degrees270, 0),
                FallingTetromino::new(Shape::I, Rotation::Degrees90, 5),
                FallingTetromino::new(Shape::S, Rotation::Degrees90, 1),
                FallingTetromino::new(Shape::L, Rotation::Degrees180, 1),
                FallingTetromino::new(Shape::T, Rotation::Degrees270, 4),
                FallingTetromino::new(Shape::S, Rotation::Degrees90, 5),
                FallingTetromino::new(Shape::J, Rotation::Degrees180, 0),
                FallingTetromino::new(Shape::S, Rotation::Degrees90, 1),
                FallingTetromino::new(Shape::Z, Rotation::NoRotation, 1),
                FallingTetromino::new(Shape::Z, Rotation::NoRotation, 3),
                FallingTetromino::new(Shape::L, Rotation::Degrees90, 5),
            ],
            Digit::Nine => vec![
                FallingTetromino::new(Shape::O, Rotation::NoRotation, 0),
                FallingTetromino::new(Shape::L, Rotation::Degrees180, 3),
                FallingTetromino::new(Shape::L, Rotation::NoRotation, 2),
                FallingTetromino::new(Shape::O, Rotation::NoRotation, 4),
                FallingTetromino::new(Shape::I, Rotation::Degrees90, 5),
                FallingTetromino::new(Shape::I, Rotation::NoRotation, 1),
                FallingTetromino::new(Shape::T, Rotation::Degrees270, 0),
                FallingTetromino::new(Shape::L, Rotation::Degrees180, 2),
                FallingTetromino::new(Shape::Z, Rotation::Degrees90, 4),
                FallingTetromino::new(Shape::J, Rotation::Degrees270, 1),
                FallingTetromino::new(Shape::T, Rotation::NoRotation, 3),
                FallingTetromino::new(Shape::J, Rotation::Degrees270, 0),
            ],
        }
    }
}

} // verus!
