//! The six-digit display: converting a time string into digits, laying the
//! six digit boards and the four colon-separator boards out on the canvas,
//! and switching boards to new digits when the displayed time changes.

use vstd::prelude::*;

use crate::board::{spec_mark_exiting, Board};
use crate::colorscheme::{spec_apply, Colorscheme};
use crate::digitboard::DigitBoard;
use crate::digits::{spec_animation, Digit};
use crate::tetromino::{FallState, Rotation, Shape, Tetromino};

verus! {

/// The digit a decimal digit character denotes.
pub open spec fn spec_char_digit(c: char) -> Digit
    recommends
        48 <= c as u32 <= 57,
{
    Digit::spec_from_value((c as u32 - 48) as u32)
}

/// Convert a string of decimal digit characters, such as a formatted
/// `HHMMSS` time, into its digits in order. A character outside `0`..`9` is
/// a contract violation of the boundary that formatted the string.
pub fn time_string_to_digits(time_string: &str) -> (r: Vec<Digit>)
    requires
        forall|i: int| 0 <= i < time_string@.len() ==> 48 <= #[trigger] time_string@[i] as u32 <= 57,
    ensures
        r@.len() == time_string@.len(),
        forall|i: int| 0 <= i < r@.len() ==> r@[i] == spec_char_digit(time_string@[i]),
{
    let n = time_string.unicode_len();
    let mut r: Vec<Digit> = Vec::new();
    let mut i: usize = 0;
    while i < n
        invariant
            n == time_string@.len(),
            i <= n,
            r@.len() == i as int,
            forall|j: int|
                0 <= j < time_string@.len() ==> 48 <= #[trigger] time_string@[j] as u32 <= 57,
            forall|j: int| 0 <= j < i as int ==> r@[j] == spec_char_digit(time_string@[j]),
        decreases n - i,
    {
        let c = time_string.get_char(i);
        let v = c as u32;
        r.push(Digit::from_value(v - 48));
        i = i + 1;
    }
    r
}

/// Relative x offset of display position `i` within the display: six glyphs
/// six columns wide, a two-column gap between the digits of a pair, and a
/// twelve-column gap (holding a separator) between pairs.
pub open spec fn spec_digit_x_offset(i: int) -> int {
    if i == 0 {
        0
    } else if i == 1 {
        8
    } else if i == 2 {
        20
    } else if i == 3 {
        28
    } else if i == 4 {
        40
    } else {
        48
    }
}

/// The left edge of the 54-column display, centered horizontally; negative
/// when the canvas is narrower than the display.
pub open spec fn spec_x_start(width: u32) -> int {
    if width >= 54 {
        (width - 54) as int / 2
    } else {
        -(((54 - width) as int) / 2)
    }
}

/// The stop line of the digit glyphs (ten rows tall), centered vertically.
pub open spec fn spec_stop_line(height: u32) -> int {
    (height as int + 10) / 2
}

fn digit_x_offset(i: usize) -> (r: i64)
    requires
        i <= 5,
    ensures
        r as int == spec_digit_x_offset(i as int),
{
    match i {
        0 => 0,
        1 => 8,
        2 => 20,
        3 => 28,
        4 => 40,
        _ => 48,
    }
}

fn x_start(width: u32) -> (r: i64)
    ensures
        r as int == spec_x_start(width),
{
    if width >= 54 {
        ((width - 54) / 2) as i64
    } else {
        -(((54 - width) / 2) as i64)
    }
}

fn stop_line(height: u32) -> (r: i64)
    ensures
        r as int == spec_stop_line(height),
{
    ((height as u64 + 10) / 2) as i64
}

/// The whole display: one digit board per display position, the static
/// colon separators, and the digits currently shown, so that a time change
/// touches only the boards whose digit differs.
pub struct ClockDisplay {
    pub digit_boards: Vec<DigitBoard>,
    pub separator_boards: Vec<Board>,
    pub current_digits: Vec<Digit>,
    pub colorscheme: Colorscheme,
}

impl ClockDisplay {
    /// Each digit board is well formed and shows the digit recorded for its
    /// position; the separators are well formed too.
    pub open spec fn wf(self) -> bool {
        &&& self.digit_boards@.len() == self.current_digits@.len()
        &&& forall|i: int|
            0 <= i < self.digit_boards@.len() ==> (#[trigger] self.digit_boards@[i]).wf()
        &&& forall|i: int|
            0 <= i < self.digit_boards@.len() ==> (#[trigger] self.digit_boards@[i]).digit
                == self.current_digits@[i]
        &&& forall|i: int|
            0 <= i < self.separator_boards@.len() ==> (#[trigger] self.separator_boards@[i]).wf()
    }

    /// An empty display that shows nothing until it is laid out.
    pub fn new(colorscheme: Colorscheme) -> (s: ClockDisplay)
        ensures
            s.digit_boards@.len() == 0,
            s.separator_boards@.len() == 0,
            s.current_digits@.len() == 0,
            s.colorscheme == colorscheme,
            s.wf(),
    {
        ClockDisplay {
            digit_boards: Vec::new(),
            separator_boards: Vec::new(),
            current_digits: Vec::new(),
            colorscheme,
        }
    }

    /// Lay the display out for a canvas of the given size, showing the given
    /// six digits: six fresh digit boards at their display positions, and
    /// four separator boards each holding one settled-to-be square piece.
    pub fn resize_canvas(&mut self, width: u32, height: u32, digits: Vec<Digit>)
        requires
            digits@.len() == 6,
        ensures
            final(self).colorscheme == old(self).colorscheme,
            final(self).current_digits@ == digits@,
            final(self).digit_boards@.len() == 6,
            forall|i: int|
                0 <= i < 6 ==> {
                    let b = #[trigger] final(self).digit_boards@[i];
                    &&& b.board.tetrominos@.len() == 0
                    &&& b.board.x_offset as int == spec_x_start(width) + spec_digit_x_offset(i)
                    &&& b.board.y_offset == 0
                    &&& b.board.y_stop as int == spec_stop_line(height)
                    &&& b.position == i
                    &&& b.digit == digits@[i]
                    &&& b.colorscheme == old(self).colorscheme
                    &&& b.index == 0
                    &&& b.updates_since_last_anim == 0
                },
            final(self).separator_boards@.len() == 4,
            forall|i: int|
                0 <= i < 4 ==> {
                    let b = #[trigger] final(self).separator_boards@[i];
                    &&& b.x_offset as int == spec_x_start(width) + (if i < 2 {
                        16int
                    } else {
                        36int
                    })
                    &&& b.y_offset as int == (if i % 2 == 0 {
                        0int
                    } else {
                        -4int
                    })
                    &&& b.y_stop as int == spec_stop_line(height) - (if i % 2 == 0 {
                        2int
                    } else {
                        6int
                    })
                    &&& b.tetrominos@ == seq![
                        (Tetromino {
                            shape: Shape::O,
                            rotation: Rotation::NoRotation,
                            x: b.x_offset,
                            y: b.y_offset,
                            color: spec_apply(
                                old(self).colorscheme,
                                Shape::O,
                                Digit::Zero,
                                0,
                            ),
                            fall: FallState::Falling,
                        }),
                    ]
                },
            final(self).wf(),
    {
        let xs = x_start(width);
        let ys = stop_line(height);
        let mut boards: Vec<DigitBoard> = Vec::new();
        let mut i: usize = 0;
        while i < 6
            invariant
                i <= 6,
                boards@.len() == i as int,
                digits@.len() == 6,
                xs as int == spec_x_start(width),
                ys as int == spec_stop_line(height),
                self.colorscheme == old(self).colorscheme,
                forall|j: int|
                    0 <= j < i as int ==> {
                        let b = #[trigger] boards@[j];
                        &&& b.wf()
                        &&& b.board.tetrominos@.len() == 0
                        &&& b.board.x_offset as int == spec_x_start(width) + spec_digit_x_offset(
                            j,
                        )
                        &&& b.board.y_offset == 0
                        &&& b.board.y_stop as int == spec_stop_line(height)
                        &&& b.position == j
                        &&& b.digit == digits@[j]
                        &&& b.colorscheme == old(self).colorscheme
                        &&& b.index == 0
                        &&& b.updates_since_last_anim == 0
                    },
            decreases 6 - i,
        {
            let off = digit_x_offset(i);
            let db = DigitBoard::new(i, xs + off, ys, self.colorscheme, digits[i]);
            boards.push(db);
            i = i + 1;
        }
        let color = self.colorscheme.apply(Shape::O, Digit::Zero, 0);
        let mut seps: Vec<Board> = Vec::new();
        let mut b0 = Board::new(xs + 16, 0, ys - 2);
        b0.add_tetromino(0, 0, color, Shape::O, Rotation::NoRotation);
        seps.push(b0);
        let mut b1 = Board::new(xs + 16, -4, ys - 6);
        b1.add_tetromino(0, 0, color, Shape::O, Rotation::NoRotation);
        seps.push(b1);
        let mut b2 = Board::new(xs + 36, 0, ys - 2);
        b2.add_tetromino(0, 0, color, Shape::O, Rotation::NoRotation);
        seps.push(b2);
        let mut b3 = Board::new(xs + 36, -4, ys - 6);
        b3.add_tetromino(0, 0, color, Shape::O, Rotation::NoRotation);
        seps.push(b3);
        self.digit_boards = boards;
        self.separator_boards = seps;
        self.current_digits = digits;
    }

    /// Show a new time: every board whose digit differs from the one it
    /// currently shows switches to the new digit (its glyph rains off while
    /// the new one builds up); boards whose digit is unchanged are left
    /// untouched.
    pub fn update_time(&mut self, digits: Vec<Digit>)
        requires
            old(self).wf(),
            digits@.len() == old(self).digit_boards@.len(),
        ensures
            final(self).current_digits@ == digits@,
            final(self).digit_boards@.len() == old(self).digit_boards@.len(),
            final(self).separator_boards == old(self).separator_boards,
            final(self).colorscheme == old(self).colorscheme,
            forall|i: int|
                0 <= i < old(self).digit_boards@.len()
                    && old(self).current_digits@[i] == digits@[i]
                    ==> #[trigger] final(self).digit_boards@[i] == old(self).digit_boards@[i],
            forall|i: int|
                0 <= i < old(self).digit_boards@.len()
                    && old(self).current_digits@[i] != digits@[i] ==> {
                    let b0 = old(self).digit_boards@[i];
                    let b = #[trigger] final(self).digit_boards@[i];
                    &&& b.board.tetrominos@ == b0.board.tetrominos@.map_values(
                        |t: Tetromino| spec_mark_exiting(t),
                    )
                    &&& b.board.x_offset == b0.board.x_offset
                    &&& b.board.y_offset == b0.board.y_offset
                    &&& b.board.y_stop == b0.board.y_stop
                    &&& b.digit == digits@[i]
                    &&& b.animation@ == spec_animation(digits@[i])
                    &&& b.index == 0
                    &&& b.updates_since_last_anim == 0
                    &&& b.position == b0.position
                    &&& b.colorscheme == b0.colorscheme
                },
            final(self).wf(),
    {
        let n = self.digit_boards.len();
        let mut i: usize = 0;
        while i < n
            invariant
                i <= n,
                n == old(self).digit_boards@.len(),
                self.digit_boards@.len() == n,
                self.current_digits@ == old(self).current_digits@,
                self.separator_boards == old(self).separator_boards,
                self.colorscheme == old(self).colorscheme,
                digits@.len() == n,
                old(self).wf(),
                forall|j: int|
                    0 <= j < self.digit_boards@.len() ==> (#[trigger] self.digit_boards@[j]).wf(),
                forall|j: int|
                    i as int <= j < n ==> #[trigger] self.digit_boards@[j] == old(
                        self,
                    ).digit_boards@[j],
                forall|j: int|
                    0 <= j < i as int && old(self).current_digits@[j] == digits@[j]
                        ==> #[trigger] self.digit_boards@[j] == old(self).digit_boards@[j],
                forall|j: int|
                    0 <= j < i as int && old(self).current_digits@[j] != digits@[j] ==> {
                        let b0 = old(self).digit_boards@[j];
                        let b = #[trigger] self.digit_boards@[j];
                        &&& b.board.tetrominos@ == b0.board.tetrominos@.map_values(
                            |t: Tetromino| spec_mark_exiting(t),
                        )
                        &&& b.board.x_offset == b0.board.x_offset
                        &&& b.board.y_offset == b0.board.y_offset
                        &&& b.board.y_stop == b0.board.y_stop
                        &&& b.digit == digits@[j]
                        &&& b.animation@ == spec_animation(digits@[j])
                        &&& b.index == 0
                        &&& b.updates_since_last_anim == 0
                        &&& b.position == b0.position
                        &&& b.colorscheme == b0.colorscheme
                    },
            decreases n - i,
        {
            let changed = {
                let a = self.current_digits[i];
                let d = digits[i];
                a != d
            };
            if changed {
                self.digit_boards[i].set_digit(digits[i]);
            }
            i = i + 1;
        }
        self.current_digits = digits;
    }
}

} // verus!
