//! Tetromino shapes, their discrete orientations, and the hand-authored
//! footprint of every (shape, rotation) pair: the probe cells used for
//! collision testing and the filled rectangles used for drawing.
//!
//! A tetromino's `(x, y)` position names the lower-left filled cell of its
//! footprint, with y growing downward. Each of the 7 shapes times 4
//! orientations is an independently authored layout, not derived by rotating
//! coordinates; the square ignores its orientation.

use vstd::prelude::*;

use crate::canvas::PixelCanvas;
use crate::color::Color;

verus! {

/// The seven tetromino shapes.
#[derive(Debug, Clone, Copy, PartialEq, Eq, Structural)]
pub enum Shape {
    L,
    J,
    /// The square.
    O,
    T,
    /// The straight bar.
    I,
    /// The skew.
    S,
    /// The mirrored skew.
    Z,
}

/// The four discrete orientations a shape can be authored in.
#[derive(Debug, Clone, Copy, PartialEq, Eq, Structural)]
pub enum Rotation {
    Degrees90,
    Degrees180,
    Degrees270,
    NoRotation,
}

/// Where a piece is in its fall lifecycle: falling under gravity, held on the
/// stop line, or exiting off the bottom of the canvas.
#[derive(Debug, Clone, Copy, PartialEq, Eq, Structural)]
pub enum FallState {
    Falling,
    Held,
    Exiting,
}

/// One piece: a shape at an orientation, at an absolute canvas position,
/// with its draw color and its fall lifecycle state.
#[derive(Debug, Clone, Copy, PartialEq, Eq, Structural)]
pub struct Tetromino {
    pub shape: Shape,
    pub rotation: Rotation,
    pub x: i64,
    pub y: i64,
    pub color: Color,
    pub fall: FallState,
}

/// One filled rectangle of a footprint, relative to the piece position.
#[derive(Debug, Clone, Copy, PartialEq, Eq, Structural)]
pub struct FillRect {
    pub dx: i64,
    pub dy: i64,
    pub w: u32,
    pub h: u32,
}

/// The cells probed for collision, relative to the piece position: moving the
/// piece down by one row is blocked exactly when one of these cells, shifted
/// down one row in the authored data, is occupied on the canvas.
pub open spec fn spec_probe_cells(shape: Shape, rotation: Rotation) -> Seq<(i64, i64)> {
    match (shape, rotation) {
        (Shape::L, Rotation::NoRotation) => seq![(0i64, 0i64), (1i64, -1i64), (2i64, -1i64)],
        (Shape::L, Rotation::Degrees90) => seq![(0i64, 0i64), (-1i64, -2i64)],
        (Shape::L, Rotation::Degrees180) => seq![(0i64, 0i64), (1i64, 0i64), (2i64, 0i64)],
        (Shape::L, Rotation::Degrees270) => seq![(0i64, 0i64), (1i64, 0i64)],
        (Shape::J, Rotation::NoRotation) => seq![(0i64, 0i64), (-1i64, -1i64), (-2i64, -1i64)],
        (Shape::J, Rotation::Degrees90) => seq![(0i64, 0i64), (1i64, 0i64)],
        (Shape::J, Rotation::Degrees180) => seq![(0i64, 0i64), (1i64, 0i64), (2i64, 0i64)],
        (Shape::J, Rotation::Degrees270) => seq![(0i64, 0i64), (1i64, -2i64)],
        (Shape::O, _) => seq![(0i64, 0i64), (1i64, 0i64)],
        (Shape::T, Rotation::NoRotation) => seq![(0i64, 0i64), (1i64, -1i64), (-1i64, -1i64)],
        (Shape::T, Rotation::Degrees90) => seq![(0i64, 0i64), (-1i64, -1i64)],
        (Shape::T, Rotation::Degrees180) => seq![(0i64, 0i64), (1i64, 0i64), (2i64, 0i64)],
        (Shape::T, Rotation::Degrees270) => seq![(0i64, 0i64), (1i64, -1i64)],
        (Shape::I, Rotation::NoRotation) | (Shape::I, Rotation::Degrees180) => seq![
            (0i64, 0i64),
            (1i64, 0i64),
            (2i64, 0i64),
            (3i64, 0i64),
        ],
        (Shape::I, Rotation::Degrees90) | (Shape::I, Rotation::Degrees270) => seq![(0i64, 0i64)],
        (Shape::S, Rotation::NoRotation) | (Shape::S, Rotation::Degrees180) => seq![
            (0i64, 0i64),
            (1i64, 0i64),
            (2i64, -1i64),
        ],
        (Shape::S, Rotation::Degrees90) | (Shape::S, Rotation::Degrees270) => seq![
            (0i64, 0i64),
            (-1i64, -1i64),
        ],
        (Shape::Z, Rotation::NoRotation) | (Shape::Z, Rotation::Degrees180) => seq![
            (0i64, 0i64),
            (1i64, 0i64),
            (-1i64, -1i64),
        ],
        (Shape::Z, Rotation::Degrees90) | (Shape::Z, Rotation::Degrees270) => seq![
            (0i64, 0i64),
            (1i64, -1i64),
        ],
    }
}

/// The rectangles drawn for a footprint, relative to the piece position.
pub open spec fn spec_fill_rects(shape: Shape, rotation: Rotation) -> Seq<FillRect> {
    match (shape, rotation) {
        (Shape::L, Rotation::NoRotation) => seq![
            (FillRect { dx: 0i64, dy: -2i64, w: 1u32, h: 2u32 }),
            (FillRect { dx: 1i64, dy: -2i64, w: 2u32, h: 1u32 }),
        ],
        (Shape::L, Rotation::Degrees90) => seq![
            (FillRect { dx: 0i64, dy: -3i64, w: 1u32, h: 3u32 }),
            (FillRect { dx: -1i64, dy: -3i64, w: 1u32, h: 1u32 }),
        ],
        (Shape::L, Rotation::Degrees180) => seq![
            (FillRect { dx: 0i64, dy: -1i64, w: 3u32, h: 1u32 }),
            (FillRect { dx: 2i64, dy: -2i64, w: 1u32, h: 1u32 }),
        ],
        (Shape::L, Rotation::Degrees270) => seq![
            (FillRect { dx: 0i64, dy: -3i64, w: 1u32, h: 3u32 }),
            (FillRect { dx: 1i64, dy: -1i64, w: 1u32, h: 1u32 }),
        ],
        (Shape::J, Rotation::NoRotation) => seq![
            (FillRect { dx: -2i64, dy: -2i64, w: 2u32, h: 1u32 }),
            (FillRect { dx: 0i64, dy: -2i64, w: 1u32, h: 2u32 }),
        ],
        (Shape::J, Rotation::Degrees90) => seq![
            (FillRect { dx: 0i64, dy: -1i64, w: 2u32, h: 1u32 }),
            (FillRect { dx: 1i64, dy: -3i64, w: 1u32, h: 2u32 }),
        ],
        (Shape::J, Rotation::Degrees180) => seq![
            (FillRect { dx: 0i64, dy: -2i64, w: 1u32, h: 2u32 }),
            (FillRect { dx: 1i64, dy: -1i64, w: 2u32, h: 1u32 }),
        ],
        (Shape::J, Rotation::Degrees270) => seq![
            (FillRect { dx: 0i64, dy: -3i64, w: 1u32, h: 3u32 }),
            (FillRect { dx: 1i64, dy: -3i64, w: 1u32, h: 1u32 }),
        ],
        (Shape::O, _) => seq![(FillRect { dx: 0i64, dy: -2i64, w: 2u32, h: 2u32 })],
        (Shape::T, Rotation::NoRotation) => seq![
            (FillRect { dx: -1i64, dy: -2i64, w: 3u32, h: 1u32 }),
            (FillRect { dx: 0i64, dy: -1i64, w: 1u32, h: 1u32 }),
        ],
        (Shape::T, Rotation::Degrees90) => seq![
            (FillRect { dx: 0i64, dy: -3i64, w: 1u32, h: 3u32 }),
            (FillRect { dx: -1i64, dy: -2i64, w: 1u32, h: 1u32 }),
        ],
        (Shape::T, Rotation::Degrees180) => seq![
            (FillRect { dx: 0i64, dy: -1i64, w: 3u32, h: 1u32 }),
            (FillRect { dx: 1i64, dy: -2i64, w: 1u32, h: 1u32 }),
        ],
        (Shape::T, Rotation::Degrees270) => seq![
            (FillRect { dx: 0i64, dy: -3i64, w: 1u32, h: 3u32 }),
            (FillRect { dx: 1i64, dy: -2i64, w: 1u32, h: 1u32 }),
        ],
        (Shape::I, Rotation::NoRotation) | (Shape::I, Rotation::Degrees180) => seq![
            (FillRect { dx: 0i64, dy: -1i64, w: 4u32, h: 1u32 }),
        ],
        (Shape::I, Rotation::Degrees90) | (Shape::I, Rotation::Degrees270) => seq![
            (FillRect { dx: 0i64, dy: -4i64, w: 1u32, h: 4u32 }),
        ],
        (Shape::S, Rotation::NoRotation) | (Shape::S, Rotation::Degrees180) => seq![
            (FillRect { dx: 0i64, dy: -1i64, w: 2u32, h: 1u32 }),
            (FillRect { dx: 1i64, dy: -2i64, w: 2u32, h: 1u32 }),
        ],
        (Shape::S, Rotation::Degrees90) | (Shape::S, Rotation::Degrees270) => seq![
            (FillRect { dx: 0i64, dy: -2i64, w: 1u32, h: 2u32 }),
            (FillRect { dx: -1i64, dy: -3i64, w: 1u32, h: 2u32 }),
        ],
        (Shape::Z, Rotation::NoRotation) | (Shape::Z, Rotation::Degrees180) => seq![
            (FillRect { dx: 0i64, dy: -1i64, w: 2u32, h: 1u32 }),
            (FillRect { dx: -1i64, dy: -2i64, w: 2u32, h: 1u32 }),
        ],
        (Shape::Z, Rotation::Degrees90) | (Shape::Z, Rotation::Degrees270) => seq![
            (FillRect { dx: 0i64, dy: -2i64, w: 1u32, h: 2u32 }),
            (FillRect { dx: 1i64, dy: -3i64, w: 1u32, h: 2u32 }),
        ],
    }
}

/// A piece position from which every probe cell, every fill rectangle, and a
/// one-row fall can be computed in `i64` without overflow.
pub open spec fn pos_in_range(x: int, y: int) -> bool {
    &&& i64::MIN as int + 4 <= x
    &&& x <= i64::MAX as int - 4
    &&& i64::MIN as int + 4 <= y
    &&& y <= i64::MAX as int - 4
}

/// Whether moving the piece down by one row is blocked: some probe cell of
/// its footprint lands on an occupied canvas pixel.
pub open spec fn spec_would_collide(t: Tetromino, canvas: PixelCanvas) -> bool {
    exists|i: int|
        0 <= i < spec_probe_cells(t.shape, t.rotation).len() && canvas.occupied(
            t.x + spec_probe_cells(t.shape, t.rotation)[i].0,
            t.y + spec_probe_cells(t.shape, t.rotation)[i].1,
        )
}

/// One gravity step for a single piece against the rendered canvas: a
/// falling piece moves down one row unless a probe cell is blocked, an
/// exiting piece moves down unconditionally without any collision check, and
/// a held piece stays put; then a piece standing exactly on the stop line,
/// unless it is exiting, settles into the held state.
pub open spec fn spec_step_tetromino(t: Tetromino, canvas: PixelCanvas, y_stop: i64) -> Tetromino {
    let moved = if t.fall == FallState::Exiting {
        Tetromino { y: (t.y + 1) as i64, ..t }
    } else if t.fall == FallState::Falling && !spec_would_collide(t, canvas) {
        Tetromino { y: (t.y + 1) as i64, ..t }
    } else {
        t
    };
    if moved.y == y_stop && moved.fall != FallState::Exiting {
        Tetromino { fall: FallState::Held, ..moved }
    } else {
        moved
    }
}

/// The probe cells of a footprint as runtime data, identical to the
/// specification table on every query.
pub fn probe_cells(shape: Shape, rotation: Rotation) -> (r: Vec<(i64, i64)>)
    ensures
        r@ == spec_probe_cells(shape, rotation),
        forall|j: int|
            #![trigger r@[j]]
            0 <= j < r@.len() ==> -2 <= r@[j].0 <= 3 && -2 <= r@[j].1 <= 0,
{
    match (shape, rotation) {
        (Shape::L, Rotation::NoRotation) => vec![(0i64, 0i64), (1i64, -1i64), (2i64, -1i64)],
        (Shape::L, Rotation::Degrees90) => vec![(0i64, 0i64), (-1i64, -2i64)],
        (Shape::L, Rotation::Degrees180) => vec![(0i64, 0i64), (1i64, 0i64), (2i64, 0i64)],
        (Shape::L, Rotation::Degrees270) => vec![(0i64, 0i64), (1i64, 0i64)],
        (Shape::J, Rotation::NoRotation) => vec![(0i64, 0i64), (-1i64, -1i64), (-2i64, -1i64)],
        (Shape::J, Rotation::Degrees90) => vec![(0i64, 0i64), (1i64, 0i64)],
        (Shape::J, Rotation::Degrees180) => vec![(0i64, 0i64), (1i64, 0i64), (2i64, 0i64)],
        (Shape::J, Rotation::Degrees270) => vec![(0i64, 0i64), (1i64, -2i64)],
        (Shape::O, _) => vec![(0i64, 0i64), (1i64, 0i64)],
        (Shape::T, Rotation::NoRotation) => vec![(0i64, 0i64), (1i64, -1i64), (-1i64, -1i64)],
        (Shape::T, Rotation::Degrees90) => vec![(0i64, 0i64), (-1i64, -1i64)],
        (Shape::T, Rotation::Degrees180) => vec![(0i64, 0i64), (1i64, 0i64), (2i64, 0i64)],
        (Shape::T, Rotation::Degrees270) => vec![(0i64, 0i64), (1i64, -1i64)],
        (Shape::I, Rotation::NoRotation) | (Shape::I, Rotation::Degrees180) => vec![
            (0i64, 0i64),
            (1i64, 0i64),
            (2i64, 0i64),
            (3i64, 0i64),
        ],
        (Shape::I, Rotation::Degrees90) | (Shape::I, Rotation::Degrees270) => vec![(0i64, 0i64)],
        (Shape::S, Rotation::NoRotation) | (Shape::S, Rotation::Degrees180) => vec![
            (0i64, 0i64),
            (1i64, 0i64),
            (2i64, -1i64),
        ],
        (Shape::S, Rotation::Degrees90) | (Shape::S, Rotation::Degrees270) => vec![
            (0i64, 0i64),
            (-1i64, -1i64),
        ],
        (Shape::Z, Rotation::NoRotation) | (Shape::Z, Rotation::Degrees180) => vec![
            (0i64, 0i64),
            (1i64, 0i64),
            (-1i64, -1i64),
        ],
        (Shape::Z, Rotation::Degrees90) | (Shape::Z, Rotation::Degrees270) => vec![
            (0i64, 0i64),
            (1i64, -1i64),
        ],
    }
}

/// The fill rectangles of a footprint as runtime data, identical to the
/// specification table on every query.
pub fn fill_rects(shape: Shape, rotation: Rotation) -> (r: Vec<FillRect>)
    ensures
        r@ == spec_fill_rects(shape, rotation),
        forall|j: int|
            #![trigger r@[j]]
            0 <= j < r@.len() ==> -2 <= r@[j].dx && r@[j].dx + r@[j].w <= 4 && -4 <= r@[j].dy
                && r@[j].dy + r@[j].h <= 0,
{
    match (shape, rotation) {
        (Shape::L, Rotation::NoRotation) => vec![
            (FillRect { dx: 0, dy: -2, w: 1, h: 2 }),
            (FillRect { dx: 1, dy: -2, w: 2, h: 1 }),
        ],
        (Shape::L, Rotation::Degrees90) => vec![
            (FillRect { dx: 0, dy: -3, w: 1, h: 3 }),
            (FillRect { dx: -1, dy: -3, w: 1, h: 1 }),
        ],
        (Shape::L, Rotation::Degrees180) => vec![
            (FillRect { dx: 0, dy: -1, w: 3, h: 1 }),
            (FillRect { dx: 2, dy: -2, w: 1, h: 1 }),
        ],
        (Shape::L, Rotation::Degrees270) => vec![
            (FillRect { dx: 0, dy: -3, w: 1, h: 3 }),
            (FillRect { dx: 1, dy: -1, w: 1, h: 1 }),
        ],
        (Shape::J, Rotation::NoRotation) => vec![
            (FillRect { dx: -2, dy: -2, w: 2, h: 1 }),
            (FillRect { dx: 0, dy: -2, w: 1, h: 2 }),
        ],
        (Shape::J, Rotation::Degrees90) => vec![
            (FillRect { dx: 0, dy: -1, w: 2, h: 1 }),
            (FillRect { dx: 1, dy: -3, w: 1, h: 2 }),
        ],
        (Shape::J, Rotation::Degrees180) => vec![
            (FillRect { dx: 0, dy: -2, w: 1, h: 2 }),
            (FillRect { dx: 1, dy: -1, w: 2, h: 1 }),
        ],
        (Shape::J, Rotation::Degrees270) => vec![
            (FillRect { dx: 0, dy: -3, w: 1, h: 3 }),
            (FillRect { dx: 1, dy: -3, w: 1, h: 1 }),
        ],
        (Shape::O, _) => vec![(FillRect { dx: 0, dy: -2, w: 2, h: 2 })],
        (Shape::T, Rotation::NoRotation) => vec![
            (FillRect { dx: -1, dy: -2, w: 3, h: 1 }),
            (FillRect { dx: 0, dy: -1, w: 1, h: 1 }),
        ],
        (Shape::T, Rotation::Degrees90) => vec![
            (FillRect { dx: 0, dy: -3, w: 1, h: 3 }),
            (FillRect { dx: -1, dy: -2, w: 1, h: 1 }),
        ],
        (Shape::T, Rotation::Degrees180) => vec![
            (FillRect { dx: 0, dy: -1, w: 3, h: 1 }),
            (FillRect { dx: 1, dy: -2, w: 1, h: 1 }),
        ],
        (Shape::T, Rotation::Degrees270) => vec![
            (FillRect { dx: 0, dy: -3, w: 1, h: 3 }),
            (FillRect { dx: 1, dy: -2, w: 1, h: 1 }),
        ],
        (Shape::I, Rotation::NoRotation) | (Shape::I, Rotation::Degrees180) => vec![
            (FillRect { dx: 0, dy: -1, w: 4, h: 1 }),
        ],
        (Shape::I, Rotation::Degrees90) | (Shape::I, Rotation::Degrees270) => vec![
            (FillRect { dx: 0, dy: -4, w: 1, h: 4 }),
        ],
        (Shape::S, Rotation::NoRotation) | (Shape::S, Rotation::Degrees180) => vec![
            (FillRect { dx: 0, dy: -1, w: 2, h: 1 }),
            (FillRect { dx: 1, dy: -2, w: 2, h: 1 }),
        ],
        (Shape::S, Rotation::Degrees90) | (Shape::S, Rotation::Degrees270) => vec![
            (FillRect { dx: 0, dy: -2, w: 1, h: 2 }),
            (FillRect { dx: -1, dy: -3, w: 1, h: 2 }),
        ],
        (Shape::Z, Rotation::NoRotation) | (Shape::Z, Rotation::Degrees180) => vec![
            (FillRect { dx: 0, dy: -1, w: 2, h: 1 }),
            (FillRect { dx: -1, dy: -2, w: 2, h: 1 }),
        ],
        (Shape::Z, Rotation::Degrees90) | (Shape::Z, Rotation::Degrees270) => vec![
            (FillRect { dx: 0, dy: -2, w: 1, h: 2 }),
            (FillRect { dx: 1, dy: -3, w: 1, h: 2 }),
        ],
    }
}

/// Every footprint is non-empty: each (shape, rotation) pair has at least one
/// probe cell and at least one fill rectangle. Together with the tables being
/// specification functions, and `probe_cells` / `fill_rects` returning them
/// verbatim, re-querying a pair always yields the same non-empty geometry.
pub proof fn lemma_footprint_nonempty(shape: Shape, rotation: Rotation)
    ensures
        spec_probe_cells(shape, rotation).len() > 0,
        spec_fill_rects(shape, rotation).len() > 0,
{
    match (shape, rotation) {
        (Shape::O, _) => {
            assert(spec_probe_cells(shape, rotation).len() == 2);
            assert(spec_fill_rects(shape, rotation).len() == 1);
        },
        _ => {
            assert(spec_probe_cells(shape, rotation).len() > 0);
            assert(spec_fill_rects(shape, rotation).len() > 0);
        },
    }
}

/// Evaluate every probe cell of the piece's footprint against the canvas:
/// true exactly when some probed cell is occupied by a non-background pixel.
pub fn would_tetromino_collide_with_canvas(t: &Tetromino, canvas: &PixelCanvas) -> (r: bool)
    requires
        canvas.wf(),
        pos_in_range(t.x as int, t.y as int),
    ensures
        r == spec_would_collide(*t, *canvas),
{
    let cells = probe_cells(t.shape, t.rotation);
    let empty = Color::background();
    let mut i: usize = 0;
    while i < cells.len()
        invariant
            i <= cells@.len(),
            cells@ == spec_probe_cells(t.shape, t.rotation),
            forall|j: int|
                #![trigger cells@[j]]
                0 <= j < cells@.len() ==> -2 <= cells@[j].0 <= 3 && -2 <= cells@[j].1 <= 0,
            canvas.wf(),
            pos_in_range(t.x as int, t.y as int),
            empty == Color::spec_background(),
            forall|j: int|
                0 <= j < i as int ==> !canvas.occupied(t.x + cells@[j].0, t.y + cells@[j].1),
        decreases cells@.len() - i,
    {
        let (dx, dy) = cells[i];
        if !canvas.is_empty_or_color(t.x + dx, t.y + dy, &empty) {
            return true;
        }
        i = i + 1;
    }
    false
}

} // verus!
