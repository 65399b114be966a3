//! A board anchors a collection of tetromino pieces on the shared canvas and
//! drives their fall lifecycle: once per tick every piece not held takes one
//! gravity step against the previously rendered canvas, pieces that reach the
//! board's stop line settle, and pieces that have fallen far enough past the
//! bottom edge are disposed of. Rendering draws every piece's footprint in
//! insertion order.

use vstd::prelude::*;

use crate::canvas::PixelCanvas;
use crate::color::Color;
use crate::tetromino::{
    fill_rects, pos_in_range, spec_fill_rects, spec_step_tetromino, spec_would_collide, FallState,
    FillRect, Tetromino, Rotation, Shape, would_tetromino_collide_with_canvas,
};

verus! {

/// How many rows past the bottom canvas edge a piece may fall before the
/// board disposes of it.
pub const EXIT_MARGIN: i64 = 4;

/// Whether a stepped piece is retained: it is dropped from its board once its
/// y position exceeds the canvas height plus the exit margin.
pub open spec fn spec_keep(t: Tetromino, height: u32) -> bool {
    t.y as int <= height as int + EXIT_MARGIN as int
}

/// One simulation step for a whole piece collection: every piece takes its
/// individual gravity step, then pieces past the off-screen threshold are
/// purged, keeping the survivors in order.
pub open spec fn spec_board_step(
    s: Seq<Tetromino>,
    canvas: PixelCanvas,
    y_stop: i64,
) -> Seq<Tetromino> {
    s.map_values(|t: Tetromino| spec_step_tetromino(t, canvas, y_stop)).filter(
        |t: Tetromino| spec_keep(t, canvas.height),
    )
}

/// A piece forced into the exiting state, everything else unchanged.
pub open spec fn spec_mark_exiting(t: Tetromino) -> Tetromino {
    Tetromino { fall: FallState::Exiting, ..t }
}

/// An anchored collection of pieces sharing a coordinate origin and a stop
/// line. `(x_offset, y_offset)` is added to every relative spawn position;
/// `y_stop` is the absolute row at which a falling piece settles.
pub struct Board {
    pub tetrominos: Vec<Tetromino>,
    pub x_offset: i64,
    pub y_offset: i64,
    pub y_stop: i64,
}

impl Board {
    /// Every owned piece sits where its whole footprint, and one further row
    /// of fall, stay within `i64` coordinates.
    pub open spec fn wf(self) -> bool {
        forall|i: int|
            #![trigger self.tetrominos@[i]]
            0 <= i < self.tetrominos@.len() ==> pos_in_range(
                self.tetrominos@[i].x as int,
                self.tetrominos@[i].y as int,
            )
    }

    /// An empty board anchored at `(x_offset, y_offset)` with stop line
    /// `y_stop`.
    pub fn new(x_offset: i64, y_offset: i64, y_stop: i64) -> (b: Board)
        ensures
            b.tetrominos@ == Seq::<Tetromino>::empty(),
            b.x_offset == x_offset,
            b.y_offset == y_offset,
            b.y_stop == y_stop,
            b.wf(),
    {
        let b = Board { tetrominos: Vec::new(), x_offset, y_offset, y_stop };
        proof {
            assert(b.tetrominos@ =~= Seq::<Tetromino>::empty());
        }
        b
    }

    /// Spawn one piece at `(dx, dy)` relative to the board's anchor, in the
    /// falling state.
    pub fn add_tetromino(&mut self, dx: i64, dy: i64, color: Color, shape: Shape, rotation: Rotation)
        requires
            old(self).wf(),
            pos_in_range(
                old(self).x_offset as int + dx as int,
                old(self).y_offset as int + dy as int,
            ),
        ensures
            final(self).x_offset == old(self).x_offset,
            final(self).y_offset == old(self).y_offset,
            final(self).y_stop == old(self).y_stop,
            final(self).tetrominos@ == old(self).tetrominos@.push(
                Tetromino {
                    shape,
                    rotation,
                    x: (old(self).x_offset + dx) as i64,
                    y: (old(self).y_offset + dy) as i64,
                    color,
                    fall: FallState::Falling,
                },
            ),
            final(self).wf(),
    {
        let x = self.x_offset + dx;
        let y = self.y_offset + dy;
        self.tetrominos.push(Tetromino { shape, rotation, x, y, color, fall: FallState::Falling });
    }

    /// Force every owned piece into the exiting state: they will keep falling
    /// without settling and eventually leave the board off-screen. Used to
    /// clear a glyph before a digit change.
    pub fn initiate_fall_out(&mut self)
        requires
            old(self).wf(),
        ensures
            final(self).x_offset == old(self).x_offset,
            final(self).y_offset == old(self).y_offset,
            final(self).y_stop == old(self).y_stop,
            final(self).tetrominos@ == old(self).tetrominos@.map_values(
                |t: Tetromino| spec_mark_exiting(t),
            ),
            final(self).wf(),
    {
        let ghost orig = self.tetrominos@;
        let mut i: usize = 0;
        while i < self.tetrominos.len()
            invariant
                i <= orig.len(),
                self.tetrominos@.len() == orig.len(),
                self.x_offset == old(self).x_offset,
                self.y_offset == old(self).y_offset,
                self.y_stop == old(self).y_stop,
                forall|j: int|
                    0 <= j < i as int ==> self.tetrominos@[j] == spec_mark_exiting(orig[j]),
                forall|j: int| i as int <= j < orig.len() ==> self.tetrominos@[j] == orig[j],
                forall|j: int|
                    #![trigger orig[j]]
                    0 <= j < orig.len() ==> pos_in_range(orig[j].x as int, orig[j].y as int),
            decreases orig.len() - i as int,
        {
            let t = self.tetrominos[i];
            self.tetrominos.set(
                i,
                Tetromino { fall: FallState::Exiting, ..t },
            );
            i = i + 1;
        }
        proof {
            assert(self.tetrominos@ =~= orig.map_values(|t: Tetromino| spec_mark_exiting(t)));
        }
    }

    /// One simulation tick: step every piece against the rendered canvas,
    /// settle pieces that reached the stop line, and purge pieces past the
    /// off-screen threshold.
    pub fn update(&mut self, canvas: &PixelCanvas)
        requires
            old(self).wf(),
            canvas.wf(),
        ensures
            final(self).x_offset == old(self).x_offset,
            final(self).y_offset == old(self).y_offset,
            final(self).y_stop == old(self).y_stop,
            final(self).tetrominos@ == spec_board_step(
                old(self).tetrominos@,
                *canvas,
                old(self).y_stop,
            ),
            final(self).wf(),
    {
        let ghost orig = self.tetrominos@;
        let ys = self.y_stop;
        let mut i: usize = 0;
        while i < self.tetrominos.len()
            invariant
                i <= orig.len(),
                self.tetrominos@.len() == orig.len(),
                canvas.wf(),
                self.x_offset == old(self).x_offset,
                self.y_offset == old(self).y_offset,
                self.y_stop == old(self).y_stop,
                ys == old(self).y_stop,
                forall|j: int|
                    0 <= j < i as int ==> self.tetrominos@[j] == spec_step_tetromino(
                        orig[j],
                        *canvas,
                        ys,
                    ),
                forall|j: int| i as int <= j < orig.len() ==> self.tetrominos@[j] == orig[j],
                forall|j: int|
                    #![trigger orig[j]]
                    0 <= j < orig.len() ==> pos_in_range(orig[j].x as int, orig[j].y as int),
            decreases orig.len() - i as int,
        {
            let t = self.tetrominos[i];
            let mut stepped = t;
            if t.fall == FallState::Exiting {
                stepped.y = t.y + 1;
            } else if t.fall == FallState::Falling
                && !would_tetromino_collide_with_canvas(&t, canvas) {
                stepped.y = t.y + 1;
            }
            if stepped.y == ys && stepped.fall != FallState::Exiting {
                stepped.fall = FallState::Held;
            }
            self.tetrominos.set(i, stepped);
            i = i + 1;
        }
        let ghost stepped_seq = self.tetrominos@;
        proof {
            assert(stepped_seq =~= orig.map_values(
                |t: Tetromino| spec_step_tetromino(t, *canvas, ys),
            ));
        }
        let h = canvas.height();
        let mut kept: Vec<Tetromino> = Vec::new();
        let mut i: usize = 0;
        while i < self.tetrominos.len()
            invariant
                i <= stepped_seq.len(),
                self.tetrominos@ == stepped_seq,
                h == canvas.height,
                kept@ == stepped_seq.take(i as int).filter(
                    |t: Tetromino| spec_keep(t, canvas.height),
                ),
                forall|j: int|
                    #![trigger kept@[j]]
                    0 <= j < kept@.len() ==> pos_in_range(kept@[j].x as int, kept@[j].y as int),
                forall|j: int|
                    #![trigger stepped_seq[j]]
                    0 <= j < stepped_seq.len() ==> i64::MIN as int + 4 <= stepped_seq[j].x as int
                        <= i64::MAX as int - 4 && i64::MIN as int + 4 <= stepped_seq[j].y as int,
            decreases stepped_seq.len() - i as int,
        {
            let t = self.tetrominos[i];
            proof {
                assert(stepped_seq.take(i as int + 1).drop_last() =~= stepped_seq.take(i as int));
                assert(stepped_seq.take(i as int + 1).last() == stepped_seq[i as int]);
                reveal(Seq::filter);
            }
            if t.y <= h as i64 + EXIT_MARGIN {
                kept.push(t);
            }
            i = i + 1;
        }
        proof {
            assert(stepped_seq.take(stepped_seq.len() as int) =~= stepped_seq);
        }
        self.tetrominos = kept;
    }

    /// Whether some fill rectangle of `r`, anchored at piece `t`'s position,
    /// covers canvas cell `(px, py)`.
    pub open spec fn spec_rect_covers(t: Tetromino, r: FillRect, px: int, py: int) -> bool {
        &&& t.x + r.dx <= px < t.x + r.dx + r.w
        &&& t.y + r.dy <= py < t.y + r.dy + r.h
    }

    /// Whether piece `t`'s drawn footprint covers canvas cell `(px, py)`.
    pub open spec fn spec_tet_covers(t: Tetromino, px: int, py: int) -> bool {
        exists|i: int|
            0 <= i < spec_fill_rects(t.shape, t.rotation).len() && Self::spec_rect_covers(
                t,
                spec_fill_rects(t.shape, t.rotation)[i],
                px,
                py,
            )
    }

    /// The color cell `(px, py)` shows after drawing the pieces of `s` in
    /// order over a cell that previously held `base`: the color of the last
    /// piece whose footprint covers the cell, or `base` if none does.
    pub open spec fn spec_rendered_pixel(base: Color, s: Seq<Tetromino>, px: int, py: int) -> Color
        decreases s.len(),
    {
        if s.len() == 0 {
            base
        } else {
            if Self::spec_tet_covers(s.last(), px, py) {
                s.last().color
            } else {
                Self::spec_rendered_pixel(base, s.drop_last(), px, py)
            }
        }
    }

    /// Draw every piece's fill rectangles at its current position in
    /// insertion order; a pure read of board state.
    pub fn render(&self, canvas: &mut PixelCanvas)
        requires
            self.wf(),
            old(canvas).wf(),
        ensures
            final(canvas).wf(),
            final(canvas).width == old(canvas).width,
            final(canvas).height == old(canvas).height,
            forall|px: int, py: int|
                0 <= px < old(canvas).width as int && 0 <= py < old(canvas).height as int
                    ==> final(canvas).spec_pixel(px, py) == Self::spec_rendered_pixel(
                    old(canvas).spec_pixel(px, py),
                    self.tetrominos@,
                    px,
                    py,
                ),
    {
        let ghost canvas0 = *canvas;
        let mut i: usize = 0;
        while i < self.tetrominos.len()
            invariant
                i <= self.tetrominos@.len(),
                self.wf(),
                canvas.wf(),
                canvas.width == canvas0.width,
                canvas.height == canvas0.height,
                canvas0.wf(),
                forall|px: int, py: int|
                    0 <= px < canvas0.width as int && 0 <= py < canvas0.height as int
                        ==> canvas.spec_pixel(px, py) == Self::spec_rendered_pixel(
                        canvas0.spec_pixel(px, py),
                        self.tetrominos@.take(i as int),
                        px,
                        py,
                    ),
            decreases self.tetrominos@.len() - i as int,
        {
            let t = self.tetrominos[i];
            let ghost cbefore = *canvas;
            let rects = fill_rects(t.shape, t.rotation);
            let mut k: usize = 0;
            while k < rects.len()
                invariant
                    k <= rects@.len(),
                    rects@ == spec_fill_rects(t.shape, t.rotation),
                    forall|j: int|
                        #![trigger rects@[j]]
                        0 <= j < rects@.len() ==> -2 <= rects@[j].dx && rects@[j].dx + rects@[j].w
                            <= 4 && -4 <= rects@[j].dy && rects@[j].dy + rects@[j].h <= 0,
                    pos_in_range(t.x as int, t.y as int),
                    canvas.wf(),
                    canvas.width == cbefore.width,
                    canvas.height == cbefore.height,
                    cbefore.wf(),
                    forall|px: int, py: int|
                        0 <= px < cbefore.width as int && 0 <= py < cbefore.height as int
                            ==> canvas.spec_pixel(px, py) == (if (exists|j: int|
                            0 <= j < k as int && Self::spec_rect_covers(t, rects@[j], px, py)) {
                            t.color
                        } else {
                            cbefore.spec_pixel(px, py)
                        }),
                decreases rects@.len() - k as int,
            {
                let r = rects[k];
                canvas.filled_rect(t.x + r.dx, t.y + r.dy, r.w, r.h, &t.color);
                proof {
                    assert forall|px: int, py: int|
                        0 <= px < cbefore.width as int && 0 <= py < cbefore.height as int implies
                        canvas.spec_pixel(px, py) == (if (exists|j: int|
                        0 <= j < k as int + 1 && Self::spec_rect_covers(t, rects@[j], px, py)) {
                            t.color
                        } else {
                            cbefore.spec_pixel(px, py)
                        }) by {
                        if Self::spec_rect_covers(t, rects@[k as int], px, py) {
                            assert(exists|j: int|
                                0 <= j < k as int + 1 && Self::spec_rect_covers(
                                    t,
                                    rects@[j],
                                    px,
                                    py,
                                ));
                        }
                    }
                }
                k = k + 1;
            }
            proof {
                assert forall|px: int, py: int|
                    0 <= px < canvas0.width as int && 0 <= py < canvas0.height as int implies
                    canvas.spec_pixel(px, py) == Self::spec_rendered_pixel(
                    canvas0.spec_pixel(px, py),
                    self.tetrominos@.take(i as int + 1),
                    px,
                    py,
                ) by {
                    let pre = self.tetrominos@.take(i as int);
                    let cur = self.tetrominos@.take(i as int + 1);
                    assert(cur.drop_last() =~= pre);
                    assert(cur.last() == t);
                    assert((exists|j: int|
                        0 <= j < rects@.len() && Self::spec_rect_covers(t, rects@[j], px, py))
                        == Self::spec_tet_covers(t, px, py));
                }
            }
            i = i + 1;
        }
        proof {
            assert(self.tetrominos@.take(self.tetrominos@.len() as int) =~= self.tetrominos@);
        }
    }
}

/// A held piece takes no step at all: its position and state survive a
/// simulation step unchanged, whatever the canvas holds. Only a digit
/// change, which forces it into the exiting state, makes it move again.
pub proof fn lemma_held_piece_unmoved(t: Tetromino, canvas: PixelCanvas, y_stop: i64)
    requires
        t.fall == FallState::Held,
    ensures
        spec_step_tetromino(t, canvas, y_stop) == t,
{
}

/// An exiting piece descends one row every step, without any collision
/// check and without ever settling again, whatever the canvas holds and
/// wherever the stop line lies.
pub proof fn lemma_exiting_piece_descends(t: Tetromino, canvas: PixelCanvas, y_stop: i64)
    requires
        t.fall == FallState::Exiting,
        t.y as int <= i64::MAX as int - 4,
    ensures
        spec_step_tetromino(t, canvas, y_stop) == (Tetromino { y: (t.y + 1) as i64, ..t }),
        spec_step_tetromino(t, canvas, y_stop).fall == FallState::Exiting,
{
}

/// A falling piece whose probe cells are blocked stays at its spawn row: it
/// does not move while the occupying pixels remain, and unless it already
/// stands on the stop line it remains falling, ready to descend once the
/// cells clear. An exiting piece bypasses the check entirely (see
/// `lemma_exiting_piece_descends`).
pub proof fn lemma_blocked_piece_stays(t: Tetromino, canvas: PixelCanvas, y_stop: i64)
    requires
        t.fall == FallState::Falling,
        spec_would_collide(t, canvas),
    ensures
        spec_step_tetromino(t, canvas, y_stop).y == t.y,
        t.y != y_stop ==> spec_step_tetromino(t, canvas, y_stop) == t,
{
}

/// Disposal happens exactly at the off-screen threshold: no piece whose
/// stepped position is still within `height + EXIT_MARGIN` rows is dropped
/// by a simulation step, and no surviving piece lies beyond that line.
pub proof fn lemma_removed_exactly_past_threshold(
    s: Seq<Tetromino>,
    canvas: PixelCanvas,
    y_stop: i64,
)
    ensures
        forall|j: int|
            0 <= j < spec_board_step(s, canvas, y_stop).len() ==> spec_keep(
                #[trigger] spec_board_step(s, canvas, y_stop)[j],
                canvas.height,
            ),
        forall|i: int|
            0 <= i < s.len() && spec_keep(
                #[trigger] spec_step_tetromino(s[i], canvas, y_stop),
                canvas.height,
            ) ==> spec_board_step(s, canvas, y_stop).contains(
                spec_step_tetromino(s[i], canvas, y_stop),
            ),
{
    let mapped = s.map_values(|t: Tetromino| spec_step_tetromino(t, canvas, y_stop));
    let pred = |t: Tetromino| spec_keep(t, canvas.height);
    assert forall|j: int|
        0 <= j < spec_board_step(s, canvas, y_stop).len() implies spec_keep(
        #[trigger] spec_board_step(s, canvas, y_stop)[j],
        canvas.height,
    ) by {
        mapped.lemma_filter_pred(pred, j);
    }
    assert forall|i: int|
        0 <= i < s.len() && spec_keep(
            #[trigger] spec_step_tetromino(s[i], canvas, y_stop),
            canvas.height,
        ) implies spec_board_step(s, canvas, y_stop).contains(
        spec_step_tetromino(s[i], canvas, y_stop),
    ) by {
        assert(mapped[i] == spec_step_tetromino(s[i], canvas, y_stop));
        mapped.lemma_filter_contains(pred, i);
    }
}

/// The piece collection after `n` simulation steps against a fixed canvas.
pub open spec fn spec_board_step_n(
    s: Seq<Tetromino>,
    canvas: PixelCanvas,
    y_stop: i64,
    n: nat,
) -> Seq<Tetromino>
    decreases n,
{
    if n == 0 {
        s
    } else {
        spec_board_step(spec_board_step_n(s, canvas, y_stop, (n - 1) as nat), canvas, y_stop)
    }
}

proof fn lemma_step_n_unfold_front(s: Seq<Tetromino>, canvas: PixelCanvas, y_stop: i64, n: nat)
    requires
        n >= 1,
    ensures
        spec_board_step_n(s, canvas, y_stop, n) == spec_board_step_n(
            spec_board_step(s, canvas, y_stop),
            canvas,
            y_stop,
            (n - 1) as nat,
        ),
    decreases n,
{
    let s1 = spec_board_step(s, canvas, y_stop);
    if n == 1 {
        assert(spec_board_step_n(s, canvas, y_stop, 0) == s);
        assert(spec_board_step_n(s1, canvas, y_stop, 0) == s1);
        assert(spec_board_step_n(s, canvas, y_stop, 1) == spec_board_step(
            spec_board_step_n(s, canvas, y_stop, 0),
            canvas,
            y_stop,
        ));
    } else {
        lemma_step_n_unfold_front(s, canvas, y_stop, (n - 1) as nat);
        assert(spec_board_step_n(s, canvas, y_stop, n) == spec_board_step(
            spec_board_step_n(s, canvas, y_stop, (n - 1) as nat),
            canvas,
            y_stop,
        ));
        assert(spec_board_step_n(s1, canvas, y_stop, (n - 1) as nat) == spec_board_step(
            spec_board_step_n(s1, canvas, y_stop, (n - 2) as nat),
            canvas,
            y_stop,
        ));
    }
}

proof fn lemma_board_step_singleton(t: Tetromino, canvas: PixelCanvas, y_stop: i64)
    requires
        spec_keep(spec_step_tetromino(t, canvas, y_stop), canvas.height),
    ensures
        spec_board_step(seq![t], canvas, y_stop) == seq![spec_step_tetromino(t, canvas, y_stop)],
{
    let f = |u: Tetromino| spec_step_tetromino(u, canvas, y_stop);
    let pred = |u: Tetromino| spec_keep(u, canvas.height);
    let mapped = seq![t].map_values(f);
    assert(mapped =~= seq![f(t)]);
    reveal(Seq::filter);
    assert(mapped.drop_last() =~= Seq::<Tetromino>::empty());
    assert(mapped.filter(pred) =~= seq![f(t)]);
}

/// Unobstructed descent: on an all-background canvas, a falling piece that
/// stands `n` rows above the stop line reaches it after exactly `n`
/// simulation steps — one row per step — and settles into the held state on
/// the step that reaches the stop line, never before; after any fewer steps
/// it is still falling, `n` minus that many rows above the line.
pub proof fn lemma_unobstructed_descent(t: Tetromino, canvas: PixelCanvas, y_stop: i64, n: nat)
    requires
        canvas.wf(),
        forall|x: int, y: int| !canvas.occupied(x, y),
        t.fall == FallState::Falling,
        pos_in_range(t.x as int, t.y as int),
        t.y as int + n == y_stop as int,
        n >= 1,
        y_stop as int <= canvas.height as int + EXIT_MARGIN as int,
    ensures
        spec_board_step_n(seq![t], canvas, y_stop, n) == seq![
            (Tetromino { y: y_stop, fall: FallState::Held, ..t }),
        ],
        forall|m: nat|
            m < n ==> spec_board_step_n(seq![t], canvas, y_stop, m) == seq![
                (Tetromino { y: (t.y + m) as i64, ..t }),
            ],
    decreases n,
{
    let stepped = spec_step_tetromino(t, canvas, y_stop);
    assert(!spec_would_collide(t, canvas));
    lemma_board_step_singleton(t, canvas, y_stop);
    lemma_step_n_unfold_front(seq![t], canvas, y_stop, n);
    if n == 1 {
        assert(stepped == (Tetromino { y: y_stop, fall: FallState::Held, ..t }));
        assert forall|m: nat| m < 1 implies spec_board_step_n(seq![t], canvas, y_stop, m) == seq![
            (Tetromino { y: (t.y + m) as i64, ..t }),
        ] by {
            assert(spec_board_step_n(seq![t], canvas, y_stop, 0) == seq![t]);
            assert((Tetromino { y: (t.y + 0) as i64, ..t }) == t);
        }
    } else {
        assert(stepped == (Tetromino { y: (t.y + 1) as i64, ..t }));
        lemma_unobstructed_descent(stepped, canvas, y_stop, (n - 1) as nat);
        assert(spec_board_step(seq![t], canvas, y_stop) == seq![stepped]);
        assert((Tetromino { y: y_stop, fall: FallState::Held, ..stepped }) == (Tetromino {
            y: y_stop,
            fall: FallState::Held,
            ..t
        }));
        assert forall|m: nat| m < n implies spec_board_step_n(seq![t], canvas, y_stop, m) == seq![
            (Tetromino { y: (t.y + m) as i64, ..t }),
        ] by {
            if m == 0 {
                assert(spec_board_step_n(seq![t], canvas, y_stop, 0) == seq![t]);
                assert((Tetromino { y: (t.y + 0) as i64, ..t }) == t);
            } else {
                lemma_step_n_unfold_front(seq![t], canvas, y_stop, m);
                assert(spec_board_step_n(seq![stepped], canvas, y_stop, (m - 1) as nat) == seq![
                    (Tetromino { y: (stepped.y + (m - 1)) as i64, ..stepped }),
                ]);
                assert((Tetromino { y: (stepped.y + (m - 1)) as i64, ..stepped }) == (Tetromino {
                    y: (t.y + m) as i64,
                    ..t
                }));
            }
        }
    }
}

} // verus!
