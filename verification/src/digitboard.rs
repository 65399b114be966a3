//! A digit board couples one board to one digit's choreography: it releases
//! the digit's drop events one piece at a time, throttled to at most one
//! release every few ticks, runs the board's simulation step every tick, and
//! on a digit change sends every owned piece off-screen while the new
//! digit's choreography restarts from its first event.

use vstd::prelude::*;

use crate::board::{spec_board_step, spec_mark_exiting, Board};
use crate::canvas::PixelCanvas;
use crate::colorscheme::{spec_apply, Colorscheme};
use crate::digits::{spec_animation, Animation, Digit};
use crate::tetromino::{FallState, Tetromino};

verus! {

/// A new drop event is released only once more than this many ticks have
/// passed since the previous release.
pub const ANIMATION_TICK_THRESHOLD: usize = 3;

/// One glyph of the display: a board, the digit it currently builds, that
/// digit's choreography, the playback cursor into it, and the tick counter
/// throttling event release.
pub struct DigitBoard {
    pub board: Board,
    pub digit: Digit,
    pub animation: Animation,
    pub position: usize,
    pub colorscheme: Colorscheme,
    pub index: usize,
    pub updates_since_last_anim: usize,
}

/// Whether the next update releases a drop event: the choreography is not
/// exhausted and enough ticks have passed since the last release.
pub open spec fn spec_should_spawn(db: DigitBoard) -> bool {
    db.index < db.animation@.len() && db.updates_since_last_anim > ANIMATION_TICK_THRESHOLD
}

/// The piece a release spawns: the cursor's drop event, placed at the
/// board's anchor shifted by the event's horizontal offset, colored by the
/// board's scheme, in the falling state.
pub open spec fn spec_spawned_tetromino(db: DigitBoard) -> Tetromino
    recommends
        db.index < db.animation@.len(),
{
    let ev = db.animation@[db.index as int];
    Tetromino {
        shape: ev.shape,
        rotation: ev.rotation,
        x: (db.board.x_offset + ev.dx) as i64,
        y: db.board.y_offset,
        color: spec_apply(db.colorscheme, ev.shape, db.digit, db.position as int),
        fall: FallState::Falling,
    }
}

/// How one `update` call transforms a digit board: a release (if due) pushes
/// the cursor's piece and resets the throttle, then the board takes one
/// simulation step, and the tick counter advances.
pub open spec fn spec_digit_board_updated(
    pre: DigitBoard,
    post: DigitBoard,
    canvas: PixelCanvas,
) -> bool {
    &&& post.digit == pre.digit
    &&& post.animation@ == pre.animation@
    &&& post.position == pre.position
    &&& post.colorscheme == pre.colorscheme
    &&& post.board.x_offset == pre.board.x_offset
    &&& post.board.y_offset == pre.board.y_offset
    &&& post.board.y_stop == pre.board.y_stop
    &&& if spec_should_spawn(pre) {
        &&& post.board.tetrominos@ == spec_board_step(
            pre.board.tetrominos@.push(spec_spawned_tetromino(pre)),
            canvas,
            pre.board.y_stop,
        )
        &&& post.index == pre.index + 1
        &&& post.updates_since_last_anim == 1
    } else {
        &&& post.board.tetrominos@ == spec_board_step(
            pre.board.tetrominos@,
            canvas,
            pre.board.y_stop,
        )
        &&& post.index == pre.index
        &&& post.updates_since_last_anim == pre.updates_since_last_anim + 1
    }
}

impl DigitBoard {
    /// The board's pieces are placeable, its anchor leaves room for every
    /// horizontal offset of a choreography, the stored choreography is the
    /// stored digit's, the cursor never passes the end, and the position
    /// index is one the color tables cover.
    pub open spec fn wf(self) -> bool {
        &&& self.board.wf()
        &&& self.board.y_offset == 0
        &&& i64::MIN as int + 4 <= self.board.x_offset as int
        &&& self.board.x_offset as int + 9 <= i64::MAX as int
        &&& self.animation@ == spec_animation(self.digit)
        &&& forall|j: int|
            #![trigger self.animation@[j]]
            0 <= j < self.animation@.len() ==> 0 <= self.animation@[j].dx <= 5
        &&& self.index <= self.animation@.len()
        &&& self.colorscheme == Colorscheme::Position ==> self.position <= 6
    }

    /// A fresh digit board at display position `position`, anchored at
    /// `x_offset` with stop line `y_stop`, starting its digit's choreography
    /// from the first event.
    pub fn new(
        position: usize,
        x_offset: i64,
        y_stop: i64,
        colorscheme: Colorscheme,
        digit: Digit,
    ) -> (db: DigitBoard)
        requires
            i64::MIN as int + 4 <= x_offset as int,
            x_offset as int + 9 <= i64::MAX as int,
            colorscheme == Colorscheme::Position ==> position <= 6,
        ensures
            db.board.tetrominos@ == Seq::<Tetromino>::empty(),
            db.board.x_offset == x_offset,
            db.board.y_offset == 0,
            db.board.y_stop == y_stop,
            db.position == position,
            db.digit == digit,
            db.animation@ == spec_animation(digit),
            db.colorscheme == colorscheme,
            db.index == 0,
            db.updates_since_last_anim == 0,
            db.wf(),
    {
        DigitBoard {
            board: Board::new(x_offset, 0, y_stop),
            position,
            digit,
            animation: digit.animation(),
            colorscheme,
            index: 0,
            updates_since_last_anim: 0,
        }
    }

    /// One tick: release the next drop event if the cursor has not consumed
    /// the choreography and the throttle has elapsed, then run one board
    /// simulation step and advance the tick counter.
    pub fn update(&mut self, canvas: &PixelCanvas)
        requires
            old(self).wf(),
            canvas.wf(),
            old(self).updates_since_last_anim < usize::MAX,
        ensures
            spec_digit_board_updated(*old(self), *final(self), *canvas),
            final(self).wf(),
    {
        if self.index < self.animation.len() && self.updates_since_last_anim
            > ANIMATION_TICK_THRESHOLD {
            let ev = self.animation[self.index];
            let color = self.colorscheme.apply(ev.shape, self.digit, self.position);
            self.board.add_tetromino(ev.dx, 0, color, ev.shape, ev.rotation);
            self.index = self.index + 1;
            self.updates_since_last_anim = 0;
        }
        self.board.update(canvas);
        self.updates_since_last_anim = self.updates_since_last_anim + 1;
    }

    /// Draw the glyph as currently assembled; a pure read of board state.
    pub fn render(&self, canvas: &mut PixelCanvas)
        requires
            self.wf(),
            old(canvas).wf(),
        ensures
            final(canvas).wf(),
            final(canvas).width == old(canvas).width,
            final(canvas).height == old(canvas).height,
            forall|px: int, py: int|
                0 <= px < old(canvas).width as int && 0 <= py < old(canvas).height as int
                    ==> final(canvas).spec_pixel(px, py) == Board::spec_rendered_pixel(
                    old(canvas).spec_pixel(px, py),
                    self.board.tetrominos@,
                    px,
                    py,
                ),
    {
        self.board.render(canvas);
    }

    /// Change the displayed digit: every owned piece, held ones included, is
    /// forced to exit off-screen, the new digit's choreography is installed,
    /// and the playback cursor and throttle counter restart from zero.
    pub fn set_digit(&mut self, digit: Digit)
        requires
            old(self).wf(),
        ensures
            final(self).board.tetrominos@ == old(self).board.tetrominos@.map_values(
                |t: Tetromino| spec_mark_exiting(t),
            ),
            final(self).board.x_offset == old(self).board.x_offset,
            final(self).board.y_offset == old(self).board.y_offset,
            final(self).board.y_stop == old(self).board.y_stop,
            final(self).digit == digit,
            final(self).animation@ == spec_animation(digit),
            final(self).index == 0,
            final(self).updates_since_last_anim == 0,
            final(self).position == old(self).position,
            final(self).colorscheme == old(self).colorscheme,
            final(self).wf(),
    {
        self.board.initiate_fall_out();
        self.digit = digit;
        self.animation = digit.animation();
        self.index = 0;
        self.updates_since_last_anim = 0;
    }
}

/// After a digit change the playback cursor stands at the start, updates
/// that release nothing leave the cursor in place, and the first release
/// made with the cursor at the start spawns the first event of the stored
/// digit's choreography — never a later one.
pub proof fn lemma_first_spawn_is_first_event(db: DigitBoard)
    requires
        db.wf(),
        db.index == 0,
        spec_should_spawn(db),
    ensures
        spec_animation(db.digit).len() > 0,
        spec_spawned_tetromino(db).shape == spec_animation(db.digit)[0].shape,
        spec_spawned_tetromino(db).rotation == spec_animation(db.digit)[0].rotation,
        spec_spawned_tetromino(db).x as int == db.board.x_offset as int + spec_animation(
            db.digit,
        )[0].dx as int,
        spec_spawned_tetromino(db).y == 0,
        spec_spawned_tetromino(db).fall == FallState::Falling,
{
    assert(db.animation@[0] == spec_animation(db.digit)[0]);
}

} // verus!
