//! A falling-block clock engine: six digit glyphs are assembled on a pixel
//! canvas out of tetromino pieces that drop under discrete gravity, collide
//! with already-drawn pixels, settle on a stop line, and rain off-screen when
//! the displayed digit changes.

pub mod board;
pub mod canvas;
pub mod clock;
pub mod color;
pub mod colorscheme;
pub mod digitboard;
pub mod digits;
pub mod tetromino;
