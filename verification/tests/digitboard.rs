use tetrotime::canvas::PixelCanvas;
use tetrotime::color::Color;
use tetrotime::colorscheme::Colorscheme;
use tetrotime::digitboard::DigitBoard;
use tetrotime::digits::Digit;
use tetrotime::tetromino::{FallState, Rotation, Shape};

#[test]
fn scenario_digit_one_spawns_all_five_events_in_thirty_ticks() {
    let canvas = PixelCanvas::new(20, 20);
    let mut db = DigitBoard::new(0, 0, 10, Colorscheme::Original, Digit::One);
    for _ in 0..30 {
        db.update(&canvas);
    }
    // Digit one's choreography holds five events; with threshold 3 they are
    // released on ticks 5, 9, 13, 17 and 21, so exactly five pieces exist.
    assert_eq!(db.index, 5);
    assert_eq!(db.board.tetrominos.len(), 5);
    // Every piece completed at least one collision-tested descent.
    for t in db.board.tetrominos.iter() {
        assert!(t.y > 0);
    }
}

#[test]
fn scenario_set_digit_mid_playback_exits_all_pieces_and_restarts() {
    let canvas = PixelCanvas::new(20, 20);
    // A low stop line so the first piece settles before the digit changes.
    let mut db = DigitBoard::new(0, 0, 3, Colorscheme::Original, Digit::One);
    for _ in 0..10 {
        db.update(&canvas);
    }
    assert_eq!(db.index, 2);
    assert_eq!(db.board.tetrominos.len(), 2);
    assert_eq!(db.board.tetrominos[0].fall, FallState::Held);
    db.set_digit(Digit::Two);
    // All owned pieces, the held one included, are exiting at once.
    assert_eq!(db.index, 0);
    assert_eq!(db.updates_since_last_anim, 0);
    for t in db.board.tetrominos.iter() {
        assert_eq!(t.fall, FallState::Exiting);
    }
    // The next release, once the threshold elapses, is the new digit's
    // first event: digit two starts with the straight bar at 90 degrees,
    // offset 0.
    for _ in 0..5 {
        db.update(&canvas);
    }
    assert_eq!(db.index, 1);
    let newest = db.board.tetrominos[db.board.tetrominos.len() - 1];
    assert!(matches!(newest.shape, Shape::I));
    assert!(matches!(newest.rotation, Rotation::Degrees90));
    assert_eq!(newest.fall, FallState::Falling);
}

#[test]
fn scenario_blocked_spawn_never_moves_until_exit() {
    let mut canvas = PixelCanvas::new(20, 20);
    canvas.clear(&Color::from_rgb(80, 80, 80));
    let mut db = DigitBoard::new(0, 0, 10, Colorscheme::Original, Digit::One);
    for _ in 0..5 {
        db.update(&canvas);
    }
    // The first event spawned on tick 5 and its probe cells are occupied:
    // it stays at its spawn row.
    assert_eq!(db.board.tetrominos.len(), 1);
    assert_eq!(db.board.tetrominos[0].y, 0);
    for _ in 0..3 {
        db.update(&canvas);
    }
    assert_eq!(db.board.tetrominos[0].y, 0);
    // Marking it exiting bypasses the collision check entirely.
    db.board.initiate_fall_out();
    db.update(&canvas);
    assert_eq!(db.board.tetrominos[0].y, 1);
}

#[test]
fn set_digit_resets_playback_cursor_to_start() {
    let canvas = PixelCanvas::new(20, 20);
    let mut db = DigitBoard::new(0, 0, 10, Colorscheme::Original, Digit::One);
    for _ in 0..10 {
        db.update(&canvas);
    }
    assert_eq!(db.index, 2);
    db.set_digit(Digit::One);
    assert_eq!(db.index, 0);
    // The next eligible release spawns the first event again: digit one
    // starts with the square at offset 4.
    for _ in 0..5 {
        db.update(&canvas);
    }
    assert_eq!(db.index, 1);
    let newest = db.board.tetrominos[db.board.tetrominos.len() - 1];
    assert!(matches!(newest.shape, Shape::O));
    assert_eq!(newest.x, 4);
}

#[test]
fn update_throttles_releases_to_every_fourth_tick() {
    let canvas = PixelCanvas::new(20, 20);
    let mut db = DigitBoard::new(0, 0, 10, Colorscheme::Original, Digit::One);
    let expected_counts: [usize; 21] = [
        0, 0, 0, 0, 1, 1, 1, 1, 2, 2, 2, 2, 3, 3, 3, 3, 4, 4, 4, 4, 5,
    ];
    for (tick, &expected) in expected_counts.iter().enumerate() {
        db.update(&canvas);
        assert_eq!(db.index, expected, "after tick {}", tick + 1);
    }
}

#[test]
fn spawned_piece_uses_choreography_offset_and_scheme_color() {
    let canvas = PixelCanvas::new(20, 20);
    let mut db = DigitBoard::new(0, 7, 10, Colorscheme::Original, Digit::One);
    for _ in 0..5 {
        db.update(&canvas);
    }
    let t = db.board.tetrominos[0];
    // Digit one's first event: square, no rotation, offset 4 from the
    // anchor at x = 7; the classic scheme colors the square (237, 238, 57).
    assert_eq!(t.x, 11);
    assert!(matches!(t.shape, Shape::O));
    assert_eq!(t.color, Color::from_rgb(237, 238, 57));
}
