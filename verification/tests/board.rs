use tetrotime::board::Board;
use tetrotime::canvas::PixelCanvas;
use tetrotime::color::Color;
use tetrotime::tetromino::{FallState, Rotation, Shape};

fn color() -> Color {
    Color::from_rgb(100, 100, 100)
}

#[test]
fn unobstructed_piece_descends_one_row_per_tick_and_settles() {
    let canvas = PixelCanvas::new(20, 20);
    let mut board = Board::new(0, 0, 10);
    board.add_tetromino(3, 0, color(), Shape::O, Rotation::NoRotation);
    for step in 1..=9i64 {
        board.update(&canvas);
        assert_eq!(board.tetrominos[0].y, step);
        assert_eq!(board.tetrominos[0].fall, FallState::Falling);
    }
    // The tenth step reaches the stop line and settles the piece.
    board.update(&canvas);
    assert_eq!(board.tetrominos[0].y, 10);
    assert_eq!(board.tetrominos[0].fall, FallState::Held);
}

#[test]
fn held_piece_stays_until_fall_out_then_never_refreezes() {
    let canvas = PixelCanvas::new(20, 20);
    let mut board = Board::new(0, 0, 5);
    board.add_tetromino(3, 0, color(), Shape::O, Rotation::NoRotation);
    for _ in 0..5 {
        board.update(&canvas);
    }
    assert_eq!(board.tetrominos[0].fall, FallState::Held);
    assert_eq!(board.tetrominos[0].y, 5);
    for _ in 0..5 {
        board.update(&canvas);
        assert_eq!(board.tetrominos[0].y, 5);
        assert_eq!(board.tetrominos[0].fall, FallState::Held);
    }
    board.initiate_fall_out();
    assert_eq!(board.tetrominos[0].fall, FallState::Exiting);
    // The piece resumes falling, passes the stop line again, and no longer
    // freezes there.
    for step in 1..=10i64 {
        board.update(&canvas);
        assert_eq!(board.tetrominos[0].y, 5 + step);
        assert_eq!(board.tetrominos[0].fall, FallState::Exiting);
    }
}

#[test]
fn exiting_piece_removed_exactly_past_offscreen_threshold() {
    // Canvas height 10: the disposal line is y > 14.
    let canvas = PixelCanvas::new(10, 10);
    let mut board = Board::new(0, 0, 5);
    board.add_tetromino(3, 0, color(), Shape::I, Rotation::Degrees90);
    board.initiate_fall_out();
    // y goes 1, 2, ..., 14: still owned at every step up to 14.
    for step in 1..=14i64 {
        board.update(&canvas);
        assert_eq!(board.tetrominos.len(), 1, "piece missing at y = {}", step);
        assert_eq!(board.tetrominos[0].y, step);
    }
    // The step that moves it to y = 15 > 14 disposes of it.
    board.update(&canvas);
    assert_eq!(board.tetrominos.len(), 0);
}

#[test]
fn blocked_piece_stays_at_spawn_until_cells_clear() {
    let mut canvas = PixelCanvas::new(20, 20);
    canvas.clear(&Color::from_rgb(50, 50, 50));
    let mut board = Board::new(0, 0, 10);
    board.add_tetromino(5, 0, color(), Shape::O, Rotation::NoRotation);
    for _ in 0..5 {
        board.update(&canvas);
        assert_eq!(board.tetrominos[0].y, 0);
        assert_eq!(board.tetrominos[0].fall, FallState::Falling);
    }
    // Once the occupying cells clear the piece falls again.
    canvas.clear(&Color::background());
    board.update(&canvas);
    assert_eq!(board.tetrominos[0].y, 1);
}

#[test]
fn exiting_piece_bypasses_collision_entirely() {
    let mut canvas = PixelCanvas::new(20, 20);
    canvas.clear(&Color::from_rgb(50, 50, 50));
    let mut board = Board::new(0, 0, 10);
    board.add_tetromino(5, 0, color(), Shape::O, Rotation::NoRotation);
    board.update(&canvas);
    assert_eq!(board.tetrominos[0].y, 0);
    board.initiate_fall_out();
    board.update(&canvas);
    assert_eq!(board.tetrominos[0].y, 1);
    assert_eq!(board.tetrominos[0].fall, FallState::Exiting);
}

#[test]
fn render_draws_footprint_at_piece_position() {
    let mut canvas = PixelCanvas::new(20, 20);
    let red = Color::from_rgb(200, 0, 0);
    let mut board = Board::new(0, 0, 10);
    board.add_tetromino(5, 6, red, Shape::O, Rotation::NoRotation);
    board.render(&mut canvas);
    // The square fills the 2x2 block whose lower-left cell is (5, 5).
    for y in 4..6 {
        for x in 5..7 {
            assert_eq!(canvas.get(x, y), red);
        }
    }
    assert_eq!(canvas.get(4, 5), Color::background());
    assert_eq!(canvas.get(7, 5), Color::background());
    assert_eq!(canvas.get(5, 6), Color::background());
    assert_eq!(canvas.get(5, 3), Color::background());
}

#[test]
fn render_keeps_insertion_order_on_overlap() {
    let mut canvas = PixelCanvas::new(20, 20);
    let red = Color::from_rgb(200, 0, 0);
    let blue = Color::from_rgb(0, 0, 200);
    let mut board = Board::new(0, 0, 10);
    board.add_tetromino(5, 6, red, Shape::O, Rotation::NoRotation);
    board.add_tetromino(6, 6, blue, Shape::O, Rotation::NoRotation);
    board.render(&mut canvas);
    // The overlapping column shows the later piece's color.
    assert_eq!(canvas.get(5, 5), red);
    assert_eq!(canvas.get(6, 5), blue);
    assert_eq!(canvas.get(7, 5), blue);
}
