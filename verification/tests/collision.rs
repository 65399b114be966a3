use tetrotime::canvas::PixelCanvas;
use tetrotime::color::Color;
use tetrotime::tetromino::{
    would_tetromino_collide_with_canvas, FallState, Rotation, Shape, Tetromino,
};

fn piece(shape: Shape, rotation: Rotation, x: i64, y: i64) -> Tetromino {
    Tetromino { shape, rotation, x, y, color: Color::from_rgb(10, 20, 30), fall: FallState::Falling }
}

#[test]
fn no_collision_on_empty_canvas() {
    let canvas = PixelCanvas::new(20, 20);
    let t = piece(Shape::L, Rotation::NoRotation, 5, 5);
    assert!(!would_tetromino_collide_with_canvas(&t, &canvas));
}

#[test]
fn collision_detects_an_occupied_probe_cell() {
    // The L piece without rotation probes (x, y), (x+1, y-1) and (x+2, y-1).
    let mut canvas = PixelCanvas::new(20, 20);
    let filled = Color::from_rgb(255, 0, 0);
    canvas.filled_rect(6, 4, 1, 1, &filled);
    let t = piece(Shape::L, Rotation::NoRotation, 5, 5);
    assert!(would_tetromino_collide_with_canvas(&t, &canvas));
    // The same pixel does not block a piece probing elsewhere.
    let far = piece(Shape::L, Rotation::NoRotation, 10, 10);
    assert!(!would_tetromino_collide_with_canvas(&far, &canvas));
}

#[test]
fn background_colored_cell_does_not_block() {
    let mut canvas = PixelCanvas::new(20, 20);
    canvas.filled_rect(6, 4, 1, 1, &Color::background());
    let t = piece(Shape::L, Rotation::NoRotation, 5, 5);
    assert!(!would_tetromino_collide_with_canvas(&t, &canvas));
}

#[test]
fn off_canvas_probes_do_not_block() {
    let canvas = PixelCanvas::new(20, 20);
    // Probes below the bottom edge and left of the canvas read as empty.
    let below = piece(Shape::O, Rotation::NoRotation, 5, 30);
    assert!(!would_tetromino_collide_with_canvas(&below, &canvas));
    let left = piece(Shape::J, Rotation::NoRotation, -5, 5);
    assert!(!would_tetromino_collide_with_canvas(&left, &canvas));
}

#[test]
fn each_probe_cell_of_straight_bar_blocks() {
    let filled = Color::from_rgb(1, 1, 1);
    for dx in 0..4i64 {
        let mut canvas = PixelCanvas::new(20, 20);
        canvas.filled_rect(5 + dx, 8, 1, 1, &filled);
        let t = piece(Shape::I, Rotation::NoRotation, 5, 8);
        assert!(would_tetromino_collide_with_canvas(&t, &canvas));
    }
    let mut canvas = PixelCanvas::new(20, 20);
    canvas.filled_rect(9, 8, 1, 1, &filled);
    let t = piece(Shape::I, Rotation::NoRotation, 5, 8);
    assert!(!would_tetromino_collide_with_canvas(&t, &canvas));
}
