use tetrotime::canvas::PixelCanvas;
use tetrotime::color::Color;

#[test]
fn new_canvas_is_all_background() {
    let canvas = PixelCanvas::new(8, 6);
    assert_eq!(canvas.width(), 8);
    assert_eq!(canvas.height(), 6);
    for y in 0..6 {
        for x in 0..8 {
            assert_eq!(canvas.get(x, y), Color::background());
            assert!(canvas.is_empty_or_color(x as i64, y as i64, &Color::background()));
        }
    }
}

#[test]
fn out_of_canvas_reads_are_empty() {
    let canvas = PixelCanvas::new(4, 4);
    let any = Color::from_rgb(1, 2, 3);
    assert!(canvas.is_empty_or_color(-1, 0, &any));
    assert!(canvas.is_empty_or_color(0, -1, &any));
    assert!(canvas.is_empty_or_color(4, 0, &any));
    assert!(canvas.is_empty_or_color(0, 4, &any));
}

#[test]
fn filled_rect_sets_exactly_its_pixels() {
    let mut canvas = PixelCanvas::new(6, 6);
    let red = Color::from_rgb(200, 0, 0);
    canvas.filled_rect(1, 2, 3, 2, &red);
    for y in 0..6i64 {
        for x in 0..6i64 {
            let inside = (1..4).contains(&x) && (2..4).contains(&y);
            let expected = if inside { red } else { Color::background() };
            assert_eq!(canvas.get(x as u32, y as u32), expected);
        }
    }
}

#[test]
fn filled_rect_clips_to_canvas() {
    let mut canvas = PixelCanvas::new(4, 4);
    let blue = Color::from_rgb(0, 0, 250);
    canvas.filled_rect(-2, -2, 3, 3, &blue);
    assert_eq!(canvas.get(0, 0), blue);
    assert_eq!(canvas.get(1, 0), Color::background());
    assert_eq!(canvas.get(0, 1), Color::background());
    canvas.filled_rect(3, 3, 5, 5, &blue);
    assert_eq!(canvas.get(3, 3), blue);
    assert_eq!(canvas.get(2, 3), Color::background());
}

#[test]
fn clear_fills_whole_canvas() {
    let mut canvas = PixelCanvas::new(5, 3);
    let gray = Color::from_rgb(77, 77, 77);
    canvas.clear(&gray);
    for y in 0..3 {
        for x in 0..5 {
            assert_eq!(canvas.get(x, y), gray);
        }
    }
    assert!(!canvas.is_empty_or_color(2, 1, &Color::background()));
}
