use tetrotime::canvas::PixelCanvas;
use tetrotime::clock::{time_string_to_digits, ClockDisplay};
use tetrotime::colorscheme::Colorscheme;
use tetrotime::digits::Digit;
use tetrotime::tetromino::{FallState, Shape};

#[test]
fn time_string_to_digits_converts_each_character() {
    let digits = time_string_to_digits("123456");
    assert_eq!(
        digits,
        vec![Digit::One, Digit::Two, Digit::Three, Digit::Four, Digit::Five, Digit::Six]
    );
    assert_eq!(
        time_string_to_digits("000000"),
        vec![Digit::Zero; 6]
    );
    assert_eq!(time_string_to_digits("90"), vec![Digit::Nine, Digit::Zero]);
    assert_eq!(time_string_to_digits(""), Vec::<Digit>::new());
}

#[test]
fn resize_canvas_lays_out_six_digits_and_four_separators() {
    let mut display = ClockDisplay::new(Colorscheme::Original);
    let digits = time_string_to_digits("135802");
    display.resize_canvas(100, 40, digits);
    // The 54-column display centered in 100 columns starts at x = 23; the
    // glyph stop line for 40 rows is y = 25.
    assert_eq!(display.digit_boards.len(), 6);
    let xs: Vec<i64> = display.digit_boards.iter().map(|b| b.board.x_offset).collect();
    assert_eq!(xs, vec![23, 31, 43, 51, 63, 71]);
    for (i, b) in display.digit_boards.iter().enumerate() {
        assert_eq!(b.position, i);
        assert_eq!(b.board.y_offset, 0);
        assert_eq!(b.board.y_stop, 25);
        assert_eq!(b.index, 0);
        assert!(b.board.tetrominos.is_empty());
    }
    assert_eq!(
        display.current_digits,
        vec![Digit::One, Digit::Three, Digit::Five, Digit::Eight, Digit::Zero, Digit::Two]
    );
    assert_eq!(display.separator_boards.len(), 4);
    let sep_xs: Vec<i64> = display.separator_boards.iter().map(|b| b.x_offset).collect();
    assert_eq!(sep_xs, vec![39, 39, 59, 59]);
    let sep_stops: Vec<i64> = display.separator_boards.iter().map(|b| b.y_stop).collect();
    assert_eq!(sep_stops, vec![23, 19, 23, 19]);
    for b in display.separator_boards.iter() {
        assert_eq!(b.tetrominos.len(), 1);
        assert!(matches!(b.tetrominos[0].shape, Shape::O));
        assert_eq!(b.tetrominos[0].x, b.x_offset);
        assert_eq!(b.tetrominos[0].y, b.y_offset);
    }
}

#[test]
fn update_time_switches_only_boards_whose_digit_changed() {
    let canvas = PixelCanvas::new(100, 40);
    let mut display = ClockDisplay::new(Colorscheme::Original);
    display.resize_canvas(100, 40, time_string_to_digits("112233"));
    // Let every board release and drop a couple of pieces.
    for _ in 0..8 {
        for b in display.digit_boards.iter_mut() {
            b.update(&canvas);
        }
    }
    for b in display.digit_boards.iter() {
        assert_eq!(b.index, 1);
        assert_eq!(b.board.tetrominos.len(), 1);
    }
    display.update_time(time_string_to_digits("112234"));
    // Only the last digit changed: its board restarted, the others kept
    // their playback state and pieces.
    for (i, b) in display.digit_boards.iter().enumerate() {
        if i == 5 {
            assert_eq!(b.index, 0);
            assert_eq!(b.board.tetrominos[0].fall, FallState::Exiting);
            assert_eq!(b.digit, Digit::Four);
        } else {
            assert_eq!(b.index, 1);
            assert_eq!(b.board.tetrominos[0].fall, FallState::Falling);
        }
    }
    assert_eq!(
        display.current_digits,
        time_string_to_digits("112234")
    );
}

#[test]
fn narrow_canvas_centers_display_at_negative_start() {
    let mut display = ClockDisplay::new(Colorscheme::Grayscale);
    display.resize_canvas(40, 20, time_string_to_digits("000000"));
    // (40 - 54) / 2 truncates toward zero to -7.
    assert_eq!(display.digit_boards[0].board.x_offset, -7);
    assert_eq!(display.digit_boards[0].board.y_stop, 15);
}
