use tetrotime::digits::{Digit, FallingTetromino};
use tetrotime::tetromino::{Rotation, Shape};

#[test]
fn from_value_maps_each_digit() {
    let expected = [
        Digit::Zero,
        Digit::One,
        Digit::Two,
        Digit::Three,
        Digit::Four,
        Digit::Five,
        Digit::Six,
        Digit::Seven,
        Digit::Eight,
        Digit::Nine,
    ];
    for (v, &d) in expected.iter().enumerate() {
        assert_eq!(Digit::from_value(v as u32), d);
    }
}

#[test]
fn falling_tetromino_new_stores_fields() {
    let ev = FallingTetromino::new(Shape::S, Rotation::Degrees180, 3);
    assert!(matches!(ev.shape, Shape::S));
    assert!(matches!(ev.rotation, Rotation::Degrees180));
    assert_eq!(ev.dx, 3);
}

#[test]
fn choreography_lengths_match_authored_data() {
    let lengths = [12, 5, 11, 11, 9, 11, 12, 7, 13, 12];
    let digits = [
        Digit::Zero,
        Digit::One,
        Digit::Two,
        Digit::Three,
        Digit::Four,
        Digit::Five,
        Digit::Six,
        Digit::Seven,
        Digit::Eight,
        Digit::Nine,
    ];
    for (&d, &len) in digits.iter().zip(lengths.iter()) {
        assert_eq!(d.animation().len(), len);
    }
}

#[test]
fn choreography_is_fixed_data() {
    let a1 = Digit::Eight.animation();
    let a2 = Digit::Eight.animation();
    assert_eq!(a1, a2);
    // Digit one's authored sequence, event by event.
    let one = Digit::One.animation();
    assert_eq!(one[0], FallingTetromino::new(Shape::O, Rotation::NoRotation, 4));
    assert_eq!(one[1], FallingTetromino::new(Shape::L, Rotation::Degrees270, 4));
    assert_eq!(one[2], FallingTetromino::new(Shape::I, Rotation::Degrees90, 5));
    assert_eq!(one[3], FallingTetromino::new(Shape::J, Rotation::Degrees270, 4));
    assert_eq!(one[4], FallingTetromino::new(Shape::O, Rotation::NoRotation, 4));
}

#[test]
fn horizontal_offsets_stay_within_glyph_width() {
    let digits = [
        Digit::Zero,
        Digit::One,
        Digit::Two,
        Digit::Three,
        Digit::Four,
        Digit::Five,
        Digit::Six,
        Digit::Seven,
        Digit::Eight,
        Digit::Nine,
    ];
    for &d in digits.iter() {
        for ev in d.animation().iter() {
            assert!((0..=5).contains(&ev.dx));
        }
    }
}
