use tetrotime::color::Color;
use tetrotime::colorscheme::Colorscheme;
use tetrotime::digits::Digit;
use tetrotime::tetromino::Shape;

#[test]
fn default_scheme_is_original() {
    assert_eq!(Colorscheme::default(), Colorscheme::Original);
}

#[test]
fn shape_keyed_schemes_give_authored_colors() {
    let d = Digit::Zero;
    assert_eq!(
        Colorscheme::Original.apply(Shape::L, d, 0),
        Color::from_rgb(223, 155, 42)
    );
    assert_eq!(
        Colorscheme::Grayscale.apply(Shape::Z, d, 0),
        Color::from_rgb(120, 120, 120)
    );
    assert_eq!(
        Colorscheme::Neon.apply(Shape::T, d, 0),
        Color::from_rgb(167, 0, 255)
    );
    assert_eq!(
        Colorscheme::Matrix.apply(Shape::O, d, 0),
        Color::from_rgb(172, 255, 172)
    );
}

#[test]
fn position_scheme_keys_on_position_alone() {
    let c3 = Colorscheme::Position.apply(Shape::L, Digit::One, 3);
    assert_eq!(c3, Color::from_rgb(136, 26, 231));
    // Neither the shape nor the digit matters for this scheme.
    assert_eq!(Colorscheme::Position.apply(Shape::I, Digit::Nine, 3), c3);
    assert_eq!(
        Colorscheme::Position.apply(Shape::L, Digit::One, 0),
        Color::from_rgb(237, 238, 57)
    );
}

#[test]
fn digit_scheme_keys_on_digit_alone() {
    let seven = Colorscheme::Digit.apply(Shape::L, Digit::Seven, 0);
    assert_eq!(seven, Color::from_rgb(255, 218, 185));
    assert_eq!(Colorscheme::Digit.apply(Shape::Z, Digit::Seven, 5), seven);
    assert_eq!(
        Colorscheme::Digit.apply(Shape::L, Digit::Zero, 0),
        Color::from_rgb(180, 180, 180)
    );
}

#[test]
fn from_rgb_stores_components() {
    let c = Color::from_rgb(7, 8, 9);
    assert_eq!(c.r, 7);
    assert_eq!(c.g, 8);
    assert_eq!(c.b, 9);
    assert_eq!(Color::background(), Color::from_rgb(0, 0, 0));
}
