use raytracer::colors::{rgb, Color};
use raytracer::fixed::ApproxEq;

/// The fixed-point representation of a real value.
fn fx(v: f64) -> i128 {
    (v * 1e8).round() as i128
}

#[test]
fn color_should_create_red_green_blue_tuples() {
    let color = rgb(fx(-0.5), fx(0.4), fx(1.7));

    assert_eq!(color.r, fx(-0.5));
    assert_eq!(color.g, fx(0.4));
    assert_eq!(color.b, fx(1.7));
}

#[test]
fn colors_should_add() {
    let a = rgb(fx(0.9), fx(0.6), fx(0.75));
    let b = rgb(fx(0.7), fx(0.1), fx(0.25));

    assert!(a.add(b).is_approx(&rgb(fx(1.6), fx(0.7), fx(1.0))));
}

#[test]
fn colors_should_subtract() {
    let a = rgb(fx(0.9), fx(0.6), fx(0.75));
    let b = rgb(fx(0.7), fx(0.1), fx(0.25));

    assert!(a.sub(b).is_approx(&rgb(fx(0.2), fx(0.5), fx(0.5))));
}

#[test]
fn colors_should_multiply() {
    let a = rgb(fx(1.), fx(0.2), fx(0.4));
    let b = rgb(fx(0.9), fx(1.), fx(0.1));

    assert!(a.mul(b).is_approx(&rgb(fx(0.9), fx(0.2), fx(0.04))));
}

#[test]
fn colors_should_multiply_by_scalar() {
    let a = rgb(fx(0.2), fx(0.3), fx(0.4));

    assert!(a.scale(fx(2.)).is_approx(&rgb(fx(0.4), fx(0.6), fx(0.8))));
}

#[test]
fn color_constants_should_hold_their_channels() {
    assert_eq!(Color::black(), rgb(0, 0, 0));
    assert_eq!(Color::white(), rgb(fx(1.), fx(1.), fx(1.)));
    assert_eq!(Color::red(), rgb(fx(1.), 0, 0));
    assert_eq!(Color::green(), rgb(0, fx(1.), 0));
    assert_eq!(Color::blue(), rgb(0, 0, fx(1.)));
    assert_eq!(Color::magenta(), rgb(fx(1.), 0, fx(1.)));
}
