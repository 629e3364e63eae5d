use raytracer::colors::Color;
use raytracer::fixed::ApproxEq;
use raytracer::graphics::Canvas;

#[test]
fn canvas_should_default_to_black_color() {
    let canvas = Canvas::new(10, 20);

    assert_eq!(canvas.width(), 10);
    assert_eq!(canvas.height(), 20);

    for pixel in canvas.as_slice() {
        assert_eq!(*pixel, Color::black());
    }
}

#[test]
fn canvas_should_read_and_write_pixels() {
    let mut canvas = Canvas::new(10, 20);

    canvas.set_pixel(2, 3, Color::red());

    assert_eq!(canvas.get_pixel(2, 3), Color::red());
}

#[test]
fn canvas_should_fill_with_a_color() {
    let mut canvas = Canvas::new(4, 4);

    canvas.fill(Color::blue());

    for pixel in canvas.as_slice() {
        assert!(pixel.is_approx(&Color::blue()));
    }
}
