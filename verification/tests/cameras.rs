use raytracer::cameras::Camera;
use raytracer::fixed::ApproxEq;
use raytracer::matrices::Matrix4x4;
use raytracer::scene::Scene;
use raytracer::trig::PI;
use raytracer::vectors::{point, vec3};

/// The fixed-point representation of a real value.
fn fx(v: f64) -> i128 {
    (v * 1e8).round() as i128
}

#[test]
fn pixel_size_for_horizontal_canvas() {
    let camera = Camera::new(200, 125, PI / 2);

    assert!(camera.pixel_size.is_approx(&fx(0.01)));
}

#[test]
fn pixel_size_for_vertical_camera() {
    let camera = Camera::new(125, 200, PI / 2);

    assert!(camera.pixel_size.is_approx(&fx(0.01)));
}

#[test]
fn construct_ray_through_center_of_camera() {
    let mut camera = Camera::new(201, 101, PI / 2);
    camera.transform = Matrix4x4::identity();

    let ray = camera.ray_for_pixel(100, 50);

    assert!(ray.origin.is_approx(&point(0, 0, 0)));
    assert!(ray.direction.is_approx(&vec3(0, 0, fx(-1.))));
}

#[test]
fn construct_ray_through_corner_of_camera() {
    let mut camera = Camera::new(201, 101, PI / 2);
    camera.transform = Matrix4x4::identity();

    let ray = camera.ray_for_pixel(0, 0);

    assert!(ray.origin.is_approx(&point(0, 0, 0)));
    assert!(ray.direction.is_approx(&vec3(fx(0.66519), fx(0.33259), fx(-0.66851))));
}

#[test]
fn construct_ray_when_camera_is_transformed() {
    let mut camera = Camera::new(201, 101, PI / 2);
    camera.transform = Matrix4x4::rotate_y(PI / 4).mul(&Matrix4x4::translate(0, fx(-2.), fx(5.)));
    let ray = camera.ray_for_pixel(100, 50);

    let half = fx(2f64.sqrt() / 2.);
    assert!(ray.origin.is_approx(&point(0, fx(2.), fx(-5.))));
    assert!(ray.direction.is_approx(&vec3(half, 0, -half)));
}

#[test]
fn render_of_an_empty_scene_is_the_background() {
    let camera = Camera::new(2, 2, PI / 2);
    let mut scene = Scene::new();
    scene.ambient_color = raytracer::colors::Color::magenta();

    let canvas = camera.render(&scene);

    assert_eq!(canvas.width(), 2);
    assert_eq!(canvas.height(), 2);
    for pixel in canvas.as_slice() {
        assert!(pixel.is_approx(&raytracer::colors::Color::magenta()));
    }
}
