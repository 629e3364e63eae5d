use raytracer::fixed::ApproxEq;
use raytracer::matrices::Matrix4x4;
use raytracer::rays::Ray;
use raytracer::vectors::{point, vec3};

/// The fixed-point representation of a real value.
fn fx(v: f64) -> i128 {
    (v * 1e8).round() as i128
}

#[test]
fn ray_should_expose_basic_properties() {
    let origin = point(fx(1.), fx(2.), fx(3.));
    let direction = vec3(fx(4.), fx(5.), fx(6.));

    let ray = Ray::new(origin, direction);

    assert!(ray.origin.is_approx(&origin));
    assert!(ray.direction.is_approx(&direction));
}

#[test]
fn ray_should_compute_position() {
    let origin = point(fx(2.), fx(3.), fx(4.));
    let direction = vec3(fx(1.), 0, 0);

    let ray = Ray::new(origin, direction);

    assert!(ray.position(0).is_approx(&origin));
    assert!(ray.position(fx(1.)).is_approx(&point(fx(3.), fx(3.), fx(4.))));
    assert!(ray.position(fx(-1.)).is_approx(&point(fx(1.), fx(3.), fx(4.))));
    assert!(ray.position(fx(2.5)).is_approx(&point(fx(4.5), fx(3.), fx(4.))));
}

#[test]
fn ray_should_translate() {
    let ray = Ray::new(point(fx(1.), fx(2.), fx(3.)), vec3(0, fx(1.), 0));
    let transform = Matrix4x4::translate(fx(3.), fx(4.), fx(5.));

    let translated_ray = transform.mul_ray(&ray);

    assert!(translated_ray.origin.is_approx(&point(fx(4.), fx(6.), fx(8.))));
    assert!(translated_ray.direction.is_approx(&vec3(0, fx(1.), 0)));
}

#[test]
fn ray_should_scale() {
    let ray = Ray::new(point(fx(1.), fx(2.), fx(3.)), vec3(0, fx(1.), 0));
    let transform = Matrix4x4::scale(fx(2.), fx(3.), fx(4.));

    let scaled_ray = transform.mul_ray(&ray);

    assert!(scaled_ray.origin.is_approx(&point(fx(2.), fx(6.), fx(12.))));
    assert!(scaled_ray.direction.is_approx(&vec3(0, fx(3.), 0)));
}
