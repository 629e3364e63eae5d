use raytracer::fixed::ApproxEq;
use raytracer::matrices::Matrix4x4;
use raytracer::trig::PI;
use raytracer::vectors::{point, vec3};

/// The fixed-point representation of a real value.
fn fx(v: f64) -> i128 {
    (v * 1e8).round() as i128
}

/// The fixed-point representations of a list of real values.
fn fxs(vs: &[f64]) -> Vec<i128> {
    vs.iter().map(|v| fx(*v)).collect()
}

#[test]
fn translation_should_transform_point() {
    let transform = Matrix4x4::translate(fx(5.0), fx(-3.0), fx(2.0));
    let p = point(fx(-3.0), fx(4.0), fx(5.0));

    assert!(transform.mul_vec(p).is_approx(&point(fx(2.0), fx(1.0), fx(7.0))));
}

#[test]
fn inverse_translation_should_transform_point() {
    let transform = Matrix4x4::translate(fx(5.0), fx(-3.0), fx(2.0));
    let inverse = transform.invert().expect("Failed to invert");

    let p = point(fx(-3.0), fx(4.0), fx(5.0));

    assert!(inverse.mul_vec(p).is_approx(&point(fx(-8.0), fx(7.0), fx(3.0))));
}

#[test]
fn translation_does_not_affect_vectors() {
    let transform = Matrix4x4::translate(fx(5.0), fx(-3.0), fx(2.0));
    let v = vec3(fx(3.0), fx(4.0), fx(5.0));

    assert!(transform.mul_vec(v).is_approx(&v));
}

#[test]
fn scale_should_transform_point() {
    let transform = Matrix4x4::scale(fx(2.), fx(3.), fx(4.));
    let p = point(fx(-4.), fx(6.), fx(8.));

    assert!(transform.mul_vec(p).is_approx(&point(fx(-8.), fx(18.), fx(32.))));
}

#[test]
fn scale_should_transform_vector() {
    let transform = Matrix4x4::scale(fx(2.), fx(3.), fx(4.));
    let p = vec3(fx(-4.), fx(6.), fx(8.));

    assert!(transform.mul_vec(p).is_approx(&vec3(fx(-8.), fx(18.), fx(32.))));
}

#[test]
fn inverse_scale_should_transform_point() {
    let transform = Matrix4x4::scale(fx(2.), fx(3.), fx(4.));
    let inverse = transform.invert().expect("Failed to invert");

    let p = point(fx(-4.), fx(6.), fx(8.));

    assert!(inverse.mul_vec(p).is_approx(&point(fx(-2.), fx(2.), fx(2.))));
}

#[test]
fn scale_should_reflect_point() {
    let transform = Matrix4x4::scale(fx(-1.), fx(1.), fx(1.));
    let p = point(fx(2.), fx(3.), fx(4.));

    assert!(transform.mul_vec(p).is_approx(&point(fx(-2.), fx(3.), fx(4.))));
}

#[test]
fn rotate_around_x_axis() {
    let p = point(0, fx(1.), 0);

    let half_quarter = Matrix4x4::rotate_x(PI / 4);
    let full_quarter = Matrix4x4::rotate_x(PI / 2);

    let half = fx(2f64.sqrt() / 2.);
    assert!(half_quarter.mul_vec(p).is_approx(&point(0, half, half)));
    assert!(full_quarter.mul_vec(p).is_approx(&point(0, 0, fx(1.))));
}

#[test]
fn inverse_rotate_around_x_axis() {
    let p = point(0, fx(1.), 0);

    let half_quarter = Matrix4x4::rotate_x(PI / 4);
    let inverse = half_quarter.invert().expect("Failed to invert");

    let half = fx(2f64.sqrt() / 2.);
    assert!(inverse.mul_vec(p).is_approx(&point(0, half, -half)));
}

#[test]
fn rotate_around_y_axis() {
    let p = point(0, 0, fx(1.));

    let half_quarter = Matrix4x4::rotate_y(PI / 4);
    let full_quarter = Matrix4x4::rotate_y(PI / 2);

    let half = fx(2f64.sqrt() / 2.);
    assert!(half_quarter.mul_vec(p).is_approx(&point(half, 0, half)));
    assert!(full_quarter.mul_vec(p).is_approx(&point(fx(1.), 0, 0)));
}

#[test]
fn rotate_around_z_axis() {
    let p = point(0, fx(1.), 0);

    let half_quarter = Matrix4x4::rotate_z(PI / 4);
    let full_quarter = Matrix4x4::rotate_z(PI / 2);

    let half = fx(2f64.sqrt() / 2.);
    assert!(half_quarter.mul_vec(p).is_approx(&point(-half, half, 0)));
    assert!(full_quarter.mul_vec(p).is_approx(&point(fx(-1.), 0, 0)));
}

#[test]
fn shearing_should_move_x_in_proportion_to_y() {
    let transform = Matrix4x4::shear(fx(1.), 0, 0, 0, 0, 0);
    let p = point(fx(2.), fx(3.), fx(4.));

    assert!(transform.mul_vec(p).is_approx(&point(fx(5.), fx(3.), fx(4.))));
}

#[test]
fn shearing_should_move_x_in_proportion_to_z() {
    let transform = Matrix4x4::shear(0, fx(1.), 0, 0, 0, 0);
    let p = point(fx(2.), fx(3.), fx(4.));

    assert!(transform.mul_vec(p).is_approx(&point(fx(6.), fx(3.), fx(4.))));
}

#[test]
fn shearing_should_move_y_in_proportion_to_x() {
    let transform = Matrix4x4::shear(0, 0, fx(1.), 0, 0, 0);
    let p = point(fx(2.), fx(3.), fx(4.));

    assert!(transform.mul_vec(p).is_approx(&point(fx(2.), fx(5.), fx(4.))));
}

#[test]
fn shearing_should_move_y_in_proportion_to_z() {
    let transform = Matrix4x4::shear(0, 0, 0, fx(1.), 0, 0);
    let p = point(fx(2.), fx(3.), fx(4.));

    assert!(transform.mul_vec(p).is_approx(&point(fx(2.), fx(7.), fx(4.))));
}

#[test]
fn shearing_should_move_z_in_proportion_to_x() {
    let transform = Matrix4x4::shear(0, 0, 0, 0, fx(1.), 0);
    let p = point(fx(2.), fx(3.), fx(4.));

    assert!(transform.mul_vec(p).is_approx(&point(fx(2.), fx(3.), fx(6.))));
}

#[test]
fn shearing_should_move_z_in_proportion_to_y() {
    let transform = Matrix4x4::shear(0, 0, 0, 0, 0, fx(1.));
    let p = point(fx(2.), fx(3.), fx(4.));

    assert!(transform.mul_vec(p).is_approx(&point(fx(2.), fx(3.), fx(7.))));
}

#[test]
fn individual_transforms_are_applied_in_sequence() {
    let p = point(fx(1.), 0, fx(1.));

    let a = Matrix4x4::rotate_x(PI / 2);
    let b = Matrix4x4::scale(fx(5.), fx(5.), fx(5.));
    let c = Matrix4x4::translate(fx(10.), fx(5.), fx(7.));

    let p2 = a.mul_vec(p);
    assert!(p2.is_approx(&point(fx(1.), fx(-1.), 0)));

    let p3 = b.mul_vec(p2);
    assert!(p3.is_approx(&point(fx(5.), fx(-5.), 0)));

    let p4 = c.mul_vec(p3);
    assert!(p4.is_approx(&point(fx(15.), 0, fx(7.))));
}

#[test]
fn chained_transformations_are_applied_in_reverse_order() {
    let p = point(fx(1.), 0, fx(1.));

    let a = Matrix4x4::rotate_x(PI / 2);
    let b = Matrix4x4::scale(fx(5.), fx(5.), fx(5.));
    let c = Matrix4x4::translate(fx(10.), fx(5.), fx(7.));

    let transform = c.mul(&b).mul(&a);

    assert!(transform.mul_vec(p).is_approx(&point(fx(15.), 0, fx(7.))));
}

#[test]
fn look_at_default_orientation() {
    let from = point(0, 0, 0);
    let to = point(0, 0, fx(-1.));
    let up = vec3(0, fx(1.), 0);

    let transform = Matrix4x4::look_at(from, to, up);

    assert!(transform.is_approx(&Matrix4x4::identity()));
}

#[test]
fn look_at_positive_z_direction() {
    let from = point(0, 0, 0);
    let to = point(0, 0, fx(1.));
    let up = vec3(0, fx(1.), 0);

    let transform = Matrix4x4::look_at(from, to, up);

    assert!(transform.is_approx(&Matrix4x4::scale(fx(-1.), fx(1.), fx(-1.))));
}

#[test]
fn look_at_moves_the_world() {
    let from = point(0, 0, fx(8.));
    let to = point(0, 0, 0);
    let up = vec3(0, fx(1.), 0);

    let transform = Matrix4x4::look_at(from, to, up);

    assert!(transform.is_approx(&Matrix4x4::translate(0, 0, fx(-8.))));
}

#[test]
fn look_at_arbitrary_point() {
    let from = point(fx(1.), fx(3.), fx(2.));
    let to = point(fx(4.), fx(-2.), fx(8.));
    let up = vec3(fx(1.), fx(1.), 0);

    let transform = Matrix4x4::look_at(from, to, up);

    let expected = Matrix4x4::create(fxs(&[
        -0.50709, 0.50709, 0.67612, -2.36643, 0.76772, 0.60609, 0.12122, -2.82843, -0.35857,
        0.59761, -0.71714, 0.00000, 0.00000, 0.00000, 0.00000, 1.00000,
    ]));

    assert!(transform.is_approx(&expected));
}
