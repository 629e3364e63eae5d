use raytracer::fixed::ApproxEq;
use raytracer::vectors::{point, vec3, vec4, Vector};

/// The fixed-point representation of a real value.
fn fx(v: f64) -> i128 {
    (v * 1e8).round() as i128
}

#[test]
fn vector_should_create_valid_vectors() {
    let tuple = vec3(fx(4.3), fx(-4.2), fx(3.1));

    assert_eq!(tuple.x, fx(4.3));
    assert_eq!(tuple.y, fx(-4.2));
    assert_eq!(tuple.z, fx(3.1));
    assert_eq!(tuple.w, 0);
    assert!(tuple.is_vector());
    assert!(!tuple.is_point());
}

#[test]
fn vector_should_create_valid_points() {
    let tuple = point(fx(4.3), fx(-4.2), fx(3.1));

    assert_eq!(tuple.x, fx(4.3));
    assert_eq!(tuple.y, fx(-4.2));
    assert_eq!(tuple.z, fx(3.1));
    assert_eq!(tuple.w, fx(1.0));
    assert!(!tuple.is_vector());
    assert!(tuple.is_point());
}

#[test]
fn vectors_should_exhibit_equality() {
    let a = vec3(fx(3.), fx(-2.), fx(5.));
    let b = vec3(fx(-2.), fx(3.), fx(1.));
    let c = vec3(fx(3.), fx(-2.), fx(5.));
    let d = point(fx(3.), fx(-2.), fx(5.));

    assert!(a.is_approx(&c));
    assert!(c.is_approx(&a));
    assert!(!a.is_approx(&b));
    assert!(!b.is_approx(&a));
    assert!(!a.is_approx(&d));
    assert!(!b.is_approx(&d));
}

#[test]
fn vectors_should_negate() {
    let a = vec4(fx(1.), fx(-2.), fx(3.), fx(-4.));

    assert!(a.neg().is_approx(&vec4(fx(-1.), fx(2.), fx(-3.), fx(4.))));
}

#[test]
fn vectors_should_add() {
    let a = vec3(fx(3.), fx(-2.), fx(5.));
    let b = vec3(fx(-2.), fx(3.), fx(1.));

    assert!(a.add(b).is_approx(&vec3(fx(1.), fx(1.), fx(6.))));
}

#[test]
fn vectors_should_subtract_two_points() {
    let a = point(fx(3.), fx(2.), fx(1.));
    let b = point(fx(5.), fx(6.), fx(7.));

    assert!(a.sub(b).is_approx(&vec3(fx(-2.), fx(-4.), fx(-6.))));
}

#[test]
fn vectors_should_subtract_two_vectors() {
    let a = vec3(fx(3.), fx(2.), fx(1.));
    let b = vec3(fx(5.), fx(6.), fx(7.));

    assert!(a.sub(b).is_approx(&vec3(fx(-2.), fx(-4.), fx(-6.))));
}

#[test]
fn vectors_should_subtract_vector_from_point() {
    let a = point(fx(3.), fx(2.), fx(1.));
    let b = vec3(fx(5.), fx(6.), fx(7.));

    assert!(a.sub(b).is_approx(&point(fx(-2.), fx(-4.), fx(-6.))));
}

#[test]
fn vectors_should_multiply_by_a_scalar() {
    let a = vec4(fx(1.), fx(-2.), fx(3.), fx(-4.));

    assert!(a.scale(fx(3.5)).is_approx(&vec4(fx(3.5), fx(-7.), fx(10.5), fx(-14.))));
}

#[test]
fn vectors_should_multiply_by_a_fraction() {
    let a = vec4(fx(1.), fx(-2.), fx(3.), fx(-4.));

    assert!(a.scale(fx(0.5)).is_approx(&vec4(fx(0.5), fx(-1.), fx(1.5), fx(-2.))));
}

#[test]
fn vectors_should_divide_by_scalar() {
    let a = vec4(fx(1.), fx(-2.), fx(3.), fx(-4.));

    assert!(a.div(fx(2.)).is_approx(&vec4(fx(0.5), fx(-1.), fx(1.5), fx(-2.))));
}

#[test]
fn vectors_should_compute_magnitude_of_unit_x() {
    assert!(fx(1.).is_approx(&vec3(fx(1.), 0, 0).magnitude()));
}

#[test]
fn vectors_should_compute_magnitude_of_unit_y() {
    assert!(fx(1.).is_approx(&vec3(0, fx(1.), 0).magnitude()));
}

#[test]
fn vectors_should_compute_magnitude_of_unit_z() {
    assert!(fx(1.).is_approx(&vec3(0, 0, fx(1.)).magnitude()));
}

#[test]
fn vectors_should_compute_magnitude_of_positive_vector() {
    assert!(fx(14f64.sqrt()).is_approx(&vec3(fx(1.), fx(2.), fx(3.)).magnitude()));
}

#[test]
fn vectors_should_compute_magnitude_of_negative_vector() {
    assert!(fx(14f64.sqrt()).is_approx(&vec3(fx(-1.), fx(-2.), fx(-3.)).magnitude()));
}

#[test]
fn vectors_should_normalize_unit_x() {
    assert!(vec3(fx(4.), 0, 0).normalize().is_approx(&vec3(fx(1.), 0, 0)));
}

#[test]
fn vectors_should_normalize_unit_y() {
    assert!(vec3(0, fx(20.), 0).normalize().is_approx(&vec3(0, fx(1.), 0)));
}

#[test]
fn vectors_should_normalize_unit_z() {
    assert!(vec3(0, 0, fx(-8.)).normalize().is_approx(&vec3(0, 0, fx(-1.))));
}

#[test]
fn vectors_should_have_unit_length_normalized_vector() {
    assert!(vec3(fx(1.), fx(2.), fx(3.)).normalize().magnitude().is_approx(&fx(1.)));
}

#[test]
fn vectors_should_compute_a_dot_product() {
    let a = vec3(fx(1.), fx(2.), fx(3.));
    let b = vec3(fx(2.), fx(3.), fx(4.));

    assert_eq!(a.dot(b), fx(20.));
}

#[test]
fn vectors_should_compute_a_cross_product() {
    let a = vec3(fx(1.), fx(2.), fx(3.));
    let b = vec3(fx(2.), fx(3.), fx(4.));

    let cross = a.cross(b);

    assert!(cross.is_approx(&vec3(fx(-1.), fx(2.), fx(-1.))));
}

#[test]
fn reflect_a_vector_approaching_at_45_degrees() {
    let vector = vec3(fx(1.), fx(-1.), 0);
    let normal = vec3(0, fx(1.), 0);

    let reflection = vector.reflect(normal);

    assert!(reflection.is_approx(&vec3(fx(1.), fx(1.), 0)));
}

#[test]
fn reflect_a_vector_off_a_slanted_surface() {
    let vector = vec3(0, fx(-1.), 0);
    let half = fx(2f64.sqrt() / 2.);
    let normal = vec3(half, half, 0);

    let reflection = vector.reflect(normal);

    assert!(reflection.is_approx(&vec3(fx(1.), 0, 0)));
}

#[test]
fn vector_new_should_set_all_components() {
    let v = Vector::new(fx(1.), fx(2.), fx(3.), fx(4.));

    assert_eq!(v.x, fx(1.));
    assert_eq!(v.y, fx(2.));
    assert_eq!(v.z, fx(3.));
    assert_eq!(v.w, fx(4.));
}
