use raytracer::fixed::ApproxEq;
use raytracer::matrices::{Matrix2x2, Matrix3x3, Matrix4x4};
use raytracer::vectors::vec4;

/// The fixed-point representation of a real value.
fn fx(v: f64) -> i128 {
    (v * 1e8).round() as i128
}

/// The fixed-point representations of a list of real values.
fn fxs(vs: &[f64]) -> Vec<i128> {
    vs.iter().map(|v| fx(*v)).collect()
}

#[test]
fn matrix2x2_should_construct_from_elements() {
    let matrix = Matrix2x2::create(fxs(&[-3., 5., 1., -2.]));

    assert_eq!(matrix.at(0, 0), fx(-3.));
    assert_eq!(matrix.at(0, 1), fx(5.));
    assert_eq!(matrix.at(1, 0), fx(1.));
    assert_eq!(matrix.at(1, 1), fx(-2.));
}

#[test]
fn matrix3x3_should_construct_from_elements() {
    let matrix = Matrix3x3::create(fxs(&[-3., 5., 0., 1., -2., -7., 0., 1., 1.]));

    assert_eq!(matrix.at(0, 0), fx(-3.));
    assert_eq!(matrix.at(1, 1), fx(-2.));
    assert_eq!(matrix.at(2, 2), fx(1.));
}

#[test]
fn matrix4x4_should_construct_from_elements() {
    let matrix = Matrix4x4::create(fxs(&[
        1., 2., 3., 4., 5.5, 6.5, 7.5, 8.5, 9., 10., 11., 12., 13.5, 14.5, 15.5, 16.5,
    ]));

    assert_eq!(matrix.at(0, 0), fx(1.));
    assert_eq!(matrix.at(0, 3), fx(4.));
    assert_eq!(matrix.at(1, 0), fx(5.5));
    assert_eq!(matrix.at(1, 2), fx(7.5));
    assert_eq!(matrix.at(2, 2), fx(11.));
    assert_eq!(matrix.at(3, 0), fx(13.5));
    assert_eq!(matrix.at(3, 2), fx(15.5));
}

#[test]
fn matrix_equality_should_work() {
    let a = Matrix3x3::create(fxs(&[1., 2., 3., 4., 5., 6., 7., 8., 9.]));
    let b = Matrix3x3::create(fxs(&[1., 2., 3., 4., 5., 6., 7., 8., 9.]));

    assert!(a.is_approx(&b));
}

#[test]
fn matrix_inequality_should_work() {
    let a = Matrix3x3::create(fxs(&[1., 2., 3., 4., 5., 6., 7., 8., 9.]));
    let b = Matrix3x3::create(fxs(&[2., 3., 4., 5., 6., 7., 8., 9., 10.]));

    assert!(!a.is_approx(&b));
}

#[test]
fn matrices_can_multiply_by_other_matrices() {
    let a = Matrix4x4::create(fxs(&[
        1., 2., 3., 4., 5., 6., 7., 8., 9., 8., 7., 6., 5., 4., 3., 2.,
    ]));
    let b = Matrix4x4::create(fxs(&[
        -2., 1., 2., 3., 3., 2., 1., -1., 4., 3., 6., 5., 1., 2., 7., 8.,
    ]));

    let expected = Matrix4x4::create(fxs(&[
        20., 22., 50., 48., 44., 54., 114., 108., 40., 58., 110., 102., 16., 26., 46., 42.,
    ]));

    assert!(a.mul(&b).is_approx(&expected));
}

#[test]
fn matrices_should_multiply_by_tuples() {
    let a = Matrix4x4::create(fxs(&[
        1., 2., 3., 4., 2., 4., 4., 2., 8., 6., 4., 1., 0., 0., 0., 1.,
    ]));

    let result = a.mul_vec(vec4(fx(1.), fx(2.), fx(3.), fx(1.)));

    assert!(result.is_approx(&vec4(fx(18.), fx(24.), fx(33.), fx(1.))));
}

#[test]
fn matrix_multiplication_by_identity_should_be_inert() {
    let a = Matrix4x4::create(fxs(&[
        0., 1., 2., 4., 1., 2., 4., 8., 2., 4., 8., 16., 4., 8., 16., 32.,
    ]));

    assert!(a.mul(&Matrix4x4::identity()).is_approx(&a));
}

#[test]
fn matrix_multiplication_by_tuple_should_be_inert() {
    let a = vec4(fx(1.), fx(2.), fx(3.), fx(4.));

    assert!(Matrix4x4::identity().mul_vec(a).is_approx(&a));
}

#[test]
fn matrix_transpose_should_work_correctly() {
    let a = Matrix4x4::create(fxs(&[
        0., 9., 3., 0., 9., 8., 0., 8., 1., 8., 5., 3., 0., 0., 5., 8.,
    ]));

    let expected = Matrix4x4::create(fxs(&[
        0., 9., 1., 0., 9., 8., 8., 0., 3., 0., 5., 5., 0., 8., 3., 8.,
    ]));

    assert!(a.transpose().is_approx(&expected));
}

#[test]
fn matrix_transpose_of_identity_is_identity() {
    assert!(Matrix4x4::identity().transpose().is_approx(&Matrix4x4::identity()));
}

#[test]
fn determinant_should_be_calculated_correctly() {
    let a = Matrix2x2::create(fxs(&[1., 5., -3., 2.]));

    assert_eq!(a.determinant(), fx(17.));
}

#[test]
fn sub_matrix_of_3x3_is_valid_2x2() {
    let a = Matrix3x3::create(fxs(&[1., 5., 0., -3., 2., 7., 0., 6., -3.]));

    assert!(a.to_sub_matrix(0, 2).is_approx(&Matrix2x2::create(fxs(&[-3., 2., 0., 6.]))));
}

#[test]
fn sub_matrix_of_4x4_is_valid_3x3() {
    let a = Matrix4x4::create(fxs(&[
        -6., 1., 1., 6., -8., 5., 8., 6., -1., 0., 8., 2., -7., 1., -1., 1.,
    ]));

    let expected = Matrix3x3::create(fxs(&[-6., 1., 6., -8., 8., 6., -7., -1., 1.]));

    assert!(a.to_sub_matrix(2, 1).is_approx(&expected));
}

#[test]
fn matrix3x3_should_calculate_minor() {
    let a = Matrix3x3::create(fxs(&[3., 5., 0., 2., -1., -7., 6., -1., 5.]));

    let b = a.to_sub_matrix(1, 0);

    assert_eq!(b.determinant(), fx(25.));
    assert_eq!(a.minor(1, 0), fx(25.));
}

#[test]
fn matrix3x3_should_calculate_cofactor() {
    let a = Matrix3x3::create(fxs(&[3., 5., 0., 2., -1., -7., 6., -1., 5.]));

    assert_eq!(a.minor(0, 0), fx(-12.));
    assert_eq!(a.cofactor(0, 0), fx(-12.));
    assert_eq!(a.minor(1, 0), fx(25.));
    assert_eq!(a.cofactor(1, 0), fx(-25.));
}

#[test]
fn matrix3x3_should_calculate_cofactor_and_determinant() {
    let a = Matrix3x3::create(fxs(&[1., 2., 6., -5., 8., -4., 2., 6., 4.]));

    assert_eq!(a.cofactor(0, 0), fx(56.));
    assert_eq!(a.cofactor(0, 1), fx(12.));
    assert_eq!(a.cofactor(0, 2), fx(-46.));
    assert_eq!(a.determinant(), fx(-196.));
}

#[test]
fn matrix4x4_should_calculate_cofactor_and_determinant() {
    let a = Matrix4x4::create(fxs(&[
        -2., -8., 3., 5., -3., 1., 7., 3., 1., 2., -9., 6., -6., 7., 7., -9.,
    ]));

    assert_eq!(a.cofactor(0, 0), fx(690.));
    assert_eq!(a.cofactor(0, 1), fx(447.));
    assert_eq!(a.cofactor(0, 2), fx(210.));
    assert_eq!(a.cofactor(0, 3), fx(51.));
    assert_eq!(a.determinant(), fx(-4071.));
}

#[test]
fn matrix4x4_inversion_should_fail_if_not_possible() {
    let a = Matrix4x4::create(fxs(&[
        -4., 2., -2., -3., 9., 6., 2., 6., 0., -5., 1., -5., 0., 0., 0., 0.,
    ]));

    assert_eq!(a.determinant(), 0);
    assert!(a.invert().is_err());
}

#[test]
fn matrix4x4_inversion_should_work_if_possible() {
    let a = Matrix4x4::create(fxs(&[
        -5., 2., 6., -8., 1., -5., 1., 8., 7., 7., -6., -7., 1., -3., 7., 4.,
    ]));

    let b = a.invert().expect("Failed to invert matrix");

    assert_eq!(a.determinant(), fx(532.));

    assert_eq!(a.cofactor(2, 3), fx(-160.));
    assert!(b.at(3, 2).is_approx(&fx(-160. / 532.)));

    assert_eq!(a.cofactor(3, 2), fx(105.));
    assert!(b.at(2, 3).is_approx(&fx(105. / 532.)));

    let expected = Matrix4x4::create(fxs(&[
        0.21805, 0.45113, 0.24060, -0.04511, -0.80827, -1.45677, -0.44361, 0.52068, -0.07895,
        -0.22368, -0.05263, 0.19737, -0.52256, -0.81391, -0.30075, 0.30639,
    ]));

    assert!(b.is_approx(&expected));
}

#[test]
fn matrix_inversion_results_in_original_matrix() {
    let a = Matrix4x4::create(fxs(&[
        3., -9., 7., 3., 3., -8., 2., -9., -4., 4., 4., 1., -6., 5., -1., 1.,
    ]));

    let b = Matrix4x4::create(fxs(&[
        8., 2., 2., 2., 3., -1., 7., 0., 7., 0., 5., 4., 6., -2., 0., 5.,
    ]));

    let c = a.mul(&b);
    let inverse = b.invert().expect("Failed to invert matrix");

    assert!(c.mul(&inverse).is_approx(&a));
}
