use raytracer::colors::{rgb, Color};
use raytracer::fixed::ApproxEq;
use raytracer::materials::Material;
use raytracer::patterns::{CheckerPattern, GradientPattern, Pattern, RingPattern, StripedPattern};
use raytracer::vectors::point;

/// The fixed-point representation of a real value.
fn fx(v: f64) -> i128 {
    (v * 1e8).round() as i128
}

#[test]
fn material_should_yield_solid_texture() {
    let material = Material::default().with_color(Color::white());

    assert!(material.texture.sample_at(point(0, 0, 0)).is_approx(&Color::white()));
    assert!(material.texture.sample_at(point(fx(1.), 0, 0)).is_approx(&Color::white()));
    assert!(material.texture.sample_at(point(fx(-1.), 0, 0)).is_approx(&Color::white()));
}

#[test]
fn material_should_yield_striped_textures() {
    let material = Material::default()
        .with_pattern(Pattern::Striped(StripedPattern::new(Color::white(), Color::black())));

    assert!(material.texture.sample_at(point(0, 0, 0)).is_approx(&Color::white()));
    assert!(material.texture.sample_at(point(fx(1.), 0, 0)).is_approx(&Color::black()));
    assert!(material.texture.sample_at(point(fx(2.), 0, 0)).is_approx(&Color::white()));
}

#[test]
fn striped_pattern_is_constant_in_y() {
    let pattern = Pattern::Striped(StripedPattern::new(Color::white(), Color::black()));

    assert!(pattern.sample_at(point(0, 0, 0)).is_approx(&Color::white()));
    assert!(pattern.sample_at(point(0, fx(1.), 0)).is_approx(&Color::white()));
    assert!(pattern.sample_at(point(0, fx(2.), 0)).is_approx(&Color::white()));
}

#[test]
fn striped_pattern_is_constant_in_z() {
    let pattern = Pattern::Striped(StripedPattern::new(Color::white(), Color::black()));

    assert!(pattern.sample_at(point(0, 0, 0)).is_approx(&Color::white()));
    assert!(pattern.sample_at(point(0, 0, fx(1.))).is_approx(&Color::white()));
    assert!(pattern.sample_at(point(0, 0, fx(2.))).is_approx(&Color::white()));
}

#[test]
fn striped_pattern_alternates_in_x() {
    let pattern = Pattern::Striped(StripedPattern::new(Color::white(), Color::black()));

    assert!(pattern.sample_at(point(0, 0, 0)).is_approx(&Color::white()));
    assert!(pattern.sample_at(point(fx(0.9), 0, 0)).is_approx(&Color::white()));
    assert!(pattern.sample_at(point(fx(1.), 0, 0)).is_approx(&Color::black()));
    assert!(pattern.sample_at(point(fx(-0.1), 0, 0)).is_approx(&Color::black()));
    assert!(pattern.sample_at(point(fx(-1.), 0, 0)).is_approx(&Color::black()));
    assert!(pattern.sample_at(point(fx(-1.1), 0, 0)).is_approx(&Color::white()));
}

#[test]
fn gradient_pattern_linearly_interpolates_between_colors() {
    let pattern = Pattern::Gradient(GradientPattern::new(Color::white(), Color::black()));

    assert!(pattern.sample_at(point(0, 0, 0)).is_approx(&Color::white()));
    assert!(pattern.sample_at(point(fx(0.25), 0, 0)).is_approx(&rgb(fx(0.75), fx(0.75), fx(0.75))));
    assert!(pattern.sample_at(point(fx(0.5), 0, 0)).is_approx(&rgb(fx(0.5), fx(0.5), fx(0.5))));
    assert!(pattern.sample_at(point(fx(0.75), 0, 0)).is_approx(&rgb(fx(0.25), fx(0.25), fx(0.25))));
}

#[test]
fn ring_pattern_should_extend_in_both_x_and_z() {
    let pattern = Pattern::Ring(RingPattern::new(Color::white(), Color::black()));

    assert!(pattern.sample_at(point(0, 0, 0)).is_approx(&Color::white()));
    assert!(pattern.sample_at(point(fx(1.), 0, 0)).is_approx(&Color::black()));
    assert!(pattern.sample_at(point(0, 0, fx(1.))).is_approx(&Color::black()));
    assert!(pattern.sample_at(point(fx(0.708), 0, fx(1.))).is_approx(&Color::black()));
}

#[test]
fn checker_pattern_should_repeat_in_x() {
    let pattern = Pattern::Checker(CheckerPattern::new(Color::white(), Color::black()));

    assert!(pattern.sample_at(point(0, 0, 0)).is_approx(&Color::white()));
    assert!(pattern.sample_at(point(0, fx(0.99), 0)).is_approx(&Color::white()));
    assert!(pattern.sample_at(point(0, fx(1.01), 0)).is_approx(&Color::black()));
}

#[test]
fn checker_pattern_should_repeat_in_z() {
    let pattern = Pattern::Checker(CheckerPattern::new(Color::white(), Color::black()));

    assert!(pattern.sample_at(point(0, 0, 0)).is_approx(&Color::white()));
    assert!(pattern.sample_at(point(0, 0, fx(0.99))).is_approx(&Color::white()));
    assert!(pattern.sample_at(point(0, 0, fx(1.01))).is_approx(&Color::black()));
}

#[test]
fn transformed_pattern_samples_through_its_inverse() {
    let inner = Pattern::Striped(StripedPattern::new(Color::white(), Color::black()));
    let pattern = Pattern::Transformed(
        Box::new(inner),
        raytracer::matrices::Matrix4x4::scale(fx(2.), fx(2.), fx(2.)),
    );

    assert!(pattern.sample_at(point(fx(1.), 0, 0)).is_approx(&Color::white()));
    assert!(pattern.sample_at(point(fx(2.), 0, 0)).is_approx(&Color::black()));
}

#[test]
fn default_material_has_the_conventional_coefficients() {
    let material = Material::default();

    assert_eq!(material.ambient, fx(0.1));
    assert_eq!(material.diffuse, fx(0.9));
    assert_eq!(material.specular, fx(0.9));
    assert_eq!(material.shininess, fx(200.));
    assert_eq!(material.reflectivity, 0);
    assert_eq!(material.transparency, 0);
    assert_eq!(material.refractive_index, fx(1.));
}
