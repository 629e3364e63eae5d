use raytracer::colors::{rgb, Color};
use raytracer::fixed::ApproxEq;
use raytracer::lighting::{LightingData, PointLight};
use raytracer::materials::Material;
use raytracer::matrices::Matrix4x4;
use raytracer::rays::Ray;
use raytracer::scene::{Hit, HitList, Scene, MAX_DEPTH};
use raytracer::shapes::{Plane, Sphere};
use raytracer::vectors::{point, vec3};

/// The fixed-point representation of a real value.
fn fx(v: f64) -> i128 {
    (v * 1e8).round() as i128
}

#[test]
fn hit_list_should_return_closest_hit() {
    let mut set = HitList::new();

    set.push(0, fx(1.));
    set.push(0, fx(2.));

    assert_eq!(set.closest_hit().unwrap().distance, fx(1.));
}

#[test]
fn hit_list_should_ignore_negative_t() {
    let mut set = HitList::new();

    set.push(0, fx(-1.));
    set.push(0, fx(1.));

    assert_eq!(set.closest_hit().unwrap().distance, fx(1.));
}

#[test]
fn hit_list_should_return_nothing_when_all_negative() {
    let mut set = HitList::new();

    set.push(0, fx(-2.));
    set.push(0, fx(-1.));

    assert!(set.closest_hit().is_none());
}

#[test]
fn hit_list_should_always_return_lowest_non_negative_hit() {
    let mut set = HitList::new();

    set.push(0, fx(5.));
    set.push(0, fx(7.));
    set.push(0, fx(-3.));
    set.push(0, fx(2.));

    assert_eq!(set.closest_hit().unwrap().distance, fx(2.));
}

#[test]
fn intersect_scene_with_ray_should_return_all_intersections() {
    let scene = create_test_scene();
    let ray = Ray::new(point(0, 0, fx(-5.)), vec3(0, 0, fx(1.)));

    let set = scene.intersect(ray);

    assert_eq!(set.len(), 4);
    assert!(set.hits[0].distance.is_approx(&fx(4.)));
    assert!(set.hits[1].distance.is_approx(&fx(4.5)));
    assert!(set.hits[2].distance.is_approx(&fx(5.5)));
    assert!(set.hits[3].distance.is_approx(&fx(6.)));
}

#[test]
fn apply_lighting_to_an_intersection_from_outside() {
    let scene = create_test_scene();

    let ray = Ray::new(point(0, 0, fx(-5.)), vec3(0, 0, fx(1.)));

    let hit = Hit::new(0, fx(4.));
    let hits = HitList::from(vec![hit]);

    let color = scene.apply_lighting(ray, &hits.hits[0], &hits, 0);

    assert!(color.is_approx(&rgb(fx(0.38012764), fx(0.47515953), fx(0.28509575))));
}

#[test]
fn apply_lighting_to_an_intersection_from_inside() {
    let mut scene = create_test_scene();

    scene.lights[0] = PointLight::new(point(0, fx(0.25), 0), rgb(fx(1.), fx(1.), fx(1.)));

    let ray = Ray::new(point(0, 0, 0), vec3(0, 0, fx(1.)));

    let hit = Hit::new(1, fx(0.5));
    let hits = HitList::from(vec![hit]);

    let color = scene.apply_lighting(ray, &hits.hits[0], &hits, 0);

    assert!(color.is_approx(&rgb(fx(0.904952), fx(0.904952), fx(0.904952))));
}

#[test]
fn background_color_is_used_when_ray_misses() {
    let mut scene = create_test_scene();
    let ray = Ray::new(point(0, 0, fx(-5.)), vec3(0, fx(1.), 0));

    scene.ambient_color = Color::red();

    let color = scene.trace(ray);

    assert!(color.is_approx(&Color::red()));
}

#[test]
fn color_of_material_is_used_when_ray_hits() {
    let scene = create_test_scene();
    let ray = Ray::new(point(0, 0, fx(-5.)), vec3(0, 0, fx(1.)));

    let color = scene.trace(ray);

    assert!(color.is_approx(&rgb(fx(0.38012764), fx(0.47515953), fx(0.28509575))));
}

#[test]
fn there_is_no_shadow_when_nothing_is_colinear_with_point_and_light() {
    let scene = create_test_scene();
    let point = point(0, fx(10.), fx(10.));

    assert!(!scene.is_shadowed(point));
}

#[test]
fn the_shadow_when_an_object_is_between_the_point_and_the_light() {
    let scene = create_test_scene();
    let point = point(fx(10.), fx(-10.), fx(10.));

    assert!(scene.is_shadowed(point));
}

#[test]
fn there_is_no_shadow_when_an_object_is_behind_the_light() {
    let scene = create_test_scene();
    let point = point(fx(-20.), fx(20.), fx(-20.));

    assert!(!scene.is_shadowed(point));
}

#[test]
fn there_is_no_shadow_when_an_object_is_behind_the_point() {
    let scene = create_test_scene();
    let point = point(fx(-2.), fx(2.), fx(-2.));

    assert!(!scene.is_shadowed(point));
}

#[test]
fn apply_lighting_is_given_an_intersection_in_shadow() {
    let mut scene = Scene::new();

    scene.add_light(PointLight::new(point(0, 0, fx(-10.)), rgb(fx(1.), fx(1.), fx(1.))));
    scene.add_object(Sphere::new());
    scene.add_object(Sphere::new().with_transform(Matrix4x4::translate(0, 0, fx(10.))).unwrap());

    let ray = Ray::new(point(0, 0, fx(5.)), vec3(0, 0, fx(1.)));

    let hit = Hit::new(1, fx(4.));
    let hits = HitList::from(vec![hit]);

    let color = scene.apply_lighting(ray, &hits.hits[0], &hits, 0);

    assert!(color.is_approx(&rgb(fx(0.1), fx(0.1), fx(0.1))));
}

#[test]
fn reflected_color_for_non_reflective_material() {
    let scene = create_test_scene();
    let ray = Ray::new(point(0, 0, 0), vec3(0, 0, fx(1.)));

    let hit = Hit::new(1, fx(-1.));
    let hits = HitList::from(vec![hit]);

    let lighting_data = LightingData::calculate(&scene, &ray, &hits.hits[0], &hits);

    let color = scene.reflected_color(&lighting_data, 0);

    assert_eq!(color, Color::black());
}

#[test]
fn reflected_color_for_reflective_material() {
    let mut scene = create_test_scene();

    scene.add_object(
        Plane::new(vec3(0, fx(1.), 0))
            .with_material(Material::default().with_reflective(fx(0.5)))
            .with_transform(Matrix4x4::translate(0, fx(-1.), 0))
            .unwrap(),
    );

    let half = fx(2f64.sqrt() / 2.);
    let ray = Ray::new(point(0, 0, fx(-3.)), vec3(0, -half, half));

    let hit = Hit::new(2, fx(2f64.sqrt()));
    let hits = HitList::from(vec![hit]);

    let lighting_data = LightingData::calculate(&scene, &ray, &hits.hits[0], &hits);

    let color = scene.reflected_color(&lighting_data, 0);

    assert!(color.is_approx(&rgb(fx(0.19007981), fx(0.23759975), fx(0.14255986))));
}

#[test]
fn reflected_color_at_the_recursion_bound_is_the_scaled_background() {
    let mut scene = create_test_scene();
    scene.ambient_color = Color::red();

    scene.add_object(
        Plane::new(vec3(0, fx(1.), 0))
            .with_material(Material::default().with_reflective(fx(0.5)))
            .with_transform(Matrix4x4::translate(0, fx(-1.), 0))
            .unwrap(),
    );

    let half = fx(2f64.sqrt() / 2.);
    let ray = Ray::new(point(0, 0, fx(-3.)), vec3(0, -half, half));

    let hit = Hit::new(2, fx(2f64.sqrt()));
    let hits = HitList::from(vec![hit]);

    let lighting_data = LightingData::calculate(&scene, &ray, &hits.hits[0], &hits);

    // At the bound the recursive trace would return only the background,
    // so the contribution is exactly the background times the
    // reflectivity.
    let color = scene.reflected_color(&lighting_data, MAX_DEPTH);

    assert_eq!(color, rgb(fx(0.5), 0, 0));
}

#[test]
fn refracted_color_for_refractive_material() {
    let scene = create_test_scene();

    let ray = Ray::new(point(0, 0, fx(-5.)), vec3(0, 0, fx(1.)));

    let mut hits = HitList::new();
    hits.push(0, fx(4.));
    hits.push(0, fx(6.));

    let lighting_data = LightingData::calculate(&scene, &ray, &hits.hits[0], &hits);

    let color = scene.refracted_color(&lighting_data, 5);

    assert_eq!(color, Color::black());
}

#[test]
fn refracted_color_for_refractive_material_at_max_depth() {
    let mut scene = create_test_scene();

    scene.add_object(
        Sphere::new().with_material(
            Material::default().with_transparency(fx(1.)).with_refractive_index(fx(1.5)),
        ),
    );

    let ray = Ray::new(point(0, 0, fx(-5.)), vec3(0, 0, fx(1.)));
    let mut hits = HitList::new();

    hits.push(2, fx(4.));
    hits.push(2, fx(6.));

    let lighting_data = LightingData::calculate(&scene, &ray, &hits.hits[0], &hits);

    let color = scene.refracted_color(&lighting_data, MAX_DEPTH);

    assert_eq!(color, Color::black());
}

#[test]
fn refracted_color_for_refractive_material_under_total_internal_reflection() {
    let mut scene = create_test_scene();

    scene.add_object(
        Sphere::new().with_material(
            Material::default().with_transparency(fx(1.)).with_refractive_index(fx(1.5)),
        ),
    );

    let half = fx(2f64.sqrt() / 2.);
    let ray = Ray::new(point(0, 0, half), vec3(0, fx(1.), 0));
    let mut hits = HitList::new();

    hits.push(2, -half);
    hits.push(2, half);

    let lighting_data = LightingData::calculate(&scene, &ray, &hits.hits[1], &hits);

    let color = scene.refracted_color(&lighting_data, 5);

    assert_eq!(color, Color::black());
}

#[test]
fn refracted_color_follows_snells_law_through_a_glass_boundary() {
    let mut scene = Scene::new();
    scene.ambient_color = Color::blue();
    scene.add_light(PointLight::new(point(0, fx(10.), 0), Color::white()));

    // A fully transparent boundary with a higher refractive index: the
    // refracted ray must bend toward the normal, away from the straight
    // continuation, and reach the marker sphere placed on the bent path.
    scene.add_object(
        Plane::new(vec3(0, fx(1.), 0)).with_material(
            Material::default()
                .with_ambient(0)
                .with_diffuse(0)
                .with_specular(0)
                .with_transparency(fx(1.))
                .with_refractive_index(fx(1.5)),
        ),
    );
    scene.add_object(
        Sphere::new()
            .with_material(
                Material::default()
                    .with_color(Color::red())
                    .with_ambient(fx(1.))
                    .with_diffuse(0)
                    .with_specular(0),
            )
            .with_transform(Matrix4x4::translate(0, fx(-4.), fx(2.138)))
            .unwrap(),
    );

    let half = fx(2f64.sqrt() / 2.);
    let ray = Ray::new(point(0, fx(1.), fx(-1.)), vec3(0, -half, half));

    let color = scene.trace(ray);

    // The background contributes once at each of the two hits, and the
    // marker's ambient red once; every term is exact in fixed point.
    assert_eq!(color, rgb(fx(1.), 0, fx(2.)));
}

#[test]
fn refracted_color_is_black_at_the_total_internal_reflection_boundary() {
    let mut scene = Scene::new();
    scene.ambient_color = Color::red();
    scene.add_object(
        Sphere::new().with_material(
            Material::default().with_transparency(fx(1.)).with_refractive_index(fx(1.5)),
        ),
    );

    // A grazing context: the eye is perpendicular to the normal and the
    // indices match, so the squared sine of the refraction angle is
    // exactly one — the boundary of total internal reflection.
    let lighting_data = LightingData {
        object: 0,
        world_position: point(fx(1.), 0, 0),
        over_position: point(fx(1.0001), 0, 0),
        under_position: point(fx(0.9999), 0, 0),
        object_position: point(fx(1.), 0, 0),
        eye: vec3(0, 0, fx(-1.)),
        normal: vec3(fx(1.), 0, 0),
        reflect_direction: vec3(0, 0, fx(1.)),
        distance: fx(5.),
        inside: false,
        n1: fx(1.5),
        n2: fx(1.5),
    };

    let color = scene.refracted_color(&lighting_data, 0);

    assert_eq!(color, Color::black());
}

/// Creates a default scene with two spheres and a single light source.
fn create_test_scene() -> Scene {
    let mut scene = Scene::new();

    scene.add_light(PointLight::new(vec3(fx(-10.), fx(10.), fx(-10.)), Color::white()));

    scene.add_object(
        Sphere::new().with_material(
            Material::default()
                .with_color(rgb(fx(0.8), fx(1.), fx(0.6)))
                .with_diffuse(fx(0.7))
                .with_specular(fx(0.2)),
        ),
    );

    scene.add_object(
        Sphere::new().with_transform(Matrix4x4::scale(fx(0.5), fx(0.5), fx(0.5))).unwrap(),
    );

    scene
}
