use raytracer::fixed::ApproxEq;
use raytracer::loader::{
    PackedKind, PackedLight, PackedMaterial, PackedObject, PackedScene, PackedTexture,
};
use raytracer::rays::Ray;
use raytracer::vectors::{point, vec3};

/// The fixed-point representation of a real value.
fn fx(v: f64) -> i128 {
    (v * 1e8).round() as i128
}

/// A packed material with nothing filled in.
fn empty_material() -> PackedMaterial {
    PackedMaterial {
        texture: None,
        ambient: None,
        diffuse: None,
        specular: None,
        shininess: None,
        transparency: None,
        reflectivity: None,
        refractivity: None,
    }
}

#[test]
fn packed_scene_builds_lights_and_objects() {
    let packed = PackedScene {
        lights: vec![PackedLight { position: (fx(-10.), fx(10.), fx(-10.)), color: None }],
        objects: vec![
            PackedObject {
                kind: PackedKind::Sphere,
                position: None,
                rotation: None,
                scale: None,
                material: None,
            },
            PackedObject {
                kind: PackedKind::Plane,
                position: Some((0, fx(-1.), 0)),
                rotation: None,
                scale: None,
                material: Some(PackedMaterial {
                    texture: Some(PackedTexture::Checker(
                        (fx(1.), fx(1.), fx(1.)),
                        (0, 0, 0),
                    )),
                    reflectivity: Some(fx(0.5)),
                    ..empty_material()
                }),
            },
        ],
    };

    let scene = packed.build().expect("Failed to build scene");

    assert_eq!(scene.lights.len(), 1);
    assert!(scene.lights[0].position.is_approx(&vec3(fx(-10.), fx(10.), fx(-10.))));
    assert!(scene.lights[0].intensity.is_approx(&raytracer::colors::Color::white()));

    assert_eq!(scene.nodes.len(), 2);
    assert_eq!(scene.nodes[1].material.reflectivity, fx(0.5));

    let ray = Ray::new(point(0, 0, fx(-5.)), vec3(0, 0, fx(1.)));
    let hits = scene.intersect(ray);
    assert_eq!(hits.len(), 2);
    assert!(hits.hits[0].distance.is_approx(&fx(4.)));
    assert!(hits.hits[1].distance.is_approx(&fx(6.)));
}

#[test]
fn packed_object_with_a_flat_scale_is_reported_as_singular() {
    let packed = PackedObject {
        kind: PackedKind::Sphere,
        position: None,
        rotation: None,
        scale: Some((fx(1.), 0, fx(1.))),
        material: None,
    };

    assert!(packed.build().is_err());
}

#[test]
fn packed_material_defaults_match_the_conventional_material() {
    let material = empty_material().build();

    assert_eq!(material.ambient, fx(0.1));
    assert_eq!(material.diffuse, fx(0.9));
    assert_eq!(material.specular, fx(0.9));
    assert_eq!(material.shininess, fx(200.));
    assert_eq!(material.reflectivity, 0);
    assert_eq!(material.transparency, 0);
    assert_eq!(material.refractive_index, fx(1.));
}

#[test]
fn packed_object_composes_position_rotation_and_scale() {
    let packed = PackedObject {
        kind: PackedKind::Sphere,
        position: Some((fx(10.), fx(5.), fx(7.))),
        rotation: None,
        scale: Some((fx(2.), fx(2.), fx(2.))),
        material: None,
    };

    let node = packed.build().expect("Failed to build object");

    let p = node.object_to_world(point(fx(1.), 0, fx(1.)));
    assert!(p.is_approx(&point(fx(12.), fx(5.), fx(9.))));
}
