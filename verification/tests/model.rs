//! Tests of the scene model, its equality, the change detection and the
//! trace decisions.

use ray_tracer::connection::Connection;
use ray_tracer::mat44::Axis;
use ray_tracer::objects::{Geometry, Light, Material, Object};
use ray_tracer::scene::Scene;
use ray_tracer::trace::{pixel_coords, should_reflect};
use ray_tracer::vec3::Vec3;

fn v(x: f32, y: f32, z: f32) -> Vec3 {
    Vec3::new(x.to_bits(), y.to_bits(), z.to_bits())
}

fn fru() -> (Vec3, Vec3, Vec3) {
    (v(0.0, 0.0, 1.0), v(1.0, 0.0, 0.0), v(0.0, 1.0, 0.0))
}

#[test]
fn float_bit_constants_match_their_values() {
    assert_eq!(ray_tracer::objects::F32_ZERO, 0.0f32.to_bits());
    assert_eq!(ray_tracer::objects::F32_HALF, 0.5f32.to_bits());
    assert_eq!(ray_tracer::objects::F32_ONE, 1.0f32.to_bits());
    assert_eq!(ray_tracer::scene::F32_POINT_TWO, 0.2f32.to_bits());
    assert_eq!(ray_tracer::scene::F32_POINT_EIGHT, 0.8f32.to_bits());
    assert_eq!(ray_tracer::scene::F32_TWO, 2.0f32.to_bits());
    assert_eq!(ray_tracer::scene::F32_MINUS_FIVE, (-5.0f32).to_bits());
    assert_eq!(ray_tracer::scene::F32_SEVENTY, 70.0f32.to_bits());
}

#[test]
fn default_material_is_red_and_half_metallic() {
    let m = Material::default();
    assert_eq!(m.colour, v(1.0, 0.0, 0.0));
    assert_eq!(m.emission, v(0.0, 0.0, 0.0));
    assert_eq!(m.emission_strength, 0.0f32.to_bits());
    assert_eq!(m.metallic, 0.5f32.to_bits());
    assert_eq!(m.roughness, 0.5f32.to_bits());
}

#[test]
fn default_geometries() {
    assert_eq!(
        Geometry::default_sphere(),
        Geometry::Sphere { center: v(0.0, 0.0, 0.0), radius: 1.0f32.to_bits() }
    );
    assert_eq!(
        Geometry::default_plane(),
        Geometry::Plane {
            center: v(0.0, 0.0, 0.0),
            normal: v(0.0, 1.0, 0.0),
            size: 1.0f32.to_bits(),
        }
    );
}

#[test]
fn default_objects_carry_their_names() {
    let s = Object::default_sphere();
    assert_eq!(s.name, "sphere");
    assert_eq!(s.geometry, Geometry::default_sphere());
    let p = Object::default_plane();
    assert_eq!(p.name, "plane");
    assert_eq!(p.geometry, Geometry::default_plane());
}

#[test]
fn geometry_position_reads_either_variant() {
    let mut g = Geometry::Sphere { center: v(1.0, 2.0, 3.0), radius: 1.0f32.to_bits() };
    assert_eq!(*g.position(), v(1.0, 2.0, 3.0));
    *g.position_as_mut() = v(4.0, 5.0, 6.0);
    assert_eq!(g, Geometry::Sphere { center: v(4.0, 5.0, 6.0), radius: 1.0f32.to_bits() });

    let mut g = Geometry::Plane {
        center: v(1.0, 2.0, 3.0),
        normal: v(0.0, 1.0, 0.0),
        size: 2.0f32.to_bits(),
    };
    *g.position_as_mut() = v(7.0, 8.0, 9.0);
    assert_eq!(*g.position(), v(7.0, 8.0, 9.0));
}

#[test]
fn simple_scene_is_the_red_sphere_under_a_light() {
    let s = Scene::simple();
    assert_eq!(s.objects.len(), 1);
    assert_eq!(s.objects[0].name, "Sphere");
    assert_eq!(s.objects[0].material.colour, v(1.0, 0.0, 0.0));
    assert_eq!(s.objects[0].material.metallic, 1.0f32.to_bits());
    assert_eq!(
        s.objects[0].geometry,
        Geometry::Sphere { center: v(0.0, 0.0, 0.0), radius: 1.0f32.to_bits() }
    );
    assert_eq!(
        s.lights,
        vec![Light::Point { intensity: v(1.0, 1.0, 1.0), position: v(0.0, 2.0, 0.0) }]
    );
    assert_eq!(s.camera.position, v(0.0, 0.0, -5.0));
    assert_eq!(s.camera.fov, 70.0f32.to_bits());
    assert_eq!(s.background_colour, v(0.5, 0.8, 1.0));
    assert_eq!(s.ambient_light, v(0.2, 0.2, 0.2));
    assert_eq!(s.reflection_limit, 4);
    assert!(!s.do_objects_spin);
}

#[test]
fn scene_equality_sees_every_field() {
    let a = Scene::simple();
    let b = a.clone();
    assert!(a == b);

    let mut c = a.clone();
    c.reflection_limit += 1;
    assert!(a != c);

    let mut c = a.clone();
    c.do_objects_spin = true;
    assert!(a != c);

    let mut c = a.clone();
    c.objects[0].material.metallic = 0.25f32.to_bits();
    assert!(a != c);

    let mut c = a.clone();
    c.objects.push(Object::default_plane());
    assert!(a != c);

    let mut c = a.clone();
    c.lights[0] = Light::Direction {
        intensity: v(1.0, 1.0, 1.0),
        direction: v(0.0, -1.0, 0.0),
    };
    assert!(a != c);

    let mut c = a.clone();
    c.camera.fov = 60.0f32.to_bits();
    assert!(a != c);
}

#[test]
fn unchanged_scene_accumulates_one_per_frame() {
    let scene = Scene::simple();
    let mut conn = Connection::new(&scene);
    let first = conn.update_buffers((64, 64), &scene, fru(), (0, 0));
    assert!(first.is_some());
    assert_eq!(conn.frame_data.progressive_count, 0);

    let second = conn.update_buffers((64, 64), &scene, fru(), (0, 0));
    assert!(second.is_none());
    assert_eq!(conn.frame_data.progressive_count, 1);

    let third = conn.update_buffers((64, 64), &scene, fru(), (0, 0));
    assert!(third.is_none());
    assert_eq!(conn.frame_data.progressive_count, 2);
}

#[test]
fn changed_scene_resets_the_counter() {
    let mut scene = Scene::simple();
    let mut conn = Connection::new(&scene);
    conn.update_buffers((64, 64), &scene, fru(), (0, 0));
    conn.update_buffers((64, 64), &scene, fru(), (0, 0));
    assert_eq!(conn.frame_data.progressive_count, 1);

    scene.reflection_limit = 7;
    let r = conn.update_buffers((64, 64), &scene, fru(), (0, 0));
    assert!(r.is_some());
    assert_eq!(conn.frame_data.progressive_count, 0);
}

#[test]
fn resized_output_re_encodes() {
    let scene = Scene::simple();
    let mut conn = Connection::new(&scene);
    conn.update_buffers((64, 64), &scene, fru(), (0, 0));
    let r = conn.update_buffers((128, 64), &scene, fru(), (0, 0));
    assert!(r.is_some());
    let (_, _, config) = r.unwrap();
    assert_eq!(&config[100..104], &128u32.to_le_bytes());
}

#[test]
fn jitter_is_replaced_every_frame() {
    let scene = Scene::simple();
    let mut conn = Connection::new(&scene);
    conn.update_buffers((64, 64), &scene, fru(), (11, 22));
    assert_eq!(conn.frame_data.jitter_x, 11);
    assert_eq!(conn.frame_data.jitter_y, 22);
    conn.update_buffers((64, 64), &scene, fru(), (33, 44));
    assert_eq!(conn.frame_data.jitter_x, 33);
    assert_eq!(conn.frame_data.jitter_y, 44);
}

#[test]
fn zero_reflection_limit_never_recurses() {
    // Whatever the metallic factor, a bounce limit of zero stops the trace
    // at depth zero.
    assert!(!should_reflect(true, 0, 0));
    assert!(!should_reflect(false, 0, 0));
    assert!(should_reflect(true, 0, 1));
    assert!(!should_reflect(true, 1, 1));
    assert!(!should_reflect(false, 0, 1));
}

#[test]
fn pixel_coords_walk_rows_first() {
    assert_eq!(pixel_coords(0, 16), (0, 0));
    assert_eq!(pixel_coords(35, 16), (3, 2));
    assert_eq!(pixel_coords(255, 16), (15, 15));
}

#[test]
fn axis_is_plain_data() {
    let a = Axis::X;
    assert!(matches!(a, Axis::X));
    assert_ne!(Axis::Y, Axis::Z);
}
