use raytracer::camera::Camera;
use raytracer::geometry::{HittableList, Sphere};
use raytracer::material::Material;
use raytracer::ray::Ray;
use raytracer::vector::{Dot, Vec3};

fn sqrt(x: f32) -> f32 {
    x.sqrt()
}

fn glass() -> Material<f32> {
    Material::Dielctric { ir: 1.5 }
}

fn ball(z: f32, radius: f32) -> Sphere<f32> {
    Sphere::new(Vec3::new(0.0, 0.0, z), radius, glass())
}

fn along_z() -> Ray<f32> {
    Ray::new(Vec3::new(0.0, 0.0, 0.0), Vec3::new(0.0, 0.0, -1.0))
}

#[test]
fn ray_through_the_centre_hits_at_distance_less_radius() {
    let rec = ball(-5.0, 2.0).hit(&along_z(), 0.001, f32::INFINITY, 0.0, &sqrt).unwrap();
    assert_eq!(rec.t, 3.0);
    assert_eq!((rec.p.x, rec.p.y, rec.p.z), (0.0, 0.0, -3.0));
    assert_eq!((rec.normal.x, rec.normal.y, rec.normal.z), (0.0, 0.0, 1.0));
    assert!(rec.front_face);
    assert!(matches!(rec.material, Some(Material::Dielctric { ir }) if ir == 1.5));
}

#[test]
fn far_root_counts_where_the_near_one_is_excluded() {
    let s = ball(-5.0, 2.0);
    let rec = s.hit(&along_z(), 3.0, f32::INFINITY, 0.0, &sqrt).unwrap();
    assert_eq!(rec.t, 7.0);
    assert!(!rec.front_face);
    assert_eq!((rec.normal.x, rec.normal.y, rec.normal.z), (0.0, 0.0, 1.0));
    assert!(s.hit(&along_z(), 3.0, 7.0, 0.0, &sqrt).is_none());
    assert!(s.hit(&along_z(), 7.0, f32::INFINITY, 0.0, &sqrt).is_none());
    assert!(s.hit(&along_z(), 0.001, 3.0, 0.0, &sqrt).is_none());
}

#[test]
fn ray_from_inside_hits_the_far_side() {
    let rec = ball(0.0, 2.0).hit(&along_z(), 0.001, f32::INFINITY, 0.0, &sqrt).unwrap();
    assert_eq!(rec.t, 2.0);
    assert!(!rec.front_face);
    assert_eq!((rec.normal.x, rec.normal.y, rec.normal.z), (0.0, 0.0, 1.0));
}

#[test]
fn ray_that_passes_by_hits_nothing() {
    let s = Sphere::new(Vec3::new(3.0f32, 0.0, -5.0), 2.0, glass());
    assert!(s.hit(&along_z(), 0.001, f32::INFINITY, 0.0, &sqrt).is_none());
    let behind = ball(5.0, 2.0);
    assert!(behind.hit(&along_z(), 0.001, f32::INFINITY, 0.0, &sqrt).is_none());
}

#[test]
fn square_root_is_not_asked_where_the_ray_passes_by() {
    let asked = std::cell::Cell::new(0u32);
    let counting = |x: f32| {
        asked.set(asked.get() + 1);
        x.sqrt()
    };
    let s = Sphere::new(Vec3::new(3.0f32, 0.0, -5.0), 2.0, glass());
    assert!(s.hit(&along_z(), 0.001, f32::INFINITY, 0.0, &counting).is_none());
    assert_eq!(asked.get(), 0);
    assert!(ball(-5.0, 2.0).hit(&along_z(), 0.001, f32::INFINITY, 0.0, &counting).is_some());
    assert_eq!(asked.get(), 1);
}

#[test]
fn hit_point_lies_on_the_sphere() {
    let s = Sphere::new(Vec3::new(1.0f32, -2.0, -6.0), 1.5, glass());
    let r = Ray::new(Vec3::new(0.0f32, 0.0, 0.0), Vec3::new(0.2, -0.3, -1.0));
    let rec = s.hit(&r, 0.001, f32::INFINITY, 0.0, &sqrt).unwrap();
    let distance = (rec.p - s.center).length(&sqrt);
    assert!((distance - 1.5).abs() < 1e-4);
    assert!(rec.normal.dot(r.direction) <= 0.0);
    let at = r.at(rec.t);
    assert_eq!((at.x, at.y, at.z), (rec.p.x, rec.p.y, rec.p.z));
}

#[test]
fn direction_length_scales_the_parameter() {
    let r = Ray::new(Vec3::new(0.0f32, 0.0, 0.0), Vec3::new(0.0, 0.0, -2.0));
    let rec = ball(-5.0, 1.0).hit(&r, 0.001, f32::INFINITY, 0.0, &sqrt).unwrap();
    assert_eq!(rec.t, 2.0);
    assert_eq!((rec.p.x, rec.p.y, rec.p.z), (0.0, 0.0, -4.0));
}

#[test]
fn hollow_sphere_turns_its_normal_inwards() {
    let rec = ball(-5.0, -2.0).hit(&along_z(), 0.001, f32::INFINITY, 0.0, &sqrt).unwrap();
    assert_eq!(rec.t, 3.0);
    assert!(!rec.front_face);
    assert_eq!((rec.normal.x, rec.normal.y, rec.normal.z), (0.0, 0.0, 1.0));
}

#[test]
fn scene_returns_the_closest_hit() {
    let scene = HittableList::new(vec![
        ball(-20.0, 1.0),
        Sphere::new(Vec3::new(0.0f32, 0.0, -5.0), 2.0, Material::Lambertian { albedo: Vec3::new(0.7, 0.3, 0.3) }),
        Sphere::new(Vec3::new(9.0f32, 0.0, -2.0), 1.0, glass()),
        ball(-10.0, 1.0),
    ]);
    let rec = scene.hit(&along_z(), 0.001, f32::INFINITY, 0.0, &sqrt).unwrap();
    assert_eq!(rec.t, 3.0);
    assert!(matches!(rec.material, Some(Material::Lambertian { albedo }) if albedo.x == 0.7));
    let beyond = scene.hit(&along_z(), 7.0, f32::INFINITY, 0.0, &sqrt).unwrap();
    assert_eq!(beyond.t, 9.0);
    let capped = scene.hit(&along_z(), 7.0, 9.0, 0.0, &sqrt);
    assert!(capped.is_none());
}

#[test]
fn scene_keeps_the_first_of_two_equal_hits() {
    let scene = HittableList::new(vec![
        Sphere::new(Vec3::new(0.0f32, 0.0, -5.0), 2.0, Material::Dielctric { ir: 1.0 }),
        Sphere::new(Vec3::new(0.0f32, 0.0, -5.0), 2.0, Material::Dielctric { ir: 2.0 }),
    ]);
    let rec = scene.hit(&along_z(), 0.001, f32::INFINITY, 0.0, &sqrt).unwrap();
    assert!(matches!(rec.material, Some(Material::Dielctric { ir }) if ir == 1.0));
}

#[test]
fn empty_scene_has_no_hit() {
    let scene: HittableList<f32> = HittableList::new(Vec::new());
    assert!(scene.hit(&along_z(), 0.001, f32::INFINITY, 0.0, &sqrt).is_none());
}

#[test]
fn normalise_gives_length_one() {
    for v in [Vec3::new(3.0f32, 4.0, 0.0), Vec3::new(-1.0, 2.0, -2.0), Vec3::new(1e-3, 0.0, 1e3)] {
        let unit = v.normalise(&sqrt);
        assert!((unit.length(&sqrt) - 1.0).abs() < 1e-6);
    }
    let u = Vec3::new(3.0f32, 4.0, 0.0).normalise(&sqrt);
    assert_eq!((u.x, u.y, u.z), (0.6, 0.8, 0.0));
}

#[test]
fn length_is_the_root_of_the_squares() {
    assert_eq!(Vec3::new(3.0f32, 4.0, 0.0).length(&sqrt), 5.0);
    assert_eq!(Vec3::new(0.0f32, 0.0, 0.0).length(&sqrt), 0.0);
    assert_eq!(Vec3::new(2.0f32, -3.0, 6.0).length(&sqrt), 7.0);
}

#[test]
fn near_zero_needs_every_component_small() {
    assert!(Vec3::new(0.0f32, 0.0, 0.0).near_zero(1e-8));
    assert!(Vec3::new(9e-9f32, -9e-9, 0.0).near_zero(1e-8));
    assert!(!Vec3::new(1e-8f32, 0.0, 0.0).near_zero(1e-8));
    assert!(!Vec3::new(0.0f32, -2e-8, 0.0).near_zero(1e-8));
    assert!(!Vec3::new(0.0f32, 0.0, 1.0).near_zero(1e-8));
    assert!(Vec3::new(1i32, -1, 0).near_zero(2));
    assert!(!Vec3::new(2i32, 0, 0).near_zero(2));
}

#[test]
fn camera_looks_at_the_point() {
    let c = Camera::new(
        Vec3::new(0.0f32, 0.0, 0.0),
        Vec3::new(0.0, 0.0, -3.0),
        Vec3::new(0.0, 5.0, 0.0),
        2.0,
        2.0,
        1.0,
        1.0,
        2.0,
        &sqrt,
    );
    assert_eq!((c.u.x, c.u.y, c.u.z), (1.0, 0.0, 0.0));
    assert_eq!((c.v.x, c.v.y, c.v.z), (0.0, 1.0, 0.0));
    assert_eq!((c.horizontal.x, c.horizontal.y, c.horizontal.z), (4.0, 0.0, 0.0));
    assert_eq!((c.vertical.x, c.vertical.y, c.vertical.z), (0.0, -2.0, 0.0));
    assert_eq!(
        (c.upper_left_corner.x, c.upper_left_corner.y, c.upper_left_corner.z),
        (-2.0, 1.0, -1.0)
    );
    assert_eq!(c.lens_radius, 0.5);
    let r = c.get_ray(0.5, 0.5, Vec3::new(0.0, 0.0, 0.0));
    assert_eq!((r.direction.x, r.direction.y, r.direction.z), (0.0, 0.0, -1.0));
}
