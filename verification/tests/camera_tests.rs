use raytracer::camera::Camera;
use raytracer::geometry::{Quadratic, Sphere};
use raytracer::material::Material;
use raytracer::ray::Ray;
use raytracer::vector::Vec3;

fn looking_down_z() -> Camera<f32> {
    Camera::from_frame(
        Vec3::new(0.0f32, 0.0, 0.0),
        Vec3::new(0.0, 0.0, 1.0),
        Vec3::new(1.0, 0.0, 0.0),
        2.0,
        2.0,
        0.0,
        1.0,
        2.0,
    )
}

#[test]
fn from_frame_works_out_the_plane() {
    let c = looking_down_z();
    assert_eq!((c.v.x, c.v.y, c.v.z), (0.0, 1.0, 0.0));
    assert_eq!((c.horizontal.x, c.horizontal.y, c.horizontal.z), (4.0, 0.0, 0.0));
    assert_eq!((c.vertical.x, c.vertical.y, c.vertical.z), (0.0, -2.0, 0.0));
    assert_eq!(
        (c.upper_left_corner.x, c.upper_left_corner.y, c.upper_left_corner.z),
        (-2.0, 1.0, -1.0)
    );
    assert_eq!(c.lens_radius, 0.0);
    assert_eq!((c.origin.x, c.origin.y, c.origin.z), (0.0, 0.0, 0.0));
}

#[test]
fn from_frame_scales_with_the_focus_distance() {
    let c = Camera::from_frame(
        Vec3::new(1.0f32, 1.0, 1.0),
        Vec3::new(0.0, 0.0, 1.0),
        Vec3::new(1.0, 0.0, 0.0),
        2.0,
        1.5,
        1.0,
        4.0,
        2.0,
    );
    assert_eq!((c.horizontal.x, c.horizontal.y, c.horizontal.z), (12.0, 0.0, 0.0));
    assert_eq!((c.vertical.x, c.vertical.y, c.vertical.z), (0.0, -8.0, 0.0));
    assert_eq!(
        (c.upper_left_corner.x, c.upper_left_corner.y, c.upper_left_corner.z),
        (-5.0, 5.0, -3.0)
    );
    assert_eq!(c.lens_radius, 0.5);
}

#[test]
fn get_ray_through_the_middle_looks_along_the_axis() {
    let c = looking_down_z();
    let r = c.get_ray(0.5, 0.5, Vec3::new(0.3, -0.4, 0.0));
    assert_eq!((r.origin.x, r.origin.y, r.origin.z), (0.0, 0.0, 0.0));
    assert_eq!((r.direction.x, r.direction.y, r.direction.z), (0.0, 0.0, -1.0));
}

#[test]
fn get_ray_through_the_corners() {
    let c = looking_down_z();
    let top_left = c.get_ray(0.0, 0.0, Vec3::new(0.0, 0.0, 0.0));
    assert_eq!(
        (top_left.direction.x, top_left.direction.y, top_left.direction.z),
        (-2.0, 1.0, -1.0)
    );
    let bottom_right = c.get_ray(1.0, 1.0, Vec3::new(0.0, 0.0, 0.0));
    assert_eq!(
        (bottom_right.direction.x, bottom_right.direction.y, bottom_right.direction.z),
        (2.0, -1.0, -1.0)
    );
}

#[test]
fn get_ray_starts_on_the_lens() {
    let mut c = looking_down_z();
    c.lens_radius = 2.0;
    let r = c.get_ray(0.5, 0.5, Vec3::new(0.5, -0.25, 0.0));
    assert_eq!((r.origin.x, r.origin.y, r.origin.z), (1.0, -0.5, 0.0));
    assert_eq!((r.direction.x, r.direction.y, r.direction.z), (-1.0, 0.5, -1.0));
}

#[test]
fn quadratic_of_a_ray_through_the_centre() {
    let s = Sphere::new(Vec3::new(0.0f32, 0.0, -5.0), 2.0, Material::Dielctric { ir: 1.5 });
    let r = Ray::new(Vec3::new(0.0f32, 0.0, 0.0), Vec3::new(0.0, 0.0, -1.0));
    let q = s.quadratic(&r);
    assert_eq!((q.a, q.half_b, q.c), (1.0, -5.0, 21.0));
    assert_eq!(q.discriminant(), 4.0);
    let root = q.discriminant().sqrt();
    assert_eq!(((-q.half_b - root) / q.a, (-q.half_b + root) / q.a), (3.0, 7.0));
}

#[test]
fn quadratic_of_a_ray_that_passes_by() {
    let s = Sphere::new(Vec3::new(0i64, 0, -5), 2, Material::Dielctric { ir: 1 });
    let r = Ray::new(Vec3::new(3i64, 0, 0), Vec3::new(0, 0, -1));
    let q = s.quadratic(&r);
    assert_eq!((q.a, q.half_b, q.c), (1, -5, 30));
    assert_eq!(q.discriminant(), -5);
    let grazing = Ray::new(Vec3::new(2i64, 0, 0), Vec3::new(0, 0, -1));
    assert_eq!(s.quadratic(&grazing).discriminant(), 0);
}

#[test]
fn discriminant_of_given_coefficients() {
    assert_eq!(Quadratic { a: 2i32, half_b: 3, c: 4 }.discriminant(), 1);
    assert_eq!(Quadratic { a: 1.0f32, half_b: 0.5, c: 1.0 }.discriminant(), -0.75);
}

#[test]
fn root_lies_on_the_sphere() {
    let s = Sphere::new(Vec3::new(1i64, 2, -5), 3, Material::Dielctric { ir: 1 });
    let r = Ray::new(Vec3::new(1i64, 2, 0), Vec3::new(0, 0, -1));
    let q = s.quadratic(&r);
    for t in [2i64, 8] {
        assert_eq!(q.a * t * t + 2 * q.half_b * t + q.c, 0);
        assert_eq!((r.at(t) - s.center).length_squared(), 9);
    }
}

#[test]
fn outward_normal_points_away_from_the_centre() {
    let s = Sphere::new(Vec3::new(0.0f32, 0.0, -1.0), 0.5, Material::Dielctric { ir: 1.5 });
    let n = s.outward_normal(Vec3::new(0.0, 0.0, -0.5));
    assert_eq!((n.x, n.y, n.z), (0.0, 0.0, 1.0));
    let hollow = Sphere::new(Vec3::new(0.0f32, 0.0, -1.0), -0.5, Material::Dielctric { ir: 1.5 });
    let inward = hollow.outward_normal(Vec3::new(0.0, 0.0, -0.5));
    assert_eq!((inward.x, inward.y, inward.z), (-0.0, -0.0, -1.0));
}
