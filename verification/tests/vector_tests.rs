use raytracer::color::Color;
use raytracer::ray::Ray;
use raytracer::vector::{Dot, Vec3};

#[test]
fn new_keeps_components() {
    let v = Vec3::new(1.5f32, -2.0, 0.25);
    assert_eq!((v.x, v.y, v.z), (1.5, -2.0, 0.25));
}

#[test]
fn add_is_componentwise() {
    let s = Vec3::new(1i32, 2, 3) + Vec3::new(10, 20, 30);
    assert_eq!((s.x, s.y, s.z), (11, 22, 33));
    let f = Vec3::new(0.5f32, 1.0, -1.0) + Vec3::new(0.25, 1.0, 1.0);
    assert_eq!((f.x, f.y, f.z), (0.75, 2.0, 0.0));
}

#[test]
fn sub_is_componentwise() {
    let s = Vec3::new(1i64, 2, 3) - Vec3::new(10, 20, 30);
    assert_eq!((s.x, s.y, s.z), (-9, -18, -27));
}

#[test]
fn neg_flips_every_component() {
    let n = -Vec3::new(1i32, -2, 0);
    assert_eq!((n.x, n.y, n.z), (-1, 2, 0));
    let f = -Vec3::new(1.0f32, -2.0, 3.0);
    assert_eq!((f.x, f.y, f.z), (-1.0, 2.0, -3.0));
}

#[test]
fn mul_scales_by_a_scalar() {
    let m = Vec3::new(1i32, -2, 3) * 4;
    assert_eq!((m.x, m.y, m.z), (4, -8, 12));
    let f = Vec3::new(1.0f32, 2.0, 3.0) * 0.5;
    assert_eq!((f.x, f.y, f.z), (0.5, 1.0, 1.5));
}

#[test]
fn div_divides_by_a_scalar() {
    let d = Vec3::new(9i32, -8, 7) / 2;
    assert_eq!((d.x, d.y, d.z), (4, -4, 3));
    let f = Vec3::new(1.0f32, 2.0, 3.0) / 2.0;
    assert_eq!((f.x, f.y, f.z), (0.5, 1.0, 1.5));
}

#[test]
fn rem_takes_the_remainder_by_a_scalar() {
    let r = Vec3::new(9u8, 8, 7) % 4;
    assert_eq!((r.x, r.y, r.z), (1, 0, 3));
}

#[test]
fn dot_sums_the_products() {
    assert_eq!(Vec3::new(1i32, 2, 3).dot(Vec3::new(4, -5, 6)), 12);
    assert_eq!(Vec3::new(1.0f32, 0.0, 0.0).dot(Vec3::new(0.0, 1.0, 0.0)), 0.0);
}

#[test]
fn cross_of_the_axes() {
    let z = Vec3::new(1i32, 0, 0).cross(Vec3::new(0, 1, 0));
    assert_eq!((z.x, z.y, z.z), (0, 0, 1));
    let c = Vec3::new(1.0f32, 2.0, 3.0).cross(Vec3::new(4.0, 5.0, 6.0));
    assert_eq!((c.x, c.y, c.z), (-3.0, 6.0, -3.0));
}

#[test]
fn length_squared_sums_the_squares() {
    assert_eq!(Vec3::new(1i32, 2, 3).length_squared(), 14);
    assert_eq!(Vec3::new(3.0f32, 4.0, 0.0).length_squared(), 25.0);
    assert_eq!(Vec3::new(0i32, 0, 0).length_squared(), 0);
}

#[test]
fn ray_at_moves_along_the_direction() {
    let r = Ray::new(Vec3::new(1.0f32, 2.0, 3.0), Vec3::new(0.0, 0.0, -2.0));
    let p = r.at(1.5);
    assert_eq!((p.x, p.y, p.z), (1.0, 2.0, 0.0));
    let o = r.at(0.0);
    assert_eq!((o.x, o.y, o.z), (1.0, 2.0, 3.0));
    let i = Ray::new(Vec3::new(1i32, 1, 1), Vec3::new(2, 0, -1)).at(3);
    assert_eq!((i.x, i.y, i.z), (7, 1, -2));
}

#[test]
fn ray_direction_is_not_normalised() {
    let r = Ray::new(Vec3::new(0.0f32, 0.0, 0.0), Vec3::new(0.0, 3.0, 4.0));
    assert_eq!(r.direction.length_squared(), 25.0);
}

#[test]
fn color_channels() {
    let c = Color::new(10, 20, 30);
    assert_eq!(c.r(), 10);
    assert_eq!(c.g(), 20);
    assert_eq!(c.b(), 30);
    assert_eq!(c.to_rgb(), [10, 20, 30]);
    assert_eq!(Color::new(0, 255, 0).to_rgb(), [0, 255, 0]);
}
