use raytracer::camera::Camera;
use raytracer::geometry::{HittableList, Sphere};
use raytracer::integrator::Setting;
use raytracer::material::Material;
use raytracer::measure::Units;
use raytracer::ray::Ray;
use raytracer::renderer::sample_light;
use raytracer::vector::Vec3;
use raytracer::whole::Whole;

fn w(v: i64) -> Whole {
    Whole::new(v)
}

fn root(x: Whole) -> Whole {
    let mut r: i64 = 0;
    while (r + 1) * (r + 1) <= x.v {
        r += 1;
    }
    w(r)
}

#[test]
fn whole_numbers_stop_at_the_ends_of_the_range() {
    assert_eq!(w(3) + w(4), w(7));
    assert_eq!(w(i64::MAX) + w(1), w(i64::MAX));
    assert_eq!(w(i64::MIN) - w(1), w(i64::MIN));
    assert_eq!(w(3) - w(4), w(-1));
    assert_eq!(w(-3) * w(4), w(-12));
    assert_eq!(w(i64::MAX) * w(2), w(i64::MAX));
    assert_eq!(w(i64::MIN) * w(2), w(i64::MIN));
    assert_eq!(w(i64::MIN) * w(-1), w(i64::MAX));
    assert_eq!(-w(5), w(-5));
    assert_eq!(-w(i64::MIN), w(i64::MAX));
}

#[test]
fn whole_division_rounds_towards_zero_and_never_fails() {
    assert_eq!(w(7) / w(2), w(3));
    assert_eq!(w(-7) / w(2), w(-3));
    assert_eq!(w(7) / w(-2), w(-3));
    assert_eq!(w(-7) / w(-2), w(3));
    assert_eq!(w(7) / w(0), w(i64::MAX));
    assert_eq!(w(-7) / w(0), w(i64::MIN));
    assert_eq!(w(0) / w(0), w(0));
    assert_eq!(w(i64::MIN) / w(-1), w(i64::MAX));
    assert_eq!(w(i64::MIN) / w(1), w(i64::MIN));
}

#[test]
fn whole_numbers_are_ordered_as_their_values() {
    assert!(w(-1) < w(0));
    assert!(w(3) <= w(3));
    assert!(w(4) > w(3));
    assert!(!(w(4) < w(4)));
}

#[test]
fn sphere_is_hit_in_whole_numbers() {
    let s = Sphere::new(Vec3::new(w(0), w(0), w(-5)), w(2), Material::Dielctric { ir: w(1) });
    let r = Ray::new(Vec3::new(w(0), w(0), w(0)), Vec3::new(w(0), w(0), w(-1)));
    let rec = s.hit(&r, w(0), w(1000), w(0), &root).unwrap();
    assert_eq!(rec.t, w(3));
    assert_eq!((rec.p.x, rec.p.y, rec.p.z), (w(0), w(0), w(-3)));
    assert_eq!((rec.normal.x, rec.normal.y, rec.normal.z), (w(0), w(0), w(1)));
    assert!(rec.front_face);
    let far = s.hit(&r, w(3), w(1000), w(0), &root).unwrap();
    assert_eq!(far.t, w(7));
    let aside = Ray::new(Vec3::new(w(3), w(0), w(0)), Vec3::new(w(0), w(0), w(-1)));
    assert!(s.hit(&aside, w(0), w(1000), w(0), &root).is_none());
}

#[test]
fn sample_of_a_pixel_in_an_empty_scene_is_the_background() {
    let camera = Camera::from_frame(
        Vec3::new(0.0f32, 0.0, 0.0),
        Vec3::new(0.0, 0.0, 1.0),
        Vec3::new(1.0, 0.0, 0.0),
        2.0,
        2.0,
        0.0,
        1.0,
        2.0,
    );
    let world: HittableList<f32> = HittableList::new(Vec::new());
    let setting = Setting {
        t_min: 0.001f32,
        t_max: f32::INFINITY,
        half: 0.5,
        black: Vec3::new(0.0, 0.0, 0.0),
        bottom: Vec3::new(1.0, 1.0, 1.0),
        top: Vec3::new(0.5, 0.7, 1.0),
    };
    let units = Units { zero: 0.0f32, one: 1.0, two: 2.0, epsilon: 1e-8 };
    let light = |x: u32, y: u32, depth: i32| {
        sample_light(
            &camera,
            &world,
            x,
            y,
            3,
            3,
            depth,
            &setting,
            &units,
            &|n: u32| n as f32,
            &|| Vec3::new(0.0f32, 0.0, 0.0),
            &|| Vec3::new(0.0f32, 0.5, 0.0),
            &|v: f32| v.sqrt(),
            &|v: f32, n: i32| v.powi(n),
            &|| 0.0f32,
        )
    };
    let middle = light(1, 1, 5);
    assert_eq!((middle.x, middle.y, middle.z), (0.75, 0.85, 1.0));
    let corner = light(0, 0, 5);
    let y = 1.0f32 / (4.0f32 + 1.0 + 1.0).sqrt();
    let t = 0.5 * (y + 1.0);
    assert_eq!(
        (corner.x, corner.y, corner.z),
        (1.0 * (1.0 - t) + 0.5 * t, 1.0 * (1.0 - t) + 0.7 * t, 1.0 * (1.0 - t) + 1.0 * t)
    );
    let spent = light(1, 1, -1);
    assert_eq!((spent.x, spent.y, spent.z), (0.0, 0.0, 0.0));
}

fn picture(workers: u32, depth: i32) -> raytracer::canvas::Canvas {
    let camera = Camera::from_frame(
        Vec3::new(0.0f32, 0.0, 2.0),
        Vec3::new(0.0, 0.0, 1.0),
        Vec3::new(1.0, 0.0, 0.0),
        2.0,
        1.0,
        0.0,
        1.0,
        2.0,
    );
    let world = HittableList::new(vec![Sphere::new(
        Vec3::new(0.0f32, 0.0, -1.0),
        1.0,
        Material::Lambertian { albedo: Vec3::new(0.7, 0.3, 0.3) },
    )]);
    let setting = Setting {
        t_min: 0.001f32,
        t_max: f32::INFINITY,
        half: 0.5,
        black: Vec3::new(0.0, 0.0, 0.0),
        bottom: Vec3::new(1.0, 1.0, 1.0),
        top: Vec3::new(0.5, 0.7, 1.0),
    };
    let units = Units { zero: 0.0f32, one: 1.0, two: 2.0, epsilon: 1e-8 };
    let tone = raytracer::renderer::Tone { low: 0.0f32, high: 0.999, scale: 256.0 };
    raytracer::renderer::render(
        &camera,
        &world,
        3,
        3,
        1,
        depth,
        workers,
        &setting,
        &units,
        &tone,
        &|n: u32| n as f32,
        &|| Vec3::new(0.0f32, 0.0, 0.0),
        &|| Vec3::new(0.0f32, 0.5, 0.0),
        &|v: f32| v.sqrt(),
        &|v: f32, n: i32| v.powi(n),
        &|| 0.0f32,
        &|v: f32| v as u8,
    )
    .unwrap()
}

#[test]
fn centre_pixel_of_a_diffuse_sphere_at_depth_zero_is_black() {
    let img = picture(1, 0);
    assert_eq!((img.width(), img.height()), (3, 3));
    assert_eq!(img.get_pixel(1, 1).unwrap().to_rgb(), [0, 0, 0]);
    let y = 1.0f32 / 3.0f32.sqrt();
    let t = 0.5 * (y + 1.0);
    let byte = |bottom: f32, top: f32| {
        (256.0 * ((bottom * (1.0 - t) + top * t) / 1.0).sqrt().clamp(0.0, 0.999)) as u8
    };
    assert_eq!(
        img.get_pixel(0, 0).unwrap().to_rgb(),
        [byte(1.0, 0.5), byte(1.0, 0.7), byte(1.0, 1.0)]
    );
}

#[test]
fn picture_of_a_scene_is_the_same_for_any_number_of_workers() {
    for depth in [0, 1, 3] {
        let alone = picture(1, depth);
        for workers in [2u32, 3, 5] {
            let split = picture(workers, depth);
            for x in 0..3 {
                for y in 0..3 {
                    assert_eq!(
                        split.get_pixel(x, y).unwrap().to_rgb(),
                        alone.get_pixel(x, y).unwrap().to_rgb()
                    );
                }
            }
        }
    }
}
