use raytracer::geometry::{HitRecord, HittableList, Sphere};
use raytracer::integrator::{exhausted, resolve, step, End, Event, Outcome, Step};
use raytracer::material::Material;
use raytracer::vector::Vec3;

fn record() -> HitRecord<f32> {
    HitRecord {
        p: Vec3::new(1.0, 2.0, 3.0),
        normal: Vec3::new(0.0, 1.0, 0.0),
        material: None,
        t: 2.5,
        front_face: true,
    }
}

#[test]
fn below_zero_depth_is_black_whatever_happens() {
    assert!(exhausted(-1));
    assert!(!exhausted(0));
    for event in [Event::Miss, Event::Absorbed, Event::Scattered] {
        assert_eq!(step(-1, event), Step::Black);
        assert_eq!(step(i32::MIN, event), Step::Black);
    }
    assert_eq!(resolve(-1, &vec![Event::Miss]), Some(Outcome { end: End::Black, bounces: 0 }));
    assert_eq!(resolve(-1, &Vec::new()), Some(Outcome { end: End::Black, bounces: 0 }));
}

#[test]
fn step_follows_the_event() {
    assert_eq!(step(5, Event::Miss), Step::Background);
    assert_eq!(step(5, Event::Absorbed), Step::Black);
    assert_eq!(step(5, Event::Scattered), Step::Bounce { depth: 4 });
    assert_eq!(step(0, Event::Scattered), Step::Bounce { depth: -1 });
    assert_eq!(step(0, Event::Miss), Step::Background);
}

#[test]
fn empty_scene_gives_the_background() {
    assert_eq!(resolve(0, &vec![Event::Miss]), Some(Outcome { end: End::Background, bounces: 0 }));
    assert_eq!(resolve(50, &vec![Event::Miss]), Some(Outcome { end: End::Background, bounces: 0 }));
}

#[test]
fn depth_zero_allows_one_scatter_and_then_is_black() {
    let events = vec![Event::Scattered, Event::Miss];
    assert_eq!(resolve(0, &events), Some(Outcome { end: End::Black, bounces: 1 }));
    assert_eq!(resolve(1, &events), Some(Outcome { end: End::Background, bounces: 1 }));
}

#[test]
fn depth_n_allows_n_plus_one_scatters() {
    let events = vec![Event::Scattered; 10];
    assert_eq!(resolve(5, &events), Some(Outcome { end: End::Black, bounces: 6 }));
    assert_eq!(resolve(9, &events), Some(Outcome { end: End::Black, bounces: 10 }));
    assert_eq!(resolve(10, &events), None);
}

#[test]
fn absorbed_path_is_black() {
    let events = vec![Event::Scattered, Event::Scattered, Event::Absorbed, Event::Miss];
    assert_eq!(resolve(5, &events), Some(Outcome { end: End::Black, bounces: 2 }));
}

#[test]
fn unfinished_path() {
    assert_eq!(resolve(3, &Vec::new()), None);
    assert_eq!(resolve(3, &vec![Event::Scattered]), None);
}

#[test]
fn scene_keeps_the_order_of_its_surfaces() {
    let a = Sphere::new(Vec3::new(0i32, 0, 0), 1, Material::Dielctric { ir: 2 });
    let b = Sphere::new(Vec3::new(5i32, 0, 0), -4, Material::Dielctric { ir: 3 });
    let scene = HittableList::new(vec![a, b]);
    assert_eq!(scene.objects.len(), 2);
    assert_eq!(scene.objects[1].radius, -4);
    assert_eq!(scene.objects[0].center.x, 0);
}

#[test]
fn modulate_multiplies_component_by_component() {
    let m = Vec3::new(2i32, 3, 4).modulate(Vec3::new(5, -6, 0));
    assert_eq!((m.x, m.y, m.z), (10, -18, 0));
}

#[test]
fn reflect_mirrors_at_the_normal() {
    let r = Vec3::new(1.0f32, -1.0, 0.0).reflect(Vec3::new(0.0, 1.0, 0.0), 2.0);
    assert_eq!((r.x, r.y, r.z), (1.0, 1.0, 0.0));
    let i = Vec3::new(3i32, -4, 5).reflect(Vec3::new(0, 0, 1), 2);
    assert_eq!((i.x, i.y, i.z), (3, -4, -5));
    let along = Vec3::new(2i32, 0, 0).reflect(Vec3::new(0, 1, 0), 2);
    assert_eq!((along.x, along.y, along.z), (2, 0, 0));
}

fn sqrt(x: f32) -> f32 {
    x.sqrt()
}

fn powi(x: f32, n: i32) -> f32 {
    x.powi(n)
}

fn units() -> raytracer::measure::Units<f32> {
    raytracer::measure::Units { zero: 0.0, one: 1.0, two: 2.0, epsilon: 1e-8 }
}

fn setting() -> raytracer::integrator::Setting<f32> {
    raytracer::integrator::Setting {
        t_min: 0.001,
        t_max: f32::INFINITY,
        half: 0.5,
        black: Vec3::new(0.0, 0.0, 0.0),
        bottom: Vec3::new(1.0, 1.0, 1.0),
        top: Vec3::new(0.5, 0.7, 1.0),
    }
}

fn from_above() -> raytracer::ray::Ray<f32> {
    raytracer::ray::Ray::new(Vec3::new(0.0, 0.0, 2.0), Vec3::new(0.0, 0.0, -1.0))
}

fn one_sphere(material: Material<f32>) -> HittableList<f32> {
    HittableList::new(vec![Sphere::new(Vec3::new(0.0, 0.0, -1.0), 1.0, material)])
}

fn diffuse() -> Material<f32> {
    Material::Lambertian { albedo: Vec3::new(0.7, 0.3, 0.3) }
}

fn color_of(
    world: &HittableList<f32>,
    depth: i32,
    sample: Vec3<f32>,
    asked: &std::cell::Cell<u32>,
) -> Vec3<f32> {
    let draw = || {
        asked.set(asked.get() + 1);
        sample
    };
    raytracer::integrator::ray_color_vec3_float(
        &from_above(),
        world,
        depth,
        &setting(),
        &units(),
        &draw,
        &sqrt,
        &powi,
        &|| 0.5f32,
    )
}

#[test]
fn path_below_zero_depth_is_black_and_asks_nothing() {
    let asked = std::cell::Cell::new(0u32);
    for world in [one_sphere(diffuse()), HittableList::new(Vec::new())] {
        let light = color_of(&world, -1, Vec3::new(0.0, 0.5, 0.0), &asked);
        assert_eq!((light.x, light.y, light.z), (0.0, 0.0, 0.0));
    }
    assert_eq!(asked.get(), 0);
}

#[test]
fn path_in_an_empty_scene_is_the_background() {
    let asked = std::cell::Cell::new(0u32);
    let empty = HittableList::new(Vec::new());
    for depth in [0, 5, 50] {
        let light = color_of(&empty, depth, Vec3::new(0.0, 0.5, 0.0), &asked);
        assert_eq!((light.x, light.y, light.z), (0.75, 0.85, 1.0));
    }
    assert_eq!(asked.get(), 0);
}

#[test]
fn diffuse_sphere_at_depth_zero_is_black() {
    let asked = std::cell::Cell::new(0u32);
    let light = color_of(&one_sphere(diffuse()), 0, Vec3::new(0.0, 0.5, 0.0), &asked);
    assert_eq!((light.x, light.y, light.z), (0.0, 0.0, 0.0));
    assert_eq!(asked.get(), 1);
}

#[test]
fn path_multiplies_the_attenuation_into_the_background() {
    let asked = std::cell::Cell::new(0u32);
    let light = color_of(&one_sphere(diffuse()), 1, Vec3::new(0.0, 0.5, 0.0), &asked);
    let y = 1.0f32 / 2.0f32.sqrt();
    let t = 0.5 * (y + 1.0);
    let expected = (
        0.7 * (1.0 * (1.0 - t) + 0.5 * t),
        0.3 * (1.0 * (1.0 - t) + 0.7 * t),
        0.3 * (1.0 * (1.0 - t) + 1.0 * t),
    );
    assert_eq!((light.x, light.y, light.z), expected);
    assert_eq!(asked.get(), 1);
}

#[test]
fn absorbed_ray_is_black() {
    let asked = std::cell::Cell::new(0u32);
    let rough = Material::Metal { albedo: Vec3::new(0.8, 0.6, 0.2), fuzz: 2.0 };
    let light = color_of(&one_sphere(rough), 3, Vec3::new(0.0, 0.0, -1.0), &asked);
    assert_eq!((light.x, light.y, light.z), (0.0, 0.0, 0.0));
    assert_eq!(asked.get(), 1);
    assert_eq!(raytracer::integrator::Bounce::<f32>::Absorbed.event(), Event::Absorbed);
    assert_eq!(raytracer::integrator::Bounce::<f32>::Miss.event(), Event::Miss);
}

#[test]
fn trace_answers_for_one_ray() {
    let sample = || Vec3::new(0.0f32, 0.5, 0.0);
    let coin = || 0.5f32;
    let empty = HittableList::new(Vec::new());
    let miss = raytracer::integrator::trace(
        &empty, &from_above(), 0.001, f32::INFINITY, &units(), &sample, &sqrt, &powi, &coin,
    );
    assert!(matches!(miss, raytracer::integrator::Bounce::Miss));
    let world = one_sphere(diffuse());
    let hit = raytracer::integrator::trace(
        &world, &from_above(), 0.001, f32::INFINITY, &units(), &sample, &sqrt, &powi, &coin,
    );
    match hit {
        raytracer::integrator::Bounce::Scattered { attenuation, ray } => {
            assert_eq!((attenuation.x, attenuation.y, attenuation.z), (0.7, 0.3, 0.3));
            assert_eq!((ray.origin.x, ray.origin.y, ray.origin.z), (0.0, 0.0, 0.0));
            assert_eq!((ray.direction.x, ray.direction.y, ray.direction.z), (0.0, 1.0, 1.0));
        }
        _ => panic!("the sphere scatters the ray"),
    }
    let too_near = raytracer::integrator::trace(
        &world, &from_above(), 4.0, f32::INFINITY, &units(), &sample, &sqrt, &powi, &coin,
    );
    assert!(matches!(too_near, raytracer::integrator::Bounce::Miss));
    let capped = raytracer::integrator::trace(
        &world, &from_above(), 0.001, 2.0, &units(), &sample, &sqrt, &powi, &coin,
    );
    assert!(matches!(capped, raytracer::integrator::Bounce::Miss));
}

#[test]
fn mirror_without_roughness_reflects_exactly() {
    let incoming = Vec3::new(1.0f32, -1.0, 0.5);
    let normal = Vec3::new(0.0f32, 1.0, 0.0);
    for sample in [Vec3::new(0.3f32, -0.2, 0.9), Vec3::new(-0.5, 0.5, 0.5)] {
        let d = raytracer::material::fuzzy_reflection(incoming, normal, sample, 0.0, 2.0);
        assert_eq!((d.x, d.y, d.z), (1.0, 1.0, 0.5));
    }
    let i = raytracer::material::fuzzy_reflection(
        Vec3::new(3i64, -4, 5),
        Vec3::new(0, 1, 0),
        Vec3::new(7, 8, 9),
        0,
        2,
    );
    assert_eq!((i.x, i.y, i.z), (3, 4, 5));
}

#[test]
fn rough_mirror_moves_the_reflection_by_the_sample() {
    let d = raytracer::material::fuzzy_reflection(
        Vec3::new(1.0f32, -1.0, 0.0),
        Vec3::new(0.0, 1.0, 0.0),
        Vec3::new(0.5, -0.5, 1.0),
        0.5,
        2.0,
    );
    assert_eq!((d.x, d.y, d.z), (1.25, 0.75, 0.5));
}

#[test]
fn set_face_normal_turns_the_normal_against_the_ray() {
    let from_inside = raytracer::ray::Ray::new(Vec3::new(0.0f32, 0.0, 0.0), Vec3::new(0.0, 0.0, 2.0));
    let mut rec = record();
    rec.set_face_normal(&from_inside, Vec3::new(0.0, 0.0, 1.0), 0.0);
    assert!(!rec.front_face);
    assert_eq!((rec.normal.x, rec.normal.y, rec.normal.z), (0.0, 0.0, -1.0));
    assert_eq!((rec.p.x, rec.p.y, rec.p.z, rec.t), (1.0, 2.0, 3.0, 2.5));
    let from_outside = raytracer::ray::Ray::new(Vec3::new(0.0f32, 0.0, 5.0), Vec3::new(0.0, 1.0, -2.0));
    rec.set_face_normal(&from_outside, Vec3::new(0.0, 0.0, 1.0), 0.0);
    assert!(rec.front_face);
    assert_eq!((rec.normal.x, rec.normal.y, rec.normal.z), (0.0, 0.0, 1.0));
}

#[test]
fn ray_along_the_surface_counts_as_from_inside() {
    let along = raytracer::ray::Ray::new(Vec3::new(0i64, 0, 0), Vec3::new(1, 0, 0));
    let mut rec = HitRecord { p: Vec3::new(0i64, 0, 0), normal: Vec3::new(0, 0, 0), material: None, t: 1i64, front_face: true };
    rec.set_face_normal(&along, Vec3::new(0, 1, 0), 0);
    assert!(!rec.front_face);
    assert_eq!((rec.normal.x, rec.normal.y, rec.normal.z), (0, -1, 0));
}

#[test]
fn kept_normal_never_points_along_the_ray() {
    let directions = [Vec3::new(1i64, -2, 3), Vec3::new(0, 0, -1), Vec3::new(-4, 5, 6)];
    let normals = [Vec3::new(0i64, 1, 0), Vec3::new(1, 1, 1), Vec3::new(-3, 0, 2)];
    for d in directions {
        for n in normals {
            let ray = raytracer::ray::Ray::new(Vec3::new(0i64, 0, 0), d);
            let mut rec = HitRecord { p: d, normal: n, material: None, t: 1i64, front_face: false };
            rec.set_face_normal(&ray, n, 0);
            assert!(raytracer::vector::Dot::dot(rec.normal, d) <= 0);
            assert_eq!(rec.front_face, raytracer::vector::Dot::dot(d, n) < 0);
        }
    }
}
