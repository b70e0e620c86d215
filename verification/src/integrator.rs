use crate::camera::can_compute;
use crate::geometry::{HitRecord, HittableList};
use crate::material::{scatter, scatter_spec};
use crate::measure::Units;
use crate::ray::Ray;
use crate::scene::is_total;
use crate::vector::Vec3;
use std::ops::{Add, Div, Mul, Neg, Sub};
use vstd::prelude::*;
use vstd::std_specs::ops::{AddSpec, MulSpec, SubSpec};

verus! {

/// What happened to the ray that a path is following.
#[derive(Debug, Clone, Copy, PartialEq, Eq, Structural)]
pub enum Event {
    /// The ray left the scene without striking a surface.
    Miss,
    /// The ray struck a surface whose material took it up.
    Absorbed,
    /// The ray struck a surface whose material sent a new ray on.
    Scattered,
}

/// What a path does next.
#[derive(Debug, Clone, Copy, PartialEq, Eq, Structural)]
pub enum Step {
    /// The path ends and carries no light.
    Black,
    /// The path ends in the background; its light is the background's,
    /// dimmed by the attenuations gathered so far.
    Background,
    /// The path goes on along the scattered ray with `depth` bounces left,
    /// dimmed by the material's attenuation.
    Bounce { depth: i32 },
}

/// How a finished path ended.
#[derive(Debug, Clone, Copy, PartialEq, Eq, Structural)]
pub enum End {
    Black,
    Background,
}

/// A finished path: how it ended and how many attenuations it gathered.
#[derive(Debug, Clone, Copy, PartialEq, Eq, Structural)]
pub struct Outcome {
    pub end: End,
    pub bounces: u32,
}

/// A path whose depth is below zero has used up its bounces: it is black,
/// and the scene need not be asked.
pub open spec fn exhausted_spec(depth: int) -> bool {
    depth < 0
}

pub fn exhausted(depth: i32) -> (e: bool)
    ensures
        e == exhausted_spec(depth as int),
{
    depth < 0
}

/// The rule of a path at `depth`: black when the depth is used up,
/// whatever the event; else the background on a miss, black when the
/// material takes the ray up, and one level deeper when it scatters.
pub open spec fn step_spec(depth: int, event: Event) -> Step {
    if depth < 0 {
        Step::Black
    } else {
        match event {
            Event::Miss => Step::Background,
            Event::Absorbed => Step::Black,
            Event::Scattered => Step::Bounce { depth: (depth - 1) as i32 },
        }
    }
}

pub fn step(depth: i32, event: Event) -> (next: Step)
    ensures
        next == step_spec(depth as int, event),
        depth < 0 ==> next == Step::Black,
        next matches Step::Bounce { depth: d } ==> d == depth - 1 && depth >= 0,
{
    if depth < 0 {
        Step::Black
    } else {
        match event {
            Event::Miss => Step::Background,
            Event::Absorbed => Step::Black,
            Event::Scattered => Step::Bounce { depth: depth - 1 },
        }
    }
}

/// Follows a path that starts at `depth` through the events from `from`
/// on, having gathered `bounces` attenuations: the end and the number of
/// attenuations, or `None` where the events run out before the path ends.
pub open spec fn resolve_from(depth: int, events: Seq<Event>, from: int, bounces: int) -> Option<
    (End, int),
>
    decreases events.len() - from,
{
    if depth < 0 {
        Some((End::Black, bounces))
    } else if from < 0 || from >= events.len() {
        None
    } else {
        match events[from] {
            Event::Miss => Some((End::Background, bounces)),
            Event::Absorbed => Some((End::Black, bounces)),
            Event::Scattered => resolve_from(depth - 1, events, from + 1, bounces + 1),
        }
    }
}

/// A path gathers at most one attenuation for each level of depth it
/// starts with and one more, and none at all below zero: with `depth`
/// levels it scatters at most `depth + 1` times.
pub proof fn lemma_bounce_budget(depth: int, events: Seq<Event>, from: int, bounces: int)
    requires
        0 <= from <= events.len(),
        -1 <= depth,
    ensures
        resolve_from(depth, events, from, bounces) matches Some(done) ==> bounces <= done.1
            <= bounces + depth + 1 && done.1 - bounces <= events.len() - from,
        depth < 0 ==> resolve_from(depth, events, from, bounces) == Some((End::Black, bounces)),
    decreases events.len() - from,
{
    if depth >= 0 && from < events.len() {
        if events[from] == Event::Scattered {
            lemma_bounce_budget(depth - 1, events, from + 1, bounces + 1);
        }
    }
}

/// Follows a path that starts at `depth` through the given events.
pub fn resolve(depth: i32, events: &Vec<Event>) -> (done: Option<Outcome>)
    ensures
        match resolve_from(depth as int, events@, 0, 0) {
            Some(r) => done == Some(Outcome { end: r.0, bounces: r.1 as u32 }) && r.1 <= u32::MAX,
            None => done.is_none(),
        },
{
    let mut d: i32 = depth;
    let mut i: usize = 0;
    let mut bounces: u32 = 0;
    loop
        invariant
            i <= events.len(),
            bounces == i,
            d == depth - bounces,
            resolve_from(depth as int, events@, 0, 0) == resolve_from(
                d as int,
                events@,
                i as int,
                bounces as int,
            ),
        decreases events.len() - i,
    {
        if i >= events.len() || exhausted(d) {
            if exhausted(d) {
                return Some(Outcome { end: End::Black, bounces });
            }
            return None;
        }
        match step(d, events[i]) {
            Step::Black => {
                return Some(Outcome { end: End::Black, bounces });
            },
            Step::Background => {
                return Some(Outcome { end: End::Background, bounces });
            },
            Step::Bounce { depth: next } => {
                d = next;
                i = i + 1;
                bounces = bounces + 1;
            },
        }
    }
}

/// The light of the background for a direction of length one whose
/// vertical component is `y`: with `t = half * (y + one)`, the blend
/// `bottom * (one - t) + top * t`, white at the bottom and sky blue at
/// the top.
pub open spec fn gradient<T: Copy + Add<Output = T> + Mul<Output = T> + Sub<Output = T>>(
    y: T,
    half: T,
    one: T,
    bottom: Vec3<T>,
    top: Vec3<T>,
) -> Vec3<T> {
    bottom.mul_spec(one.sub_spec(half.mul_spec(y.add_spec(one)))).add_spec(
        top.mul_spec(half.mul_spec(y.add_spec(one))),
    )
}

/// `light` is the gradient for the vertical component of the ray's
/// direction, brought to length one with a square root that `sqrt` gave.
pub open spec fn background_spec<T, S>(
    ray: Ray<T>,
    half: T,
    one: T,
    bottom: Vec3<T>,
    top: Vec3<T>,
    sqrt: S,
    light: Vec3<T>,
) -> bool where
    T: Copy + Add<Output = T> + Sub<Output = T> + Mul<Output = T> + Div<Output = T>,
    S: Fn(T) -> T,
 {
    exists|unit: Vec3<T>|
        (#[trigger] ray.direction.normalise_spec(sqrt, unit)) && light == gradient(
            unit.y,
            half,
            one,
            bottom,
            top,
        )
}

/// The light of a ray that strikes nothing: the gradient for the
/// vertical component of its direction brought to length one. `half` and
/// `one` are those numbers in the component type, `sqrt` takes square
/// roots in it.
pub fn background<T, S>(ray: &Ray<T>, half: T, one: T, bottom: Vec3<T>, top: Vec3<T>, sqrt: &S) -> (light:
    Vec3<T>) where
    T: Copy + Add<Output = T> + Sub<Output = T> + Mul<Output = T> + Div<Output = T> + Neg<
        Output = T,
    >,
    S: Fn(T) -> T,

    requires
        can_compute::<T>(),
        forall|x: T| #[trigger] sqrt.requires((x,)),
    ensures
        background_spec(*ray, half, one, bottom, top, *sqrt, light),
{
    let unit_direction = ray.direction.normalise(sqrt);
    let t = half * (unit_direction.y + one);
    let light = bottom * (one - t) + top * t;
    assert(ray.direction.normalise_spec(*sqrt, unit_direction));
    light
}

/// What a scene answers for one ray.
#[derive(Debug, Clone, Copy)]
pub enum Bounce<T> {
    /// The ray struck nothing.
    Miss,
    /// The ray struck a surface whose material took it up.
    Absorbed,
    /// The ray struck a surface whose material dims the light by
    /// `attenuation` and sends `ray` on.
    Scattered { attenuation: Vec3<T>, ray: Ray<T> },
}

impl<T> Bounce<T> {
    /// The event that the answer stands for.
    pub open spec fn event_spec(self) -> Event {
        match self {
            Bounce::Miss => Event::Miss,
            Bounce::Absorbed => Event::Absorbed,
            Bounce::Scattered { attenuation, ray } => Event::Scattered,
        }
    }

    pub fn event(&self) -> (e: Event)
        ensures
            e == self.event_spec(),
    {
        match self {
            Bounce::Miss => Event::Miss,
            Bounce::Absorbed => Event::Absorbed,
            Bounce::Scattered { attenuation: _, ray: _ } => Event::Scattered,
        }
    }
}

/// What the integrator is set up with: the bounds between which a hit
/// counts, and the colours and the number one half of the background.
#[derive(Debug, Clone, Copy)]
pub struct Setting<T> {
    /// Hits at or below this parameter do not count, so that a ray does
    /// not strike the surface it has just left.
    pub t_min: T,
    /// Hits at or beyond this parameter do not count.
    pub t_max: T,
    pub half: T,
    /// No light at all.
    pub black: Vec3<T>,
    /// The background straight down.
    pub bottom: Vec3<T>,
    /// The background straight up.
    pub top: Vec3<T>,
}

/// The answer that a scattering stands for: the ray goes on with the
/// attenuation where the material scatters, and is taken up where not.
pub open spec fn bounce_of<T>(out: (Vec3<T>, Ray<T>, bool)) -> Bounce<T> {
    if out.2 {
        Bounce::Scattered { attenuation: out.0, ray: out.1 }
    } else {
        Bounce::Absorbed
    }
}

/// `answer` is what the scene answers for the ray, given the nearest hit
/// `found`: a miss where nothing is struck, and else what the material of
/// the struck surface makes of the ray.
pub open spec fn answer_spec<T, G, S, P, C>(
    found: Option<HitRecord<T>>,
    ray: Ray<T>,
    units: Units<T>,
    sample: G,
    sqrt: S,
    powi: P,
    coin: C,
    answer: Bounce<T>,
) -> bool where
    T: Copy + Add<Output = T> + Sub<Output = T> + Mul<Output = T> + Div<Output = T> + Neg<
        Output = T,
    > + PartialOrd,
    G: Fn() -> Vec3<T>,
    S: Fn(T) -> T,
    P: Fn(T, i32) -> T,
    C: Fn() -> T,
 {
    match found {
        None => answer is Miss,
        Some(rec) => match rec.material {
            None => answer is Miss,
            Some(material) => exists|out: (Vec3<T>, Ray<T>, bool)|
                (#[trigger] scatter_spec(material, ray, rec, units, sample, sqrt, powi, coin, out))
                    && answer == bounce_of(out),
        },
    }
}

/// `answer` is what the scene answers for the ray: the nearest hit
/// between `t_min` and `t_max` is looked for among all surfaces, and the
/// material of the surface that was struck scatters the ray.
pub open spec fn trace_spec<T, G, S, P, C>(
    world: HittableList<T>,
    ray: Ray<T>,
    t_min: T,
    t_max: T,
    units: Units<T>,
    sample: G,
    sqrt: S,
    powi: P,
    coin: C,
    answer: Bounce<T>,
) -> bool where
    T: Copy + Add<Output = T> + Sub<Output = T> + Mul<Output = T> + Div<Output = T> + Neg<
        Output = T,
    > + PartialOrd,
    G: Fn() -> Vec3<T>,
    S: Fn(T) -> T,
    P: Fn(T, i32) -> T,
    C: Fn() -> T,
 {
    exists|found: Option<HitRecord<T>>|
        (#[trigger] world.hit_spec(
            world.objects.len() as int,
            ray,
            t_min,
            t_max,
            units.zero,
            sqrt,
            found,
        )) && answer_spec(found, ray, units, sample, sqrt, powi, coin, answer)
}

/// What the scene answers for one ray: a miss, or what the material at
/// the nearest hit between `t_min` and `t_max` makes of the ray.
pub fn trace<T, G, S, P, C>(
    world: &HittableList<T>,
    ray: &Ray<T>,
    t_min: T,
    t_max: T,
    units: &Units<T>,
    sample: &G,
    sqrt: &S,
    powi: &P,
    coin: &C,
) -> (answer: Bounce<T>) where
    T: Copy + Add<Output = T> + Sub<Output = T> + Mul<Output = T> + Div<Output = T> + Neg<
        Output = T,
    > + PartialOrd,
    G: Fn() -> Vec3<T>,
    S: Fn(T) -> T,
    P: Fn(T, i32) -> T,
    C: Fn() -> T,

    requires
        is_total::<T>(),
        sample.requires(()),
        coin.requires(()),
        forall|x: T| #[trigger] sqrt.requires((x,)),
        forall|x: T, n: i32| #[trigger] powi.requires((x, n)),
    ensures
        trace_spec(*world, *ray, t_min, t_max, *units, *sample, *sqrt, *powi, *coin, answer),
        world.objects.len() == 0 ==> answer is Miss,
{
    let found = world.hit(ray, t_min, t_max, units.zero, sqrt);
    match found {
        None => Bounce::Miss,
        Some(rec) => match rec.material {
            None => Bounce::Miss,
            Some(material) => {
                let out = scatter(&material, ray, &rec, units, sample, sqrt, powi, coin);
                assert(scatter_spec(material, *ray, rec, *units, *sample, *sqrt, *powi, *coin, out));
                if out.2 {
                    Bounce::Scattered { attenuation: out.0, ray: out.1 }
                } else {
                    Bounce::Absorbed
                }
            },
        },
    }
}

/// `light` is a light that the path along `ray` with `depth` bounces left
/// may carry in the scene: black below depth zero and where the ray is
/// taken up, the background where it strikes nothing, and else the light
/// of the scattered ray one level deeper, multiplied component by
/// component by the attenuation.
pub open spec fn scene_light<T, G, S, P, C>(
    world: HittableList<T>,
    ray: Ray<T>,
    depth: int,
    setting: Setting<T>,
    units: Units<T>,
    sample: G,
    sqrt: S,
    powi: P,
    coin: C,
    light: Vec3<T>,
) -> bool where
    T: Copy + Add<Output = T> + Sub<Output = T> + Mul<Output = T> + Div<Output = T> + Neg<
        Output = T,
    > + PartialOrd,
    G: Fn() -> Vec3<T>,
    S: Fn(T) -> T,
    P: Fn(T, i32) -> T,
    C: Fn() -> T,

    decreases
            (if depth < 0 {
                0
            } else {
                depth + 1
            }),
{
    if depth < 0 {
        light == setting.black
    } else {
        exists|answer: Bounce<T>|
            (#[trigger] trace_spec(
                world,
                ray,
                setting.t_min,
                setting.t_max,
                units,
                sample,
                sqrt,
                powi,
                coin,
                answer,
            )) && match answer {
                Bounce::Miss => background_spec(
                    ray,
                    setting.half,
                    units.one,
                    setting.bottom,
                    setting.top,
                    sqrt,
                    light,
                ),
                Bounce::Absorbed => light == setting.black,
                Bounce::Scattered { attenuation, ray: next } => exists|inner: Vec3<T>|
                    scene_light(
                        world,
                        next,
                        depth - 1,
                        setting,
                        units,
                        sample,
                        sqrt,
                        powi,
                        coin,
                        inner,
                    ) && light == #[trigger] attenuation.modulate_spec(inner),
            }
    }
}

/// The light along a ray in a scene: follows the path for at most
/// `depth + 1` bounces and multiplies the attenuations it meets into the
/// light at the path's end. `sample` draws a point of the unit ball,
/// `coin` a number from zero up to one, `sqrt` and `powi` take roots and
/// whole powers in the component type.
pub fn ray_color_vec3_float<T, G, S, P, C>(
    ray: &Ray<T>,
    world: &HittableList<T>,
    depth: i32,
    setting: &Setting<T>,
    units: &Units<T>,
    sample: &G,
    sqrt: &S,
    powi: &P,
    coin: &C,
) -> (light: Vec3<T>) where
    T: Copy + Add<Output = T> + Sub<Output = T> + Mul<Output = T> + Div<Output = T> + Neg<
        Output = T,
    > + PartialOrd,
    G: Fn() -> Vec3<T>,
    S: Fn(T) -> T,
    P: Fn(T, i32) -> T,
    C: Fn() -> T,

    requires
        is_total::<T>(),
        sample.requires(()),
        coin.requires(()),
        forall|x: T| #[trigger] sqrt.requires((x,)),
        forall|x: T, n: i32| #[trigger] powi.requires((x, n)),
    ensures
        scene_light(*world, *ray, depth as int, *setting, *units, *sample, *sqrt, *powi, *coin, light),
        depth < 0 ==> light == setting.black,
        depth >= 0 && world.objects.len() == 0 ==> background_spec(
            *ray,
            setting.half,
            units.one,
            setting.bottom,
            setting.top,
            *sqrt,
            light,
        ),
    decreases
            (if depth < 0 {
                0
            } else {
                depth + 1
            }),
{
    if exhausted(depth) {
        return setting.black;
    }
    let answer = trace(world, ray, setting.t_min, setting.t_max, units, sample, sqrt, powi, coin);
    match step(depth, answer.event()) {
        Step::Black => setting.black,
        Step::Background => background(
            ray,
            setting.half,
            units.one,
            setting.bottom,
            setting.top,
            sqrt,
        ),
        Step::Bounce { depth: left } => {
            match answer {
                Bounce::Scattered { attenuation, ray: next } => {
                    let inner = ray_color_vec3_float(
                        &next,
                        world,
                        left,
                        setting,
                        units,
                        sample,
                        sqrt,
                        powi,
                        coin,
                    );
                    attenuation.modulate(inner)
                },
                _ => setting.black,
            }
        },
    }
}

} // verus!
