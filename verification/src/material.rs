use crate::geometry::HitRecord;
use crate::ray::Ray;
use crate::vector::Vec3;
use crate::measure::{min, schlick, schlick_spec, smaller, Units};
use crate::scene::is_total;
use crate::vector::Dot;
use std::ops::{Add, Div, Mul, Neg, Sub};
use vstd::prelude::*;
use vstd::std_specs::cmp::{PartialOrdIs, PartialOrdSpec};
use vstd::std_specs::ops::{AddSpec, DivSpec, MulSpec, NegSpec, SubSpec};

verus! {

/// How a surface answers light: one of three kinds.
#[derive(Debug, Clone, Copy)]
pub enum Material<T> {
    /// A matt surface that scatters every ray and tints it by `albedo`.
    Lambertian { albedo: Vec3<T> },
    /// A mirror tinted by `albedo` whose reflection is blurred by `fuzz`.
    Metal { albedo: Vec3<T>, fuzz: T },
    /// A clear medium with refractive index `ir`.
    Dielctric { ir: T },
}

/// The attenuation of a material: its albedo, or for a clear medium the
/// triple of ones, which dims nothing.
pub open spec fn attenuation_of<T>(material: Material<T>, one: T) -> Vec3<T> {
    match material {
        Material::Lambertian { albedo } => albedo,
        Material::Metal { albedo, fuzz } => albedo,
        Material::Dielctric { ir } => Vec3 { x: one, y: one, z: one },
    }
}

/// The direction in which a mirror of roughness `fuzz` sends a ray: the
/// mirror image of the incoming direction at the normal, moved by the
/// sample scaled by `fuzz`.
pub open spec fn fuzzy_reflection_spec<T: Copy + Add<Output = T> + Sub<Output = T> + Mul<Output = T>>(
    incoming: Vec3<T>,
    normal: Vec3<T>,
    sample: Vec3<T>,
    fuzz: T,
    two: T,
) -> Vec3<T> {
    incoming.reflect_spec(normal, two).add_spec(sample.mul_spec(fuzz))
}

/// Every operation of `fuzzy_reflection` can be carried out.
pub open spec fn fuzzy_reflection_req<T: Copy + Add<Output = T> + Sub<Output = T> + Mul<Output = T>>(
    incoming: Vec3<T>,
    normal: Vec3<T>,
    sample: Vec3<T>,
    fuzz: T,
    two: T,
) -> bool {
    &&& T::obeys_mul_spec()
    &&& incoming.reflect_req(normal, two)
    &&& sample.mul_req(fuzz)
    &&& incoming.reflect_spec(normal, two).add_req(sample.mul_spec(fuzz))
}

/// The direction in which a mirror of roughness `fuzz` sends a ray, for
/// one sample of the unit ball; `two` is the number two in the component
/// type.
pub fn fuzzy_reflection<T: Copy + Add<Output = T> + Sub<Output = T> + Mul<Output = T>>(
    incoming: Vec3<T>,
    normal: Vec3<T>,
    sample: Vec3<T>,
    fuzz: T,
    two: T,
) -> (direction: Vec3<T>)
    requires
        fuzzy_reflection_req(incoming, normal, sample, fuzz, two),
    ensures
        T::obeys_add_spec() ==> direction == fuzzy_reflection_spec(
            incoming,
            normal,
            sample,
            fuzz,
            two,
        ),
{
    incoming.reflect(normal, two) + sample * fuzz
}

/// A mirror without roughness reflects exactly: over the integers, with
/// `fuzz` zero the direction is the mirror image of the incoming
/// direction, whatever the sample.
pub proof fn lemma_smooth_mirror_reflects_exactly(
    incoming: Vec3<i64>,
    normal: Vec3<i64>,
    sample: Vec3<i64>,
)
    ensures
        fuzzy_reflection_spec(incoming, normal, sample, 0i64, 2i64) == incoming.reflect_spec(
            normal,
            2i64,
        ),
{
    assert(sample.x * 0 == 0 && sample.y * 0 == 0 && sample.z * 0 == 0) by (nonlinear_arith);
}

/// The direction in which a matt surface sends a ray, for a sample of
/// length one: the normal moved by the sample, or the normal itself where
/// the two all but cancel.
pub open spec fn diffuse_direction<T: Copy + Add<Output = T> + Neg<Output = T> + PartialOrd>(
    normal: Vec3<T>,
    unit_sample: Vec3<T>,
    epsilon: T,
) -> Vec3<T> {
    if normal.add_spec(unit_sample).near_zero_spec(epsilon) {
        normal
    } else {
        normal.add_spec(unit_sample)
    }
}

/// The cosine of the angle between a ray of direction `unit`, of length
/// one, and the normal it meets, at most one.
pub open spec fn cosine_of<T: Copy + Add<Output = T> + Mul<Output = T> + Neg<Output = T> + PartialOrd>(
    unit: Vec3<T>,
    normal: Vec3<T>,
    one: T,
) -> T {
    smaller(unit.neg_spec().dot_spec(normal), one)
}

/// The ratio of refractive indices that a ray meets at a clear surface:
/// `1 / ir` on the way in, `ir` on the way out.
pub open spec fn ratio_of<T: Div<Output = T>>(front_face: bool, ir: T, one: T) -> T {
    if front_face {
        one.div_spec(ir)
    } else {
        ir
    }
}

/// What a clear surface does with a ray of direction `unit`: it reflects
/// where the ray cannot pass (the ratio times the sine is above one) or
/// the draw `coin` falls below the share `chance` that is reflected.
pub open spec fn reflects<T: Mul<Output = T> + PartialOrd>(ratio: T, sine: T, one: T, coin: T, chance: T) -> bool {
    ratio.mul_spec(sine).is_gt(&one) || coin.is_lt(&chance)
}

/// `out` is an answer that `scatter` may give: the attenuation, the
/// outgoing ray from the point of the hit, and whether the ray goes on.
///
/// A matt surface sends the ray along the normal moved by a sample of the
/// unit ball, brought to length one, and always goes on. A mirror sends
/// it along the mirror image of its direction, moved by a sample scaled
/// by the roughness, and goes on only where that direction leaves the
/// surface. A clear surface reflects or refracts the direction, brought
/// to length one, and always goes on. The samples are those that `sample`
/// gave, the draw for the clear surface is what `coin` gave, and roots and
/// powers are those of `sqrt` and `powi`.
pub open spec fn scatter_spec<T, G, S, P, C>(
    material: Material<T>,
    r_in: Ray<T>,
    rec: HitRecord<T>,
    units: Units<T>,
    sample: G,
    sqrt: S,
    powi: P,
    coin: C,
    out: (Vec3<T>, Ray<T>, bool),
) -> bool where
    T: Copy + Add<Output = T> + Sub<Output = T> + Mul<Output = T> + Div<Output = T> + Neg<
        Output = T,
    > + PartialOrd,
    G: Fn() -> Vec3<T>,
    S: Fn(T) -> T,
    P: Fn(T, i32) -> T,
    C: Fn() -> T,
 {
    &&& out.0 == attenuation_of(material, units.one)
    &&& out.1.origin == rec.p
    &&& match material {
        Material::Lambertian { albedo } => out.2 && exists|s: Vec3<T>, unit: Vec3<T>|
            (#[trigger] sample.ensures((), s)) && (#[trigger] s.normalise_spec(sqrt, unit))
                && out.1.direction == diffuse_direction(rec.normal, unit, units.epsilon),
        Material::Metal { albedo, fuzz } => out.2 == out.1.direction.dot_spec(rec.normal).is_gt(
            &units.zero,
        ) && exists|s: Vec3<T>|
            (#[trigger] sample.ensures((), s)) && out.1.direction == fuzzy_reflection_spec(
                r_in.direction,
                rec.normal,
                s,
                fuzz,
                units.two,
            ),
        Material::Dielctric { ir } => out.2 && exists|unit: Vec3<T>, sine: T, chance: T, c: T|
            (#[trigger] r_in.direction.normalise_spec(sqrt, unit)) && (#[trigger] sqrt.ensures(
                (
                    units.one.sub_spec(
                        cosine_of(unit, rec.normal, units.one).mul_spec(
                            cosine_of(unit, rec.normal, units.one),
                        ),
                    ),
                ),
                sine,
            )) && (#[trigger] schlick_spec(
                cosine_of(unit, rec.normal, units.one),
                ratio_of(rec.front_face, ir, units.one),
                units.one,
                powi,
                chance,
            )) && (#[trigger] coin.ensures((), c)) && (if reflects(
                ratio_of(rec.front_face, ir, units.one),
                sine,
                units.one,
                c,
                chance,
            ) {
                out.1.direction == unit.reflect_spec(rec.normal, units.two)
            } else {
                unit.refract_spec(
                    rec.normal,
                    ratio_of(rec.front_face, ir, units.one),
                    units,
                    sqrt,
                    out.1.direction,
                )
            }),
    }
}

/// What a material makes of a ray that struck it at `rec`: the
/// attenuation, the outgoing ray, and whether the ray goes on at all.
/// `sample` draws a point of the unit ball, `coin` a number from zero up
/// to one, `sqrt` and `powi` take roots and whole powers in the component
/// type.
pub fn scatter<T, G, S, P, C>(
    material: &Material<T>,
    r_in: &Ray<T>,
    rec: &HitRecord<T>,
    units: &Units<T>,
    sample: &G,
    sqrt: &S,
    powi: &P,
    coin: &C,
) -> (out: (Vec3<T>, Ray<T>, bool)) where
    T: Copy + Add<Output = T> + Sub<Output = T> + Mul<Output = T> + Div<Output = T> + Neg<
        Output = T,
    > + PartialOrd,
    G: Fn() -> Vec3<T>,
    S: Fn(T) -> T,
    P: Fn(T, i32) -> T,
    C: Fn() -> T,

    requires
        is_total::<T>(),
        sample.requires(()),
        coin.requires(()),
        forall|x: T| #[trigger] sqrt.requires((x,)),
        forall|x: T, n: i32| #[trigger] powi.requires((x, n)),
    ensures
        scatter_spec(*material, *r_in, *rec, *units, *sample, *sqrt, *powi, *coin, out),
        !(material is Metal) ==> out.2,
{
    match material {
        Material::Lambertian { albedo } => {
            let s = sample();
            let unit = s.normalise(sqrt);
            let mut scatter_direction = rec.normal + unit;
            if scatter_direction.near_zero(units.epsilon) {
                scatter_direction = rec.normal;
            }
            assert(sample.ensures((), s) && s.normalise_spec(*sqrt, unit));
            (*albedo, Ray::new(rec.p, scatter_direction), true)
        },
        Material::Metal { albedo, fuzz } => {
            let s = sample();
            let direction = fuzzy_reflection(r_in.direction, rec.normal, s, *fuzz, units.two);
            let should_scatter = direction.dot(rec.normal) > units.zero;
            assert(sample.ensures((), s));
            (*albedo, Ray::new(rec.p, direction), should_scatter)
        },
        Material::Dielctric { ir } => {
            let refraction_ratio = if rec.front_face {
                units.one / *ir
            } else {
                *ir
            };
            let unit_direction = r_in.direction.normalise(sqrt);
            let cos_theta = min(unit_direction.neg().dot(rec.normal), units.one);
            let sin_theta = sqrt(units.one - cos_theta * cos_theta);
            let cannot_refract = refraction_ratio * sin_theta > units.one;
            let c = coin();
            let chance = schlick(cos_theta, refraction_ratio, units.one, powi);
            let will_reflect = c < chance;
            let direction = if cannot_refract || will_reflect {
                unit_direction.reflect(rec.normal, units.two)
            } else {
                unit_direction.refract(rec.normal, refraction_ratio, units, sqrt)
            };
            assert(cos_theta == cosine_of(unit_direction, rec.normal, units.one));
            assert(refraction_ratio == ratio_of(rec.front_face, *ir, units.one));
            assert(r_in.direction.normalise_spec(*sqrt, unit_direction));
            assert(sqrt.ensures(
                (
                    units.one.sub_spec(
                        cosine_of(unit_direction, rec.normal, units.one).mul_spec(
                            cosine_of(unit_direction, rec.normal, units.one),
                        ),
                    ),
                ),
                sin_theta,
            ));
            assert(schlick_spec(
                cosine_of(unit_direction, rec.normal, units.one),
                ratio_of(rec.front_face, *ir, units.one),
                units.one,
                *powi,
                chance,
            ));
            assert(coin.ensures((), c));
            (Vec3::new(units.one, units.one, units.one), Ray::new(rec.p, direction), true)
        },
    }
}

} // verus!
