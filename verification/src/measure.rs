use crate::vector::Vec3;
use crate::scene::is_total;
use crate::vector::Dot;
use std::ops::{Add, Div, Mul, Neg, Sub};
use vstd::prelude::*;
use vstd::std_specs::cmp::{PartialOrdIs, PartialOrdSpec};
use vstd::std_specs::ops::{AddSpec, DivSpec, MulSpec, NegSpec, SubSpec};

verus! {

/// The numbers of the component type that the formulas name.
#[derive(Debug, Clone, Copy)]
pub struct Units<T> {
    pub zero: T,
    pub one: T,
    pub two: T,
    /// The bound below which a component counts as zero.
    pub epsilon: T,
}

/// The smaller of two values; the second where they cannot be compared.
pub open spec fn smaller<T: PartialOrd>(a: T, b: T) -> T {
    if a.is_lt(&b) {
        a
    } else {
        b
    }
}

/// The smaller of two values.
pub fn min<T: Copy + PartialOrd>(a: T, b: T) -> (m: T)
    ensures
        T::obeys_partial_cmp_spec() ==> m == smaller(a, b),
{
    if a < b {
        a
    } else {
        b
    }
}

/// The value without its sign: its opposite where it is below zero, and
/// else the value with zero added, which leaves every number as it is and
/// gives a zero the sign of `zero`.
pub open spec fn magnitude<T: PartialOrd + Neg<Output = T> + Add<Output = T>>(a: T, zero: T) -> T {
    if a.is_lt(&zero) {
        a.neg_spec()
    } else {
        a.add_spec(zero)
    }
}

/// The value without its sign; `zero` is the number zero in the component
/// type.
pub fn abs<T: Copy + PartialOrd + Neg<Output = T> + Add<Output = T>>(a: T, zero: T) -> (m: T)
    requires
        a.neg_req(),
        a.add_req(zero),
    ensures
        T::obeys_partial_cmp_spec() && T::obeys_neg_spec() && T::obeys_add_spec() ==> m
            == magnitude(a, zero),
{
    if a < zero {
        a.neg()
    } else {
        a + zero
    }
}

/// The Schlick estimate of how much a clear surface reflects: with `r0`
/// the square of `(1 - ir) / (1 + ir)`, it is
/// `r0 + (1 - r0) (1 - cosine)^5`, the powers being those that `powi`
/// gave.
pub open spec fn schlick_spec<T, P>(cosine: T, ir: T, one: T, powi: P, chance: T) -> bool where
    T: Copy + Add<Output = T> + Sub<Output = T> + Mul<Output = T> + Div<Output = T>,
    P: Fn(T, i32) -> T,
 {
    exists|r0: T, fifth: T|
        (#[trigger] powi.ensures((one.sub_spec(ir).div_spec(one.add_spec(ir)), 2i32), r0)) && (
        #[trigger] powi.ensures((one.sub_spec(cosine), 5i32), fifth)) && chance == r0.add_spec(
            one.sub_spec(r0).mul_spec(fifth),
        )
}

/// The share of light that a clear surface with the ratio `ir` of
/// refractive indices reflects at the angle with cosine `cosine`. `one` is
/// the number one in the component type and `powi` raises to a whole
/// power in it.
pub fn schlick<T, P>(cosine: T, ir: T, one: T, powi: &P) -> (chance: T) where
    T: Copy + Add<Output = T> + Sub<Output = T> + Mul<Output = T> + Div<Output = T> + Neg<
        Output = T,
    > + PartialOrd,
    P: Fn(T, i32) -> T,

    requires
        is_total::<T>(),
        forall|x: T, n: i32| #[trigger] powi.requires((x, n)),
    ensures
        schlick_spec(cosine, ir, one, *powi, chance),
{
    let r0 = powi((one - ir) / (one + ir), 2i32);
    let fifth = powi(one - cosine, 5i32);
    r0 + (one - r0) * fifth
}


impl<T: Copy + Mul<Output = T> + Add<Output = T>> Vec3<T> {
    /// The length of the vector: what `sqrt` gives for the sum of the
    /// squares of the components.
    pub fn length<F: Fn(T) -> T>(&self, sqrt: &F) -> (l: T)
        requires
            self.length_squared_req(),
            sqrt.requires((self.length_squared_spec(),)),
        ensures
            sqrt.ensures((self.length_squared_spec(),), l),
    {
        sqrt(self.length_squared())
    }
}

impl<T: Copy + Mul<Output = T> + Add<Output = T> + Div<Output = T>> Vec3<T> {
    /// `unit` is the vector divided by a length that `sqrt` gave for it.
    pub open spec fn normalise_spec<F: Fn(T) -> T>(self, sqrt: F, unit: Vec3<T>) -> bool {
        exists|l: T|
            (#[trigger] sqrt.ensures((self.length_squared_spec(),), l)) && unit == self.div_spec(l)
    }

    /// The length can be taken, and the vector can be divided by
    /// whatever `sqrt` gives for it.
    pub open spec fn normalise_req<F: Fn(T) -> T>(self, sqrt: F) -> bool {
        &&& self.length_squared_req()
        &&& sqrt.requires((self.length_squared_spec(),))
        &&& forall|l: T| #[trigger]
            sqrt.ensures((self.length_squared_spec(),), l) ==> self.div_req(l)
    }

    /// The vector of the same direction and length one. A vector of
    /// length zero has no direction: dividing by its length gives
    /// whatever the component type makes of a division by zero.
    pub fn normalise<F: Fn(T) -> T>(self, sqrt: &F) -> (unit: Vec3<T>)
        requires
            self.normalise_req(*sqrt),
        ensures
            T::obeys_div_spec() ==> self.normalise_spec(*sqrt, unit),
    {
        self / self.length(sqrt)
    }
}

impl<T: Copy + Neg<Output = T> + PartialOrd> Vec3<T> {
    /// The component lies strictly between `-epsilon` and `epsilon`.
    pub open spec fn tiny(c: T, epsilon: T) -> bool {
        c.is_lt(&epsilon) && c.neg_spec().is_lt(&epsilon)
    }

    /// Every component lies strictly between `-epsilon` and `epsilon`.
    pub open spec fn near_zero_spec(self, epsilon: T) -> bool {
        Self::tiny(self.x, epsilon) && Self::tiny(self.y, epsilon) && Self::tiny(self.z, epsilon)
    }

    /// Whether every component is smaller than `epsilon` in magnitude: a
    /// vector so short that it gives no direction.
    pub fn near_zero(&self, epsilon: T) -> (near: bool)
        requires
            self.x.neg_req(),
            self.y.neg_req(),
            self.z.neg_req(),
        ensures
            T::obeys_neg_spec() && T::obeys_partial_cmp_spec() ==> near == self.near_zero_spec(
                epsilon,
            ),
    {
        self.x < epsilon && self.x.neg() < epsilon && self.y < epsilon && self.y.neg() < epsilon
            && self.z < epsilon && self.z.neg() < epsilon
    }
}

impl<
    T: Copy + Add<Output = T> + Sub<Output = T> + Mul<Output = T> + Div<Output = T> + Neg<
        Output = T,
    > + PartialOrd,
> Vec3<T> {
    /// The part of a refracted direction across the normal: with the
    /// cosine `min(-self . n, 1)`, it is `(self + n * cosine) * eta`.
    pub open spec fn refract_perp(self, n: Vec3<T>, eta: T, one: T) -> Vec3<T> {
        self.add_spec(n.mul_spec(smaller(self.neg_spec().dot_spec(n), one))).mul_spec(eta)
    }

    /// What `sqrt` is asked for in `refract`: `|1 - perp . perp|`.
    pub open spec fn refract_rest(self, n: Vec3<T>, eta: T, units: Units<T>) -> T {
        magnitude(
            units.one.sub_spec(self.refract_perp(n, eta, units.one).length_squared_spec()),
            units.zero,
        )
    }

    /// `out` is the direction of the ray of direction `self`, of length
    /// one, after it has passed a surface with normal `n` and the ratio
    /// `eta` of refractive indices, by Snell's law: the part across the
    /// normal and a part along the normal,
    /// `-n * sqrt(|1 - perp . perp|)`, with a square root that `sqrt`
    /// gave.
    pub open spec fn refract_spec<S: Fn(T) -> T>(
        self,
        n: Vec3<T>,
        eta: T,
        units: Units<T>,
        sqrt: S,
        out: Vec3<T>,
    ) -> bool {
        exists|root: T|
            (#[trigger] sqrt.ensures((self.refract_rest(n, eta, units),), root)) && out
                == self.refract_perp(n, eta, units.one).add_spec(n.mul_spec(root.neg_spec()))
    }

    pub fn refract<S: Fn(T) -> T>(&self, n: Vec3<T>, etai_over_etat: T, units: &Units<T>, sqrt: &S) -> (out:
        Vec3<T>)
        requires
            is_total::<T>(),
            forall|x: T| #[trigger] sqrt.requires((x,)),
        ensures
            self.refract_spec(n, etai_over_etat, *units, *sqrt, out),
    {
        let cos_theta = min(self.neg().dot(n), units.one);
        assert(cos_theta == smaller(self.neg_spec().dot_spec(n), units.one));
        let r_out_perp = (*self + n * cos_theta) * etai_over_etat;
        assert(r_out_perp == self.refract_perp(n, etai_over_etat, units.one));
        let rest = abs(units.one - r_out_perp.length_squared(), units.zero);
        assert(rest == self.refract_rest(n, etai_over_etat, *units));
        let root = sqrt(rest);
        assert(sqrt.ensures((self.refract_rest(n, etai_over_etat, *units),), root));
        let r_out_parallel = n * root.neg();
        r_out_perp + r_out_parallel
    }
}

} // verus!
