use crate::vector::Vec3;
use std::ops::{Div, Mul};
use vstd::prelude::*;
use vstd::std_specs::cmp::{PartialOrdIs, PartialOrdSpec};
use vstd::std_specs::ops::{DivSpec, MulSpec};

verus! {

/// A display colour: red, green and blue, one byte each.
#[derive(Debug, Clone, Copy)]
pub struct Color {
    pub value: Vec3<u8>,
}

impl Color {
    pub fn new(r: u8, g: u8, b: u8) -> (c: Self)
        ensures
            c.value.x == r,
            c.value.y == g,
            c.value.z == b,
    {
        Color { value: Vec3 { x: r, y: g, z: b } }
    }

    /// The three channels in the order red, green, blue.
    pub open spec fn channels(self) -> Seq<u8> {
        seq![self.value.x, self.value.y, self.value.z]
    }

    pub fn to_rgb(&self) -> (rgb: [u8; 3])
        ensures
            rgb@ == self.channels(),
    {
        [self.r(), self.g(), self.b()]
    }

    pub fn r(&self) -> (v: u8)
        ensures
            v == self.value.x,
    {
        self.value.x
    }

    pub fn g(&self) -> (v: u8)
        ensures
            v == self.value.y,
    {
        self.value.y
    }

    pub fn b(&self) -> (v: u8)
        ensures
            v == self.value.z,
    {
        self.value.z
    }
}

/// The value held between `low` and `high`.
pub open spec fn clamped<T: PartialOrd>(x: T, low: T, high: T) -> T {
    if x.is_lt(&low) {
        low
    } else if x.is_gt(&high) {
        high
    } else {
        x
    }
}

/// `level` is a channel of a display colour for the summed light `sum` of
/// `samples` samples: the mean, its square root as `sqrt` gave it (gamma
/// 2), held between `low` and `high`, times `scale`, as the byte that
/// `to_byte` gave for it.
pub open spec fn tone_spec<T, S, B>(
    sum: T,
    samples: T,
    low: T,
    high: T,
    scale: T,
    sqrt: S,
    to_byte: B,
    level: u8,
) -> bool where T: Copy + Mul<Output = T> + Div<Output = T> + PartialOrd, S: Fn(T) -> T, B: Fn(T) -> u8 {
    exists|root: T|
        (#[trigger] sqrt.ensures((sum.div_spec(samples),), root)) && to_byte.ensures(
            (scale.mul_spec(clamped(root, low, high)),),
            level,
        )
}

/// One channel of a display colour from the summed light of `samples`
/// samples.
pub fn tone<T, S, B>(sum: T, samples: T, low: T, high: T, scale: T, sqrt: &S, to_byte: &B) -> (level:
    u8) where T: Copy + Mul<Output = T> + Div<Output = T> + PartialOrd, S: Fn(T) -> T, B: Fn(T) -> u8
    requires
        T::obeys_mul_spec(),
        T::obeys_div_spec(),
        T::obeys_partial_cmp_spec(),
        forall|a: T, b: T| #[trigger] a.mul_req(b),
        forall|a: T, b: T| #[trigger] a.div_req(b),
        forall|x: T| #[trigger] sqrt.requires((x,)),
        forall|x: T| #[trigger] to_byte.requires((x,)),
    ensures
        tone_spec(sum, samples, low, high, scale, *sqrt, *to_byte, level),
{
    let root = sqrt(sum / samples);
    let held = if root < low {
        low
    } else if root > high {
        high
    } else {
        root
    };
    to_byte(scale * held)
}

impl Color {
    /// The display colour for three levels of light between zero and one:
    /// each is scaled by `scale` and turned into the byte that `to_byte`
    /// gives for it.
    pub fn from_f32<T, B>(r: T, g: T, b: T, scale: T, to_byte: &B) -> (c: Color) where
        T: Copy + Mul<Output = T>,
        B: Fn(T) -> u8,

        requires
            T::obeys_mul_spec(),
            forall|a: T, b: T| #[trigger] a.mul_req(b),
            forall|x: T| #[trigger] to_byte.requires((x,)),
        ensures
            to_byte.ensures((scale.mul_spec(r),), c.value.x),
            to_byte.ensures((scale.mul_spec(g),), c.value.y),
            to_byte.ensures((scale.mul_spec(b),), c.value.z),
    {
        let red = to_byte(scale * r);
        let green = to_byte(scale * g);
        let blue = to_byte(scale * b);
        Color::new(red, green, blue)
    }

    /// The display colour for the summed light of `samples` samples: each
    /// channel is averaged, gamma-corrected, held between `low` and
    /// `high` and scaled by `scale`.
    pub fn from_vec3_float<T, S, B>(
        value: Vec3<T>,
        samples: T,
        low: T,
        high: T,
        scale: T,
        sqrt: &S,
        to_byte: &B,
    ) -> (c: Color) where
        T: Copy + Mul<Output = T> + Div<Output = T> + PartialOrd,
        S: Fn(T) -> T,
        B: Fn(T) -> u8,

        requires
            T::obeys_mul_spec(),
            T::obeys_div_spec(),
            T::obeys_partial_cmp_spec(),
            forall|a: T, b: T| #[trigger] a.mul_req(b),
            forall|a: T, b: T| #[trigger] a.div_req(b),
            forall|x: T| #[trigger] sqrt.requires((x,)),
            forall|x: T| #[trigger] to_byte.requires((x,)),
        ensures
            tone_spec(value.x, samples, low, high, scale, *sqrt, *to_byte, c.value.x),
            tone_spec(value.y, samples, low, high, scale, *sqrt, *to_byte, c.value.y),
            tone_spec(value.z, samples, low, high, scale, *sqrt, *to_byte, c.value.z),
    {
        let r = tone(value.x, samples, low, high, scale, sqrt, to_byte);
        let g = tone(value.y, samples, low, high, scale, sqrt, to_byte);
        let b = tone(value.z, samples, low, high, scale, sqrt, to_byte);
        Color::new(r, g, b)
    }
}

} // verus!
