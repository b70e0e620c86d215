use crate::vector::Vec3;
use std::ops::{Add, Mul};
use vstd::prelude::*;
use vstd::std_specs::ops::{AddSpec, MulSpec};

verus! {

/// A half-line: the points `origin + direction * t`. The direction is not
/// normalised; its length sets the scale of `t`.
#[derive(Debug, Clone, Copy)]
pub struct Ray<T> {
    pub origin: Vec3<T>,
    pub direction: Vec3<T>,
}

impl<T> Ray<T> {
    pub fn new(origin: Vec3<T>, direction: Vec3<T>) -> (r: Ray<T>)
        ensures
            r.origin == origin,
            r.direction == direction,
    {
        Ray { origin, direction }
    }
}

impl<T: Copy + Add<Output = T> + Mul<Output = T>> Ray<T> {
    /// The point of the ray at parameter `t`.
    pub open spec fn at_spec(self, t: T) -> Vec3<T> {
        self.origin.add_spec(self.direction.mul_spec(t))
    }

    /// Multiplication keeps to its specification, and the scaling and the
    /// sum of `at` can both be formed.
    pub open spec fn at_req(self, t: T) -> bool {
        &&& T::obeys_mul_spec()
        &&& self.direction.mul_req(t)
        &&& self.origin.add_req(self.direction.mul_spec(t))
    }

    pub fn at(&self, t: T) -> (p: Vec3<T>)
        requires
            self.at_req(t),
        ensures
            T::obeys_add_spec() ==> p == self.at_spec(t),
    {
        self.origin + self.direction * t
    }
}

} // verus!
