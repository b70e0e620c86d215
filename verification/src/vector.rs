use std::ops::{Add, Div, Mul, Neg, Rem, Sub};
use vstd::prelude::*;
use vstd::std_specs::ops::{AddSpec, DivSpec, MulSpec, NegSpec, RemSpec, SubSpec};

verus! {

/// Inner product of two values.
///
/// `dot_req` says when the product may be taken, `dot_spec` what it is.
pub trait Dot<RHS = Self>: Sized {
    type Output;

    spec fn dot_req(self, rhs: RHS) -> bool;

    spec fn dot_spec(self, rhs: RHS) -> Self::Output;

    fn dot(self, rhs: RHS) -> (r: Self::Output)
        requires
            self.dot_req(rhs),
        ensures
            r == self.dot_spec(rhs),
    ;
}

/// A triple of components of one type: a point, a direction or a colour,
/// depending on the caller.
#[derive(Debug, Clone, Copy)]
pub struct Vec3<T> {
    pub x: T,
    pub y: T,
    pub z: T,
}

impl<T> Vec3<T> {
    pub fn new(x: T, y: T, z: T) -> (r: Self)
        ensures
            r.x == x,
            r.y == y,
            r.z == z,
    {
        Vec3 { x, y, z }
    }
}

impl<T: Copy + Mul<Output = T> + Sub<Output = T>> Vec3<T> {
    /// Multiplication keeps to its specification, the six products of the
    /// cross product can be formed, and so can the three differences of them.
    pub open spec fn cross_req(self, other: Vec3<T>) -> bool {
        &&& T::obeys_mul_spec()
        &&& self.y.mul_req(other.z)
        &&& self.z.mul_req(other.y)
        &&& self.z.mul_req(other.x)
        &&& self.x.mul_req(other.z)
        &&& self.x.mul_req(other.y)
        &&& self.y.mul_req(other.x)
        &&& self.y.mul_spec(other.z).sub_req(self.z.mul_spec(other.y))
        &&& self.z.mul_spec(other.x).sub_req(self.x.mul_spec(other.z))
        &&& self.x.mul_spec(other.y).sub_req(self.y.mul_spec(other.x))
    }

    /// The cross product `self × other`, component by component.
    pub open spec fn cross_spec(self, other: Vec3<T>) -> Vec3<T> {
        Vec3 {
            x: self.y.mul_spec(other.z).sub_spec(self.z.mul_spec(other.y)),
            y: self.z.mul_spec(other.x).sub_spec(self.x.mul_spec(other.z)),
            z: self.x.mul_spec(other.y).sub_spec(self.y.mul_spec(other.x)),
        }
    }

    pub fn cross(&self, other: Vec3<T>) -> (r: Vec3<T>)
        requires
            self.cross_req(other),
        ensures
            T::obeys_sub_spec() ==> r == self.cross_spec(other),
    {
        Vec3 {
            x: self.y * other.z - self.z * other.y,
            y: self.z * other.x - self.x * other.z,
            z: self.x * other.y - self.y * other.x,
        }
    }
}

impl<T: Copy + Mul<Output = T>> Vec3<T> {
    /// The three products can be formed.
    pub open spec fn modulate_req(self, other: Vec3<T>) -> bool {
        self.x.mul_req(other.x) && self.y.mul_req(other.y) && self.z.mul_req(other.z)
    }

    /// The product component by component.
    pub open spec fn modulate_spec(self, other: Vec3<T>) -> Vec3<T> {
        Vec3 {
            x: self.x.mul_spec(other.x),
            y: self.y.mul_spec(other.y),
            z: self.z.mul_spec(other.z),
        }
    }

    /// The product component by component: a colour dimmed by an
    /// attenuation.
    pub fn modulate(&self, other: Vec3<T>) -> (r: Vec3<T>)
        requires
            self.modulate_req(other),
        ensures
            T::obeys_mul_spec() ==> r == self.modulate_spec(other),
    {
        Vec3 { x: self.x * other.x, y: self.y * other.y, z: self.z * other.z }
    }
}

impl<T: Copy + Mul<Output = T> + Add<Output = T> + Sub<Output = T>> Vec3<T> {
    /// The mirror image of the vector at a surface with normal `n`:
    /// `self - n * two * (self . n)`.
    pub open spec fn reflect_spec(self, n: Vec3<T>, two: T) -> Vec3<T> {
        self.sub_spec(n.mul_spec(two).mul_spec(self.dot_spec(n)))
    }

    /// The operators keep to their specifications, and every operation of
    /// `reflect` can be carried out.
    pub open spec fn reflect_req(self, n: Vec3<T>, two: T) -> bool {
        &&& T::obeys_sub_spec()
        &&& self.dot_req(n)
        &&& n.mul_req(two)
        &&& n.mul_spec(two).mul_req(self.dot_spec(n))
        &&& self.sub_req(n.mul_spec(two).mul_spec(self.dot_spec(n)))
    }

    /// The mirror image of the vector at a surface with normal `n`; `two`
    /// is the number two in the component type.
    pub fn reflect(&self, n: Vec3<T>, two: T) -> (r: Vec3<T>)
        requires
            self.reflect_req(n, two),
        ensures
            r == self.reflect_spec(n, two),
    {
        *self - n * two * self.dot(n)
    }
}

impl<T: Copy + Mul<Output = A>, A: Add<Output = A>> Vec3<T> {
    /// The operators keep to their specifications, and the three squares
    /// can be formed and added up.
    pub open spec fn length_squared_req(self) -> bool {
        &&& T::obeys_mul_spec()
        &&& A::obeys_add_spec()
        &&& self.x.mul_req(self.x)
        &&& self.y.mul_req(self.y)
        &&& self.z.mul_req(self.z)
        &&& self.x.mul_spec(self.x).add_req(self.y.mul_spec(self.y))
        &&& self.x.mul_spec(self.x).add_spec(self.y.mul_spec(self.y)).add_req(
            self.z.mul_spec(self.z),
        )
    }

    /// The sum of the squares of the components.
    pub open spec fn length_squared_spec(self) -> A {
        self.x.mul_spec(self.x).add_spec(self.y.mul_spec(self.y)).add_spec(self.z.mul_spec(self.z))
    }

    pub fn length_squared(&self) -> (r: A)
        requires
            self.length_squared_req(),
        ensures
            r == self.length_squared_spec(),
    {
        self.x * self.x + self.y * self.y + self.z * self.z
    }
}

impl<T: Mul<U>, U: Copy> Dot<Vec3<U>> for Vec3<T> where
    <T as Mul<U>>::Output: Add<Output = <T as Mul<U>>::Output>,
 {
    type Output = <T as Mul<U>>::Output;

    open spec fn dot_req(self, rhs: Vec3<U>) -> bool {
        &&& T::obeys_mul_spec()
        &&& <T as Mul<U>>::Output::obeys_add_spec()
        &&& self.x.mul_req(rhs.x)
        &&& self.y.mul_req(rhs.y)
        &&& self.z.mul_req(rhs.z)
        &&& self.x.mul_spec(rhs.x).add_req(self.y.mul_spec(rhs.y))
        &&& self.x.mul_spec(rhs.x).add_spec(self.y.mul_spec(rhs.y)).add_req(
            self.z.mul_spec(rhs.z),
        )
    }

    open spec fn dot_spec(self, rhs: Vec3<U>) -> Self::Output {
        self.x.mul_spec(rhs.x).add_spec(self.y.mul_spec(rhs.y)).add_spec(self.z.mul_spec(rhs.z))
    }

    fn dot(self, other: Vec3<U>) -> (r: Self::Output) {
        self.x * other.x + self.y * other.y + self.z * other.z
    }
}

impl<T: Neg> vstd::std_specs::ops::NegSpecImpl for Vec3<T> {
    open spec fn obeys_neg_spec() -> bool {
        T::obeys_neg_spec()
    }

    open spec fn neg_req(self) -> bool {
        self.x.neg_req() && self.y.neg_req() && self.z.neg_req()
    }

    open spec fn neg_spec(self) -> Self::Output {
        Vec3 { x: self.x.neg_spec(), y: self.y.neg_spec(), z: self.z.neg_spec() }
    }
}

impl<T: Neg> Neg for Vec3<T> {
    type Output = Vec3<<T as Neg>::Output>;

    fn neg(self) -> Self::Output {
        Vec3 { x: self.x.neg(), y: self.y.neg(), z: self.z.neg() }
    }
}

impl<T: Add<S>, S: Copy> vstd::std_specs::ops::AddSpecImpl<Vec3<S>> for Vec3<T> {
    open spec fn obeys_add_spec() -> bool {
        T::obeys_add_spec()
    }

    open spec fn add_req(self, rhs: Vec3<S>) -> bool {
        self.x.add_req(rhs.x) && self.y.add_req(rhs.y) && self.z.add_req(rhs.z)
    }

    open spec fn add_spec(self, rhs: Vec3<S>) -> Self::Output {
        Vec3 { x: self.x.add_spec(rhs.x), y: self.y.add_spec(rhs.y), z: self.z.add_spec(rhs.z) }
    }
}

impl<T: Add<S>, S: Copy> Add<Vec3<S>> for Vec3<T> {
    type Output = Vec3<<T as Add<S>>::Output>;

    fn add(self, other: Vec3<S>) -> Self::Output {
        Vec3 { x: self.x + other.x, y: self.y + other.y, z: self.z + other.z }
    }
}

impl<T: Sub<S>, S: Copy> vstd::std_specs::ops::SubSpecImpl<Vec3<S>> for Vec3<T> {
    open spec fn obeys_sub_spec() -> bool {
        T::obeys_sub_spec()
    }

    open spec fn sub_req(self, rhs: Vec3<S>) -> bool {
        self.x.sub_req(rhs.x) && self.y.sub_req(rhs.y) && self.z.sub_req(rhs.z)
    }

    open spec fn sub_spec(self, rhs: Vec3<S>) -> Self::Output {
        Vec3 { x: self.x.sub_spec(rhs.x), y: self.y.sub_spec(rhs.y), z: self.z.sub_spec(rhs.z) }
    }
}

impl<T: Sub<S>, S: Copy> Sub<Vec3<S>> for Vec3<T> {
    type Output = Vec3<<T as Sub<S>>::Output>;

    fn sub(self, other: Vec3<S>) -> Self::Output {
        Vec3 { x: self.x - other.x, y: self.y - other.y, z: self.z - other.z }
    }
}

impl<T: Mul<S>, S: Copy> vstd::std_specs::ops::MulSpecImpl<S> for Vec3<T> {
    open spec fn obeys_mul_spec() -> bool {
        T::obeys_mul_spec()
    }

    open spec fn mul_req(self, rhs: S) -> bool {
        self.x.mul_req(rhs) && self.y.mul_req(rhs) && self.z.mul_req(rhs)
    }

    open spec fn mul_spec(self, rhs: S) -> Self::Output {
        Vec3 { x: self.x.mul_spec(rhs), y: self.y.mul_spec(rhs), z: self.z.mul_spec(rhs) }
    }
}

impl<T: Mul<S>, S: Copy> Mul<S> for Vec3<T> {
    type Output = Vec3<<T as Mul<S>>::Output>;

    fn mul(self, scalar: S) -> Self::Output {
        Vec3 { x: self.x * scalar, y: self.y * scalar, z: self.z * scalar }
    }
}

impl<T: Div<S>, S: Copy> vstd::std_specs::ops::DivSpecImpl<S> for Vec3<T> {
    open spec fn obeys_div_spec() -> bool {
        T::obeys_div_spec()
    }

    open spec fn div_req(self, rhs: S) -> bool {
        self.x.div_req(rhs) && self.y.div_req(rhs) && self.z.div_req(rhs)
    }

    open spec fn div_spec(self, rhs: S) -> Self::Output {
        Vec3 { x: self.x.div_spec(rhs), y: self.y.div_spec(rhs), z: self.z.div_spec(rhs) }
    }
}

impl<T: Div<S>, S: Copy> Div<S> for Vec3<T> {
    type Output = Vec3<<T as Div<S>>::Output>;

    fn div(self, scalar: S) -> Self::Output {
        Vec3 { x: self.x / scalar, y: self.y / scalar, z: self.z / scalar }
    }
}

impl<T: Rem<S>, S: Copy> vstd::std_specs::ops::RemSpecImpl<S> for Vec3<T> {
    open spec fn obeys_rem_spec() -> bool {
        T::obeys_rem_spec()
    }

    open spec fn rem_req(self, rhs: S) -> bool {
        self.x.rem_req(rhs) && self.y.rem_req(rhs) && self.z.rem_req(rhs)
    }

    open spec fn rem_spec(self, rhs: S) -> Self::Output {
        Vec3 { x: self.x.rem_spec(rhs), y: self.y.rem_spec(rhs), z: self.z.rem_spec(rhs) }
    }
}

impl<T: Rem<S>, S: Copy> Rem<S> for Vec3<T> {
    type Output = Vec3<<T as Rem<S>>::Output>;

    fn rem(self, scalar: S) -> Self::Output {
        Vec3 { x: self.x % scalar, y: self.y % scalar, z: self.z % scalar }
    }
}

} // verus!
