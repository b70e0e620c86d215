use crate::material::Material;
use crate::ray::Ray;
use crate::vector::{Dot, Vec3};
use std::ops::{Add, Div, Mul, Neg, Sub};
use vstd::prelude::*;
use vstd::std_specs::ops::{AddSpec, DivSpec, MulSpec, NegSpec, SubSpec};

verus! {

/// One intersection of a ray with a surface.
pub struct HitRecord<T> {
    /// Where the ray struck.
    pub p: Vec3<T>,
    /// The surface normal there, turned against the ray.
    pub normal: Vec3<T>,
    /// The material of the surface.
    pub material: Option<Material<T>>,
    /// The ray's parameter at the hit.
    pub t: T,
    /// Whether the ray struck the surface from outside.
    pub front_face: bool,
}

/// The normal that a record keeps: the outward one where the ray came from
/// outside, its opposite where it came from inside.
pub open spec fn facing_normal<T: Neg<Output = T>>(front_face: bool, outward_normal: Vec3<T>) -> Vec3<T> {
    if front_face {
        outward_normal
    } else {
        outward_normal.neg_spec()
    }
}

/// The inner product of two vectors of integers.
pub open spec fn dot_int(a: Vec3<int>, b: Vec3<int>) -> int {
    a.x * b.x + a.y * b.y + a.z * b.z
}

/// The opposite of a vector of integers.
pub open spec fn neg_int(a: Vec3<int>) -> Vec3<int> {
    Vec3 { x: -a.x, y: -a.y, z: -a.z }
}

/// In exact arithmetic the normal that a record keeps never points along
/// the ray: with `front_face` taken as "the direction has a negative
/// component along the outward normal", the inner product of the kept
/// normal and the direction is at most zero.
pub proof fn lemma_normal_faces_ray(direction: Vec3<int>, outward_normal: Vec3<int>)
    ensures
        dot_int(direction, outward_normal) < 0 ==> dot_int(outward_normal, direction) <= 0,
        !(dot_int(direction, outward_normal) < 0) ==> dot_int(neg_int(outward_normal), direction)
            <= 0,
{
    let d = direction;
    let n = outward_normal;
    assert(dot_int(n, d) == dot_int(d, n)) by (nonlinear_arith)
        requires
            dot_int(n, d) == n.x * d.x + n.y * d.y + n.z * d.z,
            dot_int(d, n) == d.x * n.x + d.y * n.y + d.z * n.z,
    ;
    assert(dot_int(neg_int(n), d) == -dot_int(d, n)) by (nonlinear_arith)
        requires
            dot_int(neg_int(n), d) == (-n.x) * d.x + (-n.y) * d.y + (-n.z) * d.z,
            dot_int(d, n) == d.x * n.x + d.y * n.y + d.z * n.z,
    ;
}

/// In exact arithmetic the mirror image `v - n * 2 * (v . n)` of a vector
/// at a normal of length one keeps the vector's length and turns its
/// component along the normal round.
pub proof fn lemma_reflection_mirrors(v: Vec3<int>, n: Vec3<int>)
    requires
        dot_int(n, n) == 1,
    ensures
        ({
            let r = sub_int(v, scale_int(scale_int(n, 2), dot_int(v, n)));
            dot_int(r, n) == -dot_int(v, n) && dot_int(r, r) == dot_int(v, v)
        }),
{
    let k = dot_int(v, n);
    let a = 2 * k;
    let r = sub_int(v, scale_int(scale_int(n, 2), k));
    assert(n.x * 2 * k == n.x * a && n.y * 2 * k == n.y * a && n.z * 2 * k == n.z * a)
        by (nonlinear_arith)
        requires
            a == 2 * k,
    ;
    let (px, py, pz) = (v.x * n.x, v.y * n.y, v.z * n.z);
    let (qx, qy, qz) = (n.x * n.x, n.y * n.y, n.z * n.z);
    assert(k == px + py + pz);
    assert(qx + qy + qz == 1);
    lemma_mirrored_component(v.x, n.x, a);
    lemma_mirrored_component(v.y, n.y, a);
    lemma_mirrored_component(v.z, n.z, a);
    assert(a * (qx + qy + qz) == a * qx + a * qy + a * qz) by (nonlinear_arith);
    assert(a * (px + py + pz) == a * px + a * py + a * pz) by (nonlinear_arith);
    assert(a * a * (qx + qy + qz) == a * a * qx + a * a * qy + a * a * qz) by (nonlinear_arith);
    assert(dot_int(r, n) == k - a * (qx + qy + qz));
    assert(dot_int(r, r) == dot_int(v, v) - 2 * (a * (px + py + pz)) + a * a * (qx + qy + qz));
    assert(2 * (a * k) == a * a) by (nonlinear_arith)
        requires
            a == 2 * k,
    ;
}

proof fn lemma_mirrored_component(v: int, n: int, a: int)
    ensures
        (v - n * a) * n == v * n - a * (n * n),
        (v - n * a) * (v - n * a) == v * v - 2 * (a * (v * n)) + a * a * (n * n),
{
    assert((v - n * a) * n == v * n - a * (n * n)) by (nonlinear_arith);
    assert((v - n * a) * (v - n * a) == v * v - 2 * (a * (v * n)) + a * a * (n * n))
        by (nonlinear_arith);
}

/// A ball, or with a negative radius a hollow shell whose normals point
/// inwards.
pub struct Sphere<T> {
    pub center: Vec3<T>,
    pub radius: T,
    pub material: Material<T>,
}

impl<T: Copy> Sphere<T> {
    pub fn new(center: Vec3<T>, radius: T, material: Material<T>) -> (s: Self)
        ensures
            s.center == center,
            s.radius == radius,
            s.material == material,
    {
        Sphere { center, radius, material }
    }
}

/// The equation `a t^2 + 2 half_b t + c = 0` whose solutions are the
/// parameters at which a ray's line meets a sphere.
#[derive(Debug, Clone, Copy)]
pub struct Quadratic<T> {
    pub a: T,
    pub half_b: T,
    pub c: T,
}

impl<T: Copy + Mul<Output = T> + Sub<Output = T>> Quadratic<T> {
    /// The quarter of the discriminant: `half_b^2 - a c`. The equation has
    /// no solution where it is negative.
    pub open spec fn discriminant_spec(self) -> T {
        self.half_b.mul_spec(self.half_b).sub_spec(self.a.mul_spec(self.c))
    }

    /// Multiplication keeps to its specification, and the two products
    /// and their difference can be formed.
    pub open spec fn discriminant_req(self) -> bool {
        &&& T::obeys_mul_spec()
        &&& self.half_b.mul_req(self.half_b)
        &&& self.a.mul_req(self.c)
        &&& self.half_b.mul_spec(self.half_b).sub_req(self.a.mul_spec(self.c))
    }

    pub fn discriminant(&self) -> (d: T)
        requires
            self.discriminant_req(),
        ensures
            T::obeys_sub_spec() ==> d == self.discriminant_spec(),
    {
        self.half_b * self.half_b - self.a * self.c
    }
}

impl<T: Copy + Add<Output = T> + Sub<Output = T> + Mul<Output = T> + Div<Output = T>> Sphere<T> {
    /// The equation of the ray's line and this sphere: with `oc` the
    /// vector from the centre to the ray's origin, `a` is the squared
    /// length of the direction, `half_b` the inner product of `oc` and the
    /// direction, and `c` the squared length of `oc` less the squared
    /// radius.
    pub open spec fn quadratic_spec(self, r: Ray<T>) -> Quadratic<T> {
        let oc = r.origin.sub_spec(self.center);
        Quadratic {
            a: r.direction.length_squared_spec(),
            half_b: oc.dot_spec(r.direction),
            c: oc.length_squared_spec().sub_spec(self.radius.mul_spec(self.radius)),
        }
    }

    /// Subtraction keeps to its specification, and every operation of
    /// `quadratic` can be carried out.
    pub open spec fn quadratic_req(self, r: Ray<T>) -> bool {
        let oc = r.origin.sub_spec(self.center);
        &&& T::obeys_sub_spec()
        &&& r.origin.sub_req(self.center)
        &&& r.direction.length_squared_req()
        &&& oc.dot_req(r.direction)
        &&& oc.length_squared_req()
        &&& self.radius.mul_req(self.radius)
        &&& oc.length_squared_spec().sub_req(self.radius.mul_spec(self.radius))
    }

    pub fn quadratic(&self, r: &Ray<T>) -> (q: Quadratic<T>)
        requires
            self.quadratic_req(*r),
        ensures
            q == self.quadratic_spec(*r),
    {
        let oc = r.origin - self.center;
        let a = r.direction.length_squared();
        let half_b = oc.dot(r.direction);
        let c = oc.length_squared() - self.radius * self.radius;
        Quadratic { a, half_b, c }
    }

    /// The normal of the sphere at the point `p` of its surface: the
    /// vector from the centre to `p`, divided by the radius. With a
    /// negative radius it points inwards.
    pub open spec fn outward_normal_spec(self, p: Vec3<T>) -> Vec3<T> {
        p.sub_spec(self.center).div_spec(self.radius)
    }

    /// Subtraction keeps to its specification, and the difference and the
    /// quotient can be formed.
    pub open spec fn outward_normal_req(self, p: Vec3<T>) -> bool {
        &&& T::obeys_sub_spec()
        &&& p.sub_req(self.center)
        &&& p.sub_spec(self.center).div_req(self.radius)
    }

    pub fn outward_normal(&self, p: Vec3<T>) -> (n: Vec3<T>)
        requires
            self.outward_normal_req(p),
        ensures
            T::obeys_div_spec() ==> n == self.outward_normal_spec(p),
    {
        (p - self.center) / self.radius
    }
}

/// The sum of two vectors of integers.
pub open spec fn add_int(a: Vec3<int>, b: Vec3<int>) -> Vec3<int> {
    Vec3 { x: a.x + b.x, y: a.y + b.y, z: a.z + b.z }
}

/// The difference of two vectors of integers.
pub open spec fn sub_int(a: Vec3<int>, b: Vec3<int>) -> Vec3<int> {
    Vec3 { x: a.x - b.x, y: a.y - b.y, z: a.z - b.z }
}

/// A vector of integers, scaled.
pub open spec fn scale_int(a: Vec3<int>, t: int) -> Vec3<int> {
    Vec3 { x: a.x * t, y: a.y * t, z: a.z * t }
}

/// In exact arithmetic the equation of `quadratic` is the equation of the
/// sphere along the ray: for every parameter `t`, the squared distance of
/// the ray's point at `t` from the centre, less the squared radius, is
/// `a t^2 + 2 half_b t + c`. So the point at `t` lies on the sphere
/// exactly where `t` solves the equation.
pub proof fn lemma_quadratic_is_sphere(
    origin: Vec3<int>,
    direction: Vec3<int>,
    center: Vec3<int>,
    radius: int,
    t: int,
)
    ensures
        ({
            let oc = sub_int(origin, center);
            let a = dot_int(direction, direction);
            let half_b = dot_int(oc, direction);
            let c = dot_int(oc, oc) - radius * radius;
            let from_center = sub_int(add_int(origin, scale_int(direction, t)), center);
            dot_int(from_center, from_center) - radius * radius == a * t * t + 2 * half_b * t + c
        }),
{
    let oc = sub_int(origin, center);
    let d = direction;
    let from_center = sub_int(add_int(origin, scale_int(direction, t)), center);
    assert(from_center.x == oc.x + d.x * t);
    assert(from_center.y == oc.y + d.y * t);
    assert(from_center.z == oc.z + d.z * t);
    assert((oc.x + d.x * t) * (oc.x + d.x * t) == oc.x * oc.x + 2 * (oc.x * d.x) * t + (d.x * d.x)
        * t * t) by (nonlinear_arith);
    assert((oc.y + d.y * t) * (oc.y + d.y * t) == oc.y * oc.y + 2 * (oc.y * d.y) * t + (d.y * d.y)
        * t * t) by (nonlinear_arith);
    assert((oc.z + d.z * t) * (oc.z + d.z * t) == oc.z * oc.z + 2 * (oc.z * d.z) * t + (d.z * d.z)
        * t * t) by (nonlinear_arith);
    let a = dot_int(d, d);
    let half_b = dot_int(oc, d);
    assert(a * t * t == (d.x * d.x) * t * t + (d.y * d.y) * t * t + (d.z * d.z) * t * t)
        by (nonlinear_arith)
        requires
            a == d.x * d.x + d.y * d.y + d.z * d.z,
    ;
    assert(2 * half_b * t == 2 * (oc.x * d.x) * t + 2 * (oc.y * d.y) * t + 2 * (oc.z * d.z) * t)
        by (nonlinear_arith)
        requires
            half_b == oc.x * d.x + oc.y * d.y + oc.z * d.z,
    ;
}

/// In exact arithmetic an equation of `quadratic` with a negative
/// discriminant has no solution: a ray's line that has a point on the
/// sphere has a discriminant of at least zero.
pub proof fn lemma_negative_discriminant_misses(a: int, half_b: int, c: int, t: int)
    requires
        a * t * t + 2 * half_b * t + c == 0,
    ensures
        half_b * half_b - a * c >= 0,
{
    let s = a * t + half_b;
    assert(s * s == a * (a * t * t + 2 * half_b * t + c) + (half_b * half_b - a * c))
        by (nonlinear_arith)
        requires
            s == a * t + half_b,
    ;
    assert(a * 0 == 0);
    assert(s * s >= 0) by (nonlinear_arith);
}

proof fn lemma_moved_component(d: int, distance: int)
    ensures
        (-(d * distance)) * d == -(distance * (d * d)),
        (-(d * distance)) * (-(d * distance)) == distance * distance * (d * d),
{
    assert((-(d * distance)) * d == -(distance * (d * d))) by (nonlinear_arith);
    assert((-(d * distance)) * (-(d * distance)) == distance * distance * (d * d))
        by (nonlinear_arith);
}

/// In exact arithmetic, for a ray that passes through the centre of a
/// sphere with a direction of length one, from a point at distance
/// `distance` before the centre: `half_b` is `-distance` and the quarter
/// of the discriminant is the squared radius, so that the two solutions
/// are `distance - |radius|` and `distance + |radius|`; and both solve the
/// equation.
pub proof fn lemma_ray_through_center(
    origin: Vec3<int>,
    direction: Vec3<int>,
    center: Vec3<int>,
    radius: int,
    distance: int,
)
    requires
        dot_int(direction, direction) == 1,
        center == add_int(origin, scale_int(direction, distance)),
    ensures
        ({
            let oc = sub_int(origin, center);
            let a = dot_int(direction, direction);
            let half_b = dot_int(oc, direction);
            let c = dot_int(oc, oc) - radius * radius;
            &&& half_b == -distance
            &&& half_b * half_b - a * c == radius * radius
            &&& a * (distance - radius) * (distance - radius) + 2 * half_b * (distance - radius) + c
                == 0
            &&& a * (distance + radius) * (distance + radius) + 2 * half_b * (distance + radius) + c
                == 0
        }),
{
    let oc = sub_int(origin, center);
    let d = direction;
    assert(oc.x == -(d.x * distance) && oc.y == -(d.y * distance) && oc.z == -(d.z * distance));
    let one = dot_int(d, d);
    let (sx, sy, sz) = (d.x * d.x, d.y * d.y, d.z * d.z);
    lemma_moved_component(d.x, distance);
    lemma_moved_component(d.y, distance);
    lemma_moved_component(d.z, distance);
    assert(distance * (sx + sy + sz) == distance * sx + distance * sy + distance * sz)
        by (nonlinear_arith);
    assert(distance * distance * (sx + sy + sz) == distance * distance * sx + distance * distance
        * sy + distance * distance * sz) by (nonlinear_arith);
    assert(dot_int(oc, d) == -(distance * one));
    assert(dot_int(oc, oc) == distance * distance * one);
    let half_b = dot_int(oc, d);
    let c = dot_int(oc, oc) - radius * radius;
    assert(half_b == -distance);
    assert(c == distance * distance - radius * radius) by (nonlinear_arith)
        requires
            c == distance * distance * one - radius * radius,
            one == 1,
    ;
    assert(half_b * half_b - 1 * c == radius * radius) by (nonlinear_arith)
        requires
            half_b == -distance,
            c == distance * distance - radius * radius,
    ;
    assert(1 * (distance - radius) * (distance - radius) + 2 * half_b * (distance - radius) + c == 0)
        by (nonlinear_arith)
        requires
            half_b == -distance,
            c == distance * distance - radius * radius,
    ;
    assert(1 * (distance + radius) * (distance + radius) + 2 * half_b * (distance + radius) + c == 0)
        by (nonlinear_arith)
        requires
            half_b == -distance,
            c == distance * distance - radius * radius,
    ;
}

/// The surfaces of a scene, in the order in which they are tested.
pub struct HittableList<T> {
    pub objects: Vec<Sphere<T>>,
}

impl<T> HittableList<T> {
    pub fn new(list: Vec<Sphere<T>>) -> (scene: Self)
        ensures
            scene.objects == list,
    {
        HittableList { objects: list }
    }
}

/// Where a ray's line meets one surface, with the parameters taken from a
/// total order: integers that are ordered as the parameters themselves
/// are. Over these the promise of a scene's scan can be stated: the hit
/// it returns is the closest one.
#[derive(Debug, Clone, Copy, PartialEq, Eq, Structural)]
pub enum Crossing {
    /// The line passes the surface by.
    Miss,
    /// The line enters at `near` and leaves at `far`.
    Roots { near: i64, far: i64 },
}

impl Crossing {
    /// The line does not leave before it enters.
    pub open spec fn ordered(self) -> bool {
        match self {
            Crossing::Miss => true,
            Crossing::Roots { near, far } => near <= far,
        }
    }

    /// The hit that counts between `t_min` and `t_max`, both excluded: the
    /// nearer crossing where it lies there, else the farther one where
    /// that does, else none.
    pub open spec fn first_root(self, t_min: int, t_max: int) -> Option<int> {
        match self {
            Crossing::Miss => None,
            Crossing::Roots { near, far } => if t_min < near < t_max {
                Some(near as int)
            } else if t_min < far < t_max {
                Some(far as int)
            } else {
                None
            },
        }
    }
}

/// No surface is hit between `t_min` and `t_max`.
pub open spec fn all_miss(crossings: Seq<Crossing>, t_min: int, t_max: int) -> bool {
    forall|i: int|
        0 <= i < crossings.len() ==> (#[trigger] crossings[i]).first_root(t_min, t_max).is_none()
}

/// Surface `k` is hit at `t`, no surface is hit nearer, and none before
/// `k` in the order of the scene is hit as near.
pub open spec fn is_closest(crossings: Seq<Crossing>, t_min: int, t_max: int, k: int, t: int) -> bool {
    &&& 0 <= k < crossings.len()
    &&& crossings[k].first_root(t_min, t_max) == Some(t)
    &&& forall|i: int|
        0 <= i < crossings.len() ==> match (#[trigger] crossings[i]).first_root(t_min, t_max) {
            Some(u) => t <= u && (i < k ==> t < u),
            None => true,
        }
}

} // verus!
