use crate::geometry::{
    add_int, dot_int, facing_normal, lemma_negative_discriminant_misses, lemma_normal_faces_ray,
    lemma_quadratic_is_sphere, lemma_ray_through_center, lemma_reflection_mirrors, neg_int,
    scale_int, sub_int, HitRecord, Sphere,
};
use crate::ray::Ray;
use crate::vector::{Dot, Vec3};
use vstd::prelude::*;
use vstd::std_specs::ops::{AddSpec, MulSpec, NegSpec, SubSpec};

verus! {

/// The vector as one of integers.
pub open spec fn ints(v: Vec3<i64>) -> Vec3<int> {
    Vec3 { x: v.x as int, y: v.y as int, z: v.z as int }
}

/// No component of the vector is beyond `bound` in magnitude.
pub open spec fn small(v: Vec3<i64>, bound: int) -> bool {
    -bound <= v.x <= bound && -bound <= v.y <= bound && -bound <= v.z <= bound
}

/// A product of two numbers is within the product of their bounds.
pub proof fn lemma_product_bound(x: int, y: int, a: int, b: int)
    requires
        -a <= x <= a,
        -b <= y <= b,
    ensures
        -(a * b) <= x * y <= a * b,
{
    assert(-(a * b) <= x * y <= a * b) by (nonlinear_arith)
        requires
            -a <= x <= a,
            -b <= y <= b,
    ;
}

/// Over `i64` the inner product of two vectors within a million is the
/// inner product of the integers: nothing is cut off.
pub proof fn lemma_dot_is_exact(a: Vec3<i64>, b: Vec3<i64>)
    requires
        small(a, 1_000_000),
        small(b, 1_000_000),
    ensures
        a.dot_spec(b) == dot_int(ints(a), ints(b)),
        a.dot_req(b),
        -3_000_000_000_000 <= a.dot_spec(b) <= 3_000_000_000_000,
{
    lemma_product_bound(a.x as int, b.x as int, 1_000_000, 1_000_000);
    lemma_product_bound(a.y as int, b.y as int, 1_000_000, 1_000_000);
    lemma_product_bound(a.z as int, b.z as int, 1_000_000, 1_000_000);
}

/// The normal that a record keeps never points along the ray: for a ray
/// and an outward normal over `i64` within a million, the inner product
/// of the ray's direction and the normal that `set_face_normal` keeps is
/// at most zero.
pub proof fn lemma_kept_normal_faces_ray(r: Ray<i64>, outward_normal: Vec3<i64>)
    requires
        small(r.direction, 1_000_000),
        small(outward_normal, 1_000_000),
    ensures
        r.direction.dot_spec(
            facing_normal(HitRecord::<i64>::faces(r, outward_normal, 0i64), outward_normal),
        ) <= 0,
{
    let d = r.direction;
    let n = outward_normal;
    lemma_dot_is_exact(d, n);
    lemma_normal_faces_ray(ints(d), ints(n));
    let back = n.neg_spec();
    assert(ints(back) == neg_int(ints(n)));
    lemma_dot_is_exact(d, back);
    assert(dot_int(ints(d), neg_int(ints(n))) == -dot_int(ints(d), ints(n))) by (nonlinear_arith)
        requires
            dot_int(ints(d), neg_int(ints(n))) == d.x * (-n.x) + d.y * (-n.y) + d.z * (-n.z),
            dot_int(ints(d), ints(n)) == d.x * n.x + d.y * n.y + d.z * n.z,
    ;
}

/// Over `i64`, for vectors within a thousand, the mirror image that
/// `reflect` gives at a normal of length one keeps the vector's length
/// and turns its component along the normal round.
pub proof fn lemma_reflect_mirrors(v: Vec3<i64>, n: Vec3<i64>)
    requires
        small(v, 1000),
        small(n, 1000),
        n.dot_spec(n) == 1,
    ensures
        v.reflect_req(n, 2i64),
        v.reflect_spec(n, 2i64).dot_spec(n) == -v.dot_spec(n),
        v.reflect_spec(n, 2i64).length_squared_spec() == v.length_squared_spec(),
{
    lemma_dot_is_exact(v, n);
    lemma_dot_is_exact(n, n);
    lemma_dot_is_exact(v, v);
    assert(small(n, 1)) by (nonlinear_arith)
        requires
            n.x * n.x + n.y * n.y + n.z * n.z == 1,
    ;
    let k = v.dot_spec(n);
    lemma_product_bound(v.x as int, n.x as int, 1000, 1);
    lemma_product_bound(v.y as int, n.y as int, 1000, 1);
    lemma_product_bound(v.z as int, n.z as int, 1000, 1);
    assert(-3000 <= k <= 3000);
    let twice = n.mul_spec(2i64);
    assert(ints(twice) == scale_int(ints(n), 2));
    lemma_product_bound(twice.x as int, k as int, 2, 3000);
    lemma_product_bound(twice.y as int, k as int, 2, 3000);
    lemma_product_bound(twice.z as int, k as int, 2, 3000);
    let step = twice.mul_spec(k);
    assert(ints(step) == scale_int(scale_int(ints(n), 2), k as int));
    let r = v.reflect_spec(n, 2i64);
    assert(r == v.sub_spec(step));
    assert(ints(r) == sub_int(ints(v), scale_int(scale_int(ints(n), 2), dot_int(ints(v), ints(n)))));
    assert(small(r, 1_000_000));
    lemma_reflection_mirrors(ints(v), ints(n));
    lemma_dot_is_exact(r, n);
    lemma_dot_is_exact(r, r);
}

/// Everything that the equation of a sphere and a ray is made of lies
/// within a hundred.
pub open spec fn small_scene(s: Sphere<i64>, r: Ray<i64>) -> bool {
    &&& small(s.center, 100)
    &&& small(r.origin, 100)
    &&& small(r.direction, 100)
    &&& -100 <= s.radius <= 100
}

/// Over `i64`, within a hundred, `quadratic` and `discriminant` cut
/// nothing off: their results are those of the integers.
pub proof fn lemma_quadratic_is_exact(s: Sphere<i64>, r: Ray<i64>)
    requires
        small_scene(s, r),
    ensures
        s.quadratic_req(r),
        s.quadratic_spec(r).discriminant_req(),
        ({
            let q = s.quadratic_spec(r);
            let oc = sub_int(ints(r.origin), ints(s.center));
            &&& q.a == dot_int(ints(r.direction), ints(r.direction))
            &&& q.half_b == dot_int(oc, ints(r.direction))
            &&& q.c == dot_int(oc, oc) - s.radius * s.radius
            &&& q.discriminant_spec() == q.half_b * q.half_b - q.a * q.c
        }),
{
    let oc = r.origin.sub_spec(s.center);
    assert(ints(oc) == sub_int(ints(r.origin), ints(s.center)));
    assert(small(oc, 200));
    lemma_dot_is_exact(r.direction, r.direction);
    lemma_dot_is_exact(oc, r.direction);
    lemma_dot_is_exact(oc, oc);
    lemma_product_bound(s.radius as int, s.radius as int, 100, 100);
    lemma_product_bound(oc.x as int, oc.x as int, 200, 200);
    lemma_product_bound(oc.y as int, oc.y as int, 200, 200);
    lemma_product_bound(oc.z as int, oc.z as int, 200, 200);
    lemma_product_bound(oc.x as int, r.direction.x as int, 200, 100);
    lemma_product_bound(oc.y as int, r.direction.y as int, 200, 100);
    lemma_product_bound(oc.z as int, r.direction.z as int, 200, 100);
    lemma_product_bound(r.direction.x as int, r.direction.x as int, 100, 100);
    lemma_product_bound(r.direction.y as int, r.direction.y as int, 100, 100);
    lemma_product_bound(r.direction.z as int, r.direction.z as int, 100, 100);
    let q = s.quadratic_spec(r);
    assert(q.a == dot_int(ints(r.direction), ints(r.direction)));
    assert(q.half_b == dot_int(ints(oc), ints(r.direction)));
    assert(q.c == dot_int(ints(oc), ints(oc)) - s.radius * s.radius);
    assert(-30_000 <= q.a <= 30_000);
    assert(-60_000 <= q.half_b <= 60_000);
    assert(-130_000 <= q.c <= 130_000);
    lemma_product_bound(q.half_b as int, q.half_b as int, 60_000, 60_000);
    lemma_product_bound(q.a as int, q.c as int, 30_000, 130_000);
}

/// Over `i64`, within a hundred, the equation that `quadratic` gives is
/// the equation of the sphere along the ray: the point of the ray at `t`
/// lies on the sphere exactly where `t` solves `a t^2 + 2 half_b t + c =
/// 0`, and where some `t` solves it the discriminant is at least zero,
/// so that `hit`, which reports nothing for a discriminant below zero,
/// misses no point of the sphere.
pub proof fn lemma_quadratic_meets_sphere(s: Sphere<i64>, r: Ray<i64>, t: i64)
    requires
        small_scene(s, r),
        -1000 <= t <= 1000,
    ensures
        s.quadratic_req(r),
        s.quadratic_spec(r).discriminant_req(),
        r.at_req(t),
        ({
            let q = s.quadratic_spec(r);
            let from_center = r.at_spec(t).sub_spec(s.center);
            &&& (q.a * t * t + 2 * q.half_b * t + q.c == 0 <==> from_center.length_squared_spec()
                == s.radius * s.radius)
            &&& (q.a * t * t + 2 * q.half_b * t + q.c == 0 ==> q.discriminant_spec() >= 0)
        }),
{
    lemma_quadratic_is_exact(s, r);
    let q = s.quadratic_spec(r);
    lemma_product_bound(r.direction.x as int, t as int, 100, 1000);
    lemma_product_bound(r.direction.y as int, t as int, 100, 1000);
    lemma_product_bound(r.direction.z as int, t as int, 100, 1000);
    let moved = r.direction.mul_spec(t);
    assert(ints(moved) == scale_int(ints(r.direction), t as int));
    let p = r.at_spec(t);
    assert(ints(p) == add_int(ints(r.origin), scale_int(ints(r.direction), t as int)));
    let from_center = p.sub_spec(s.center);
    assert(ints(from_center) == sub_int(ints(p), ints(s.center)));
    assert(small(from_center, 1_000_000));
    lemma_dot_is_exact(from_center, from_center);
    assert(from_center.length_squared_spec() == dot_int(ints(from_center), ints(from_center)));
    lemma_quadratic_is_sphere(ints(r.origin), ints(r.direction), ints(s.center), s.radius as int, t as int);
    if q.a * t * t + 2 * q.half_b * t + q.c == 0 {
        lemma_negative_discriminant_misses(q.a as int, q.half_b as int, q.c as int, t as int);
    }
}

/// Over `i64`, within a hundred, for a ray with a direction of length
/// one that passes through the centre of a sphere at parameter
/// `distance`: the discriminant that `quadratic` gives is the squared
/// radius and `half_b` is `-distance`, so that the two solutions are
/// `distance - |radius|` and `distance + |radius|`.
pub proof fn lemma_hit_through_center(s: Sphere<i64>, r: Ray<i64>, distance: i64)
    requires
        small_scene(s, r),
        -1000 <= distance <= 1000,
        r.direction.dot_spec(r.direction) == 1,
        s.center == r.at_spec(distance),
    ensures
        s.quadratic_spec(r).a == 1,
        s.quadratic_spec(r).half_b == -distance,
        s.quadratic_spec(r).discriminant_spec() == s.radius * s.radius,
{
    lemma_quadratic_is_exact(s, r);
    lemma_product_bound(r.direction.x as int, distance as int, 100, 1000);
    lemma_product_bound(r.direction.y as int, distance as int, 100, 1000);
    lemma_product_bound(r.direction.z as int, distance as int, 100, 1000);
    let moved = r.direction.mul_spec(distance);
    assert(ints(moved) == scale_int(ints(r.direction), distance as int));
    assert(ints(s.center) == add_int(ints(r.origin), scale_int(ints(r.direction), distance as int)));
    lemma_ray_through_center(
        ints(r.origin),
        ints(r.direction),
        ints(s.center),
        s.radius as int,
        distance as int,
    );
}

} // verus!
