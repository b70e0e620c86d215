use crate::camera::can_compute;
use crate::geometry::{all_miss, facing_normal, is_closest, Crossing, HitRecord, HittableList, Sphere};
use crate::ray::Ray;
use crate::vector::{Dot, Vec3};
use std::ops::{Add, Div, Mul, Neg, Sub};
use vstd::prelude::*;
use vstd::std_specs::cmp::{PartialOrdIs, PartialOrdSpec};
use vstd::std_specs::ops::{AddSpec, DivSpec, MulSpec, NegSpec, SubSpec};

verus! {

/// The component type computes and compares as it specifies, and each of
/// its operations can be carried out on all of its values.
pub open spec fn is_total<
    T: Add<Output = T> + Sub<Output = T> + Mul<Output = T> + Div<Output = T> + Neg<Output = T>
        + PartialOrd,
>() -> bool {
    can_compute::<T>() && T::obeys_partial_cmp_spec()
}

/// The upper bound for the next surface: the parameter of the hit found
/// so far, or `t_max` where there is none yet.
pub open spec fn closest_of<T>(found: Option<HitRecord<T>>, t_max: T) -> T {
    match found {
        Some(rec) => rec.t,
        None => t_max,
    }
}

impl<T: Copy + Add<Output = T> + Mul<Output = T> + Neg<Output = T> + PartialOrd> HitRecord<T> {
    /// The ray strikes the surface from outside: its direction has a
    /// negative component along the outward normal.
    pub open spec fn faces(r: Ray<T>, outward_normal: Vec3<T>, zero: T) -> bool {
        r.direction.dot_spec(outward_normal).is_lt(&zero)
    }

    /// Records the side that the ray struck and turns the normal against
    /// the ray. `zero` is the number zero in the component type.
    pub fn set_face_normal(&mut self, r: &Ray<T>, outward_normal: Vec3<T>, zero: T)
        requires
            r.direction.dot_req(outward_normal),
            outward_normal.neg_req(),
            T::obeys_neg_spec(),
            T::obeys_partial_cmp_spec(),
        ensures
            final(self).front_face == Self::faces(*r, outward_normal, zero),
            final(self).normal == facing_normal(final(self).front_face, outward_normal),
            final(self).p == old(self).p,
            final(self).t == old(self).t,
            final(self).material == old(self).material,
    {
        self.front_face = r.direction.dot(outward_normal) < zero;
        self.normal = if self.front_face {
            outward_normal
        } else {
            outward_normal.neg()
        };
    }
}

impl<
    T: Copy + Add<Output = T> + Sub<Output = T> + Mul<Output = T> + Div<Output = T> + Neg<
        Output = T,
    > + PartialOrd,
> Sphere<T> {
    /// The parameter does not lie between `t_min` and `t_max`.
    pub open spec fn outside(t: T, t_min: T, t_max: T) -> bool {
        t.is_le(&t_min) || t_max.is_le(&t)
    }

    /// The parameter of the hit that counts, given the square root of the
    /// discriminant: the smaller solution where it lies between `t_min`
    /// and `t_max`, else the larger one where that does, else none.
    pub open spec fn root_spec(self, r: Ray<T>, t_min: T, t_max: T, sqrtd: T) -> Option<T> {
        let q = self.quadratic_spec(r);
        let near = q.half_b.neg_spec().sub_spec(sqrtd).div_spec(q.a);
        let far = q.half_b.neg_spec().add_spec(sqrtd).div_spec(q.a);
        if !Self::outside(near, t_min, t_max) {
            Some(near)
        } else if !Self::outside(far, t_min, t_max) {
            Some(far)
        } else {
            None
        }
    }

    /// The record of the hit at parameter `root`: the point of the ray
    /// there, the side that was struck, the normal turned against the
    /// ray, and the sphere's material.
    pub open spec fn record_spec(self, r: Ray<T>, root: T, zero: T) -> HitRecord<T> {
        let p = r.at_spec(root);
        let outward_normal = self.outward_normal_spec(p);
        let front_face = r.direction.dot_spec(outward_normal).is_lt(&zero);
        HitRecord {
            p,
            normal: facing_normal(front_face, outward_normal),
            material: Some(self.material),
            t: root,
            front_face,
        }
    }

    /// `found` is what a ray strikes of this sphere between `t_min` and
    /// `t_max`: nothing where the discriminant is below zero, else the hit
    /// at the root that counts for a square root that `sqrt` gave.
    pub open spec fn hit_spec<F: Fn(T) -> T>(
        self,
        r: Ray<T>,
        t_min: T,
        t_max: T,
        zero: T,
        sqrt: F,
        found: Option<HitRecord<T>>,
    ) -> bool {
        let discriminant = self.quadratic_spec(r).discriminant_spec();
        if discriminant.is_lt(&zero) {
            found.is_none()
        } else {
            exists|sqrtd: T|
                (#[trigger] sqrt.ensures((discriminant,), sqrtd)) && found == match self.root_spec(
                    r,
                    t_min,
                    t_max,
                    sqrtd,
                ) {
                    Some(root) => Some(self.record_spec(r, root, zero)),
                    None => None,
                }
        }
    }

    /// The nearest point between `t_min` and `t_max`, both excluded, at
    /// which the ray strikes the sphere. `zero` is the number zero in the
    /// component type and `sqrt` takes square roots in it.
    pub fn hit<F: Fn(T) -> T>(&self, r: &Ray<T>, t_min: T, t_max: T, zero: T, sqrt: &F) -> (found:
        Option<HitRecord<T>>)
        requires
            is_total::<T>(),
            forall|x: T| #[trigger] sqrt.requires((x,)),
        ensures
            self.hit_spec(*r, t_min, t_max, zero, *sqrt, found),
    {
        let q = self.quadratic(r);
        let discriminant = q.discriminant();
        if discriminant < zero {
            return None;
        }
        let sqrtd = sqrt(discriminant);

        let mut root = (q.half_b.neg() - sqrtd) / q.a;
        if root <= t_min || t_max <= root {
            root = (q.half_b.neg() + sqrtd) / q.a;
            if root <= t_min || t_max <= root {
                return None;
            }
        }
        let p = r.at(root);
        let mut rec = HitRecord {
            p,
            material: Some(self.material),
            normal: Vec3::new(zero, zero, zero),
            t: root,
            front_face: false,
        };
        let outward_normal = self.outward_normal(rec.p);
        rec.set_face_normal(r, outward_normal, zero);
        Some(rec)
    }
}

impl<
    T: Copy + Add<Output = T> + Sub<Output = T> + Mul<Output = T> + Div<Output = T> + Neg<
        Output = T,
    > + PartialOrd,
> HittableList<T> {
    /// `found` is what a ray strikes first among the first `n` surfaces:
    /// each surface is asked for a hit nearer than the one found before
    /// it, and the last hit that was found counts.
    pub open spec fn hit_spec<F: Fn(T) -> T>(
        self,
        n: int,
        r: Ray<T>,
        t_min: T,
        t_max: T,
        zero: T,
        sqrt: F,
        found: Option<HitRecord<T>>,
    ) -> bool
        decreases n,
    {
        if n <= 0 {
            found.is_none()
        } else {
            exists|before: Option<HitRecord<T>>, here: Option<HitRecord<T>>|
                self.hit_spec(n - 1, r, t_min, t_max, zero, sqrt, before) && (
                #[trigger] self.objects[n - 1].hit_spec(
                    r,
                    t_min,
                    closest_of(before, t_max),
                    zero,
                    sqrt,
                    here,
                )) && found == (if here.is_some() {
                    here
                } else {
                    before
                })
        }
    }

    /// The nearest hit of the ray among all surfaces between `t_min` and
    /// `t_max`: the surfaces are asked in order, each for a hit nearer
    /// than the best so far.
    pub fn hit<F: Fn(T) -> T>(&self, r: &Ray<T>, t_min: T, t_max: T, zero: T, sqrt: &F) -> (found:
        Option<HitRecord<T>>)
        requires
            is_total::<T>(),
            forall|x: T| #[trigger] sqrt.requires((x,)),
        ensures
            self.hit_spec(self.objects.len() as int, *r, t_min, t_max, zero, *sqrt, found),
    {
        let mut temp_record: Option<HitRecord<T>> = None;
        let mut closest_so_far = t_max;
        let mut i: usize = 0;
        while i < self.objects.len()
            invariant
                i <= self.objects.len(),
                is_total::<T>(),
                forall|x: T| #[trigger] sqrt.requires((x,)),
                closest_so_far == closest_of(temp_record, t_max),
                self.hit_spec(i as int, *r, t_min, t_max, zero, *sqrt, temp_record),
            decreases self.objects.len() - i,
        {
            let ghost before = temp_record;
            let here = self.objects[i].hit(r, t_min, closest_so_far, zero, sqrt);
            assert(self.objects[i as int].hit_spec(
                *r,
                t_min,
                closest_of(before, t_max),
                zero,
                *sqrt,
                here,
            ));
            if let Some(rec) = here {
                closest_so_far = rec.t;
                temp_record = Some(rec);
            }
            proof {
                let n = i as int + 1;
                assert(self.hit_spec(n - 1, *r, t_min, t_max, zero, *sqrt, before));
                assert(self.objects[n - 1].hit_spec(
                    *r,
                    t_min,
                    closest_of(before, t_max),
                    zero,
                    *sqrt,
                    here,
                ));
                assert(temp_record == (if here.is_some() {
                    here
                } else {
                    before
                }));
            }
            i = i + 1;
        }
        temp_record
    }
}

/// The order of the component type is that of the integers that `key`
/// gives: one value is at most another exactly where its key is.
pub open spec fn orders<T: PartialOrd>(key: spec_fn(T) -> i64) -> bool {
    forall|a: T, b: T| #[trigger] at_most(a, b) <==> key(a) <= key(b)
}

/// The first value is smaller than the second or equal to it.
pub open spec fn at_most<T: PartialOrd>(a: T, b: T) -> bool {
    a.is_le(&b)
}

/// `sqrt` gives one root for each number.
pub open spec fn gives_one<T, F: Fn(T) -> T>(sqrt: F) -> bool {
    forall|x: T, a: T, b: T|
        (#[trigger] sqrt.ensures((x,), a)) && (#[trigger] sqrt.ensures((x,), b)) ==> a == b
}

impl<
    T: Copy + Add<Output = T> + Sub<Output = T> + Mul<Output = T> + Div<Output = T> + Neg<
        Output = T,
    > + PartialOrd,
> Sphere<T> {
    /// The smaller solution of the sphere's equation for the ray.
    pub open spec fn near_root(self, r: Ray<T>, sqrtd: T) -> T {
        let q = self.quadratic_spec(r);
        q.half_b.neg_spec().sub_spec(sqrtd).div_spec(q.a)
    }

    /// The larger solution of the sphere's equation for the ray.
    pub open spec fn far_root(self, r: Ray<T>, sqrtd: T) -> T {
        let q = self.quadratic_spec(r);
        q.half_b.neg_spec().add_spec(sqrtd).div_spec(q.a)
    }

    /// Where the ray's line meets the sphere, with the keys of the two
    /// solutions in place of the solutions themselves.
    pub open spec fn crossing<F: Fn(T) -> T>(self, r: Ray<T>, zero: T, sqrt: F, key: spec_fn(T) -> i64) -> Crossing {
        let discriminant = self.quadratic_spec(r).discriminant_spec();
        if discriminant.is_lt(&zero) {
            Crossing::Miss
        } else {
            let sqrtd = choose|s: T| sqrt.ensures((discriminant,), s);
            Crossing::Roots {
                near: key(self.near_root(r, sqrtd)),
                far: key(self.far_root(r, sqrtd)),
            }
        }
    }
}

impl<
    T: Copy + Add<Output = T> + Sub<Output = T> + Mul<Output = T> + Div<Output = T> + Neg<
        Output = T,
    > + PartialOrd,
> HittableList<T> {
    /// The crossings of the ray with the first `n` surfaces of the scene.
    pub open spec fn crossings<F: Fn(T) -> T>(
        self,
        n: int,
        r: Ray<T>,
        zero: T,
        sqrt: F,
        key: spec_fn(T) -> i64,
    ) -> Seq<Crossing> {
        Seq::new(n as nat, |i: int| self.objects[i].crossing(r, zero, sqrt, key))
    }

    /// `found` is the closest hit among the first `n` surfaces: nothing
    /// where every surface is missed between `t_min` and `t_max`, and else
    /// the record of a surface that is struck there, no surface being
    /// struck nearer and none before it in the scene as near.
    pub open spec fn found_closest<F: Fn(T) -> T>(
        self,
        n: int,
        r: Ray<T>,
        t_min: T,
        t_max: T,
        zero: T,
        sqrt: F,
        key: spec_fn(T) -> i64,
        found: Option<HitRecord<T>>,
    ) -> bool {
        match found {
            None => all_miss(
                self.crossings(n, r, zero, sqrt, key),
                key(t_min) as int,
                key(t_max) as int,
            ),
            Some(rec) => exists|k: int| #[trigger]
                is_closest(
                    self.crossings(n, r, zero, sqrt, key),
                    key(t_min) as int,
                    key(t_max) as int,
                    k,
                    key(rec.t) as int,
                ) && rec == self.objects[k].record_spec(r, rec.t, zero),
        }
    }

    /// Where the component type is totally ordered, `sqrt` gives one root
    /// for each number, and no sphere's smaller solution lies above its
    /// larger one, what `hit` returns is the closest hit of the whole
    /// scene: `None` only where every surface is missed, and else the
    /// record of the surface struck nearest, the first of the scene among
    /// equals.
    pub proof fn lemma_hit_is_closest<F: Fn(T) -> T>(
        self,
        n: int,
        r: Ray<T>,
        t_min: T,
        t_max: T,
        zero: T,
        sqrt: F,
        key: spec_fn(T) -> i64,
        found: Option<HitRecord<T>>,
    )
        requires
            0 <= n <= self.objects.len(),
            orders::<T>(key),
            gives_one(sqrt),
            forall|i: int|
                0 <= i < n ==> (#[trigger] self.objects[i]).crossing(r, zero, sqrt, key).ordered(),
            self.hit_spec(n, r, t_min, t_max, zero, sqrt, found),
        ensures
            self.found_closest(n, r, t_min, t_max, zero, sqrt, key, found),
        decreases n,
    {
        let now = self.crossings(n, r, zero, sqrt, key);
        if n > 0 {
            let (before, here) = choose|
                before: Option<HitRecord<T>>,
                here: Option<HitRecord<T>>,
            |
                self.hit_spec(n - 1, r, t_min, t_max, zero, sqrt, before) && (
                #[trigger] self.objects[n - 1].hit_spec(
                    r,
                    t_min,
                    closest_of(before, t_max),
                    zero,
                    sqrt,
                    here,
                )) && found == (if here.is_some() {
                    here
                } else {
                    before
                });
            self.lemma_hit_is_closest(n - 1, r, t_min, t_max, zero, sqrt, key, before);
            let seen = self.crossings(n - 1, r, zero, sqrt, key);
            let last = self.objects[n - 1];
            let c = last.crossing(r, zero, sqrt, key);
            assert(c.ordered());
            assert(now[n - 1] == c);
            assert(forall|j: int| 0 <= j < n - 1 ==> now[j] == seen[j]);
            let bound = closest_of(before, t_max);
            let lo = key(t_min) as int;
            let hi = key(t_max) as int;
            // What the last surface reports under the narrowed bound is its
            // first root below that bound.
            assert(match here {
                Some(rec) => c.first_root(lo, key(bound) as int) == Some(key(rec.t) as int) && rec
                    == last.record_spec(r, rec.t, zero),
                None => c.first_root(lo, key(bound) as int).is_none(),
            }) by {
                let discriminant = last.quadratic_spec(r).discriminant_spec();
                if !discriminant.is_lt(&zero) {
                    let sqrtd = choose|s: T| sqrt.ensures((discriminant,), s);
                    let near = last.near_root(r, sqrtd);
                    let far = last.far_root(r, sqrtd);
                    assert(at_most(near, t_min) <==> key(near) <= key(t_min));
                    assert(at_most(bound, near) <==> key(bound) <= key(near));
                    assert(at_most(far, t_min) <==> key(far) <= key(t_min));
                    assert(at_most(bound, far) <==> key(bound) <= key(far));
                }
            }
            match before {
                Some(old) => {
                    let k0 = choose|k: int| #[trigger]
                        is_closest(seen, lo, hi, k, key(old.t) as int) && old
                            == self.objects[k].record_spec(r, old.t, zero);
                    match here {
                        Some(rec) => {
                            assert(is_closest(now, lo, hi, n - 1, key(rec.t) as int));
                        },
                        None => {
                            assert(is_closest(now, lo, hi, k0, key(old.t) as int));
                        },
                    }
                },
                None => {
                    match here {
                        Some(rec) => {
                            assert(is_closest(now, lo, hi, n - 1, key(rec.t) as int));
                        },
                        None => {},
                    }
                },
            }
        }
    }
}

} // verus!
