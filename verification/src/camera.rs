use crate::ray::Ray;
use crate::vector::Vec3;
use std::ops::{Add, Div, Mul, Neg, Sub};
use vstd::prelude::*;
use vstd::std_specs::ops::{AddSpec, DivSpec, MulSpec, NegSpec, SubSpec};

verus! {

/// A camera with a lens: the place it stands at, the corner and the two
/// edges of the plane it looks at, and the two axes and the radius of its
/// lens. It is worked out once and not changed afterwards.
#[derive(Debug, Clone, Copy)]
pub struct Camera<T> {
    pub origin: Vec3<T>,
    pub upper_left_corner: Vec3<T>,
    pub horizontal: Vec3<T>,
    pub vertical: Vec3<T>,
    pub u: Vec3<T>,
    pub v: Vec3<T>,
    pub lens_radius: T,
}

/// The operators of the component type keep to their specifications.
pub open spec fn obeys_arithmetic<
    T: Add<Output = T> + Sub<Output = T> + Mul<Output = T> + Div<Output = T> + Neg<Output = T>,
>() -> bool {
    &&& T::obeys_add_spec()
    &&& T::obeys_sub_spec()
    &&& T::obeys_mul_spec()
    &&& T::obeys_div_spec()
    &&& T::obeys_neg_spec()
}

/// The operators of the component type keep to their specifications, and
/// each of them can be carried out on all values.
pub open spec fn can_compute<
    T: Add<Output = T> + Sub<Output = T> + Mul<Output = T> + Div<Output = T> + Neg<Output = T>,
>() -> bool {
    &&& obeys_arithmetic::<T>()
    &&& forall|a: T, b: T| #[trigger] a.add_req(b)
    &&& forall|a: T, b: T| #[trigger] a.sub_req(b)
    &&& forall|a: T, b: T| #[trigger] a.mul_req(b)
    &&& forall|a: T, b: T| #[trigger] a.div_req(b)
    &&& forall|a: T| #[trigger] a.neg_req()
}

impl<
    T: Copy + Add<Output = T> + Sub<Output = T> + Mul<Output = T> + Div<Output = T> + Neg<
        Output = T,
    >,
> Camera<T> {
    /// `camera` is a camera that `new` may make: the camera of
    /// `from_frame` for the axis `w` from the point looked at to the
    /// origin and the axis `u` across `up` and `w`, each divided by a
    /// length that `sqrt` gave for it.
    pub open spec fn new_spec<F: Fn(T) -> T>(
        origin: Vec3<T>,
        direction: Vec3<T>,
        up: Vec3<T>,
        viewport_height: T,
        aspect_ratio: T,
        aperture: T,
        focus_dist: T,
        two: T,
        sqrt: F,
        camera: Camera<T>,
    ) -> bool {
        exists|wl: T, ul: T|
            {
                &&& #[trigger] sqrt.ensures((Self::back(origin, direction).length_squared_spec(),), wl)
                &&& #[trigger] sqrt.ensures(
                    (Self::right(origin, direction, up, wl).length_squared_spec(),),
                    ul,
                )
                &&& camera == Self::from_frame_spec(
                    origin,
                    Self::back(origin, direction).div_spec(wl),
                    Self::right(origin, direction, up, wl).div_spec(ul),
                    viewport_height,
                    aspect_ratio,
                    aperture,
                    focus_dist,
                    two,
                )
            }
    }

    /// The vector from the point looked at to the camera.
    pub open spec fn back(origin: Vec3<T>, direction: Vec3<T>) -> Vec3<T> {
        origin.sub_spec(direction)
    }

    /// The vector across `up` and the axis against which the camera
    /// looks, where `wl` is the length of `back`.
    pub open spec fn right(origin: Vec3<T>, direction: Vec3<T>, up: Vec3<T>, wl: T) -> Vec3<T> {
        up.cross_spec(Self::back(origin, direction).div_spec(wl))
    }

    /// The camera at `origin` that looks at the point `direction` with
    /// `up` upwards. The plane it looks at is `viewport_height` high and
    /// `aspect_ratio` times as wide at distance one, and lies at
    /// `focus_dist`; the lens is `aperture` across. `two` is the number
    /// two in the component type and `sqrt` takes square roots in it.
    pub fn new<F: Fn(T) -> T>(
        origin: Vec3<T>,
        direction: Vec3<T>,
        up: Vec3<T>,
        viewport_height: T,
        aspect_ratio: T,
        aperture: T,
        focus_dist: T,
        two: T,
        sqrt: &F,
    ) -> (camera: Camera<T>)
        requires
            can_compute::<T>(),
            forall|x: T| #[trigger] sqrt.requires((x,)),
        ensures
            Self::new_spec(
                origin,
                direction,
                up,
                viewport_height,
                aspect_ratio,
                aperture,
                focus_dist,
                two,
                *sqrt,
                camera,
            ),
    {
        let back = origin - direction;
        let wl = sqrt(back.length_squared());
        let w = back / wl;
        let right = up.cross(w);
        let ul = sqrt(right.length_squared());
        let u = right / ul;
        assert(back == Self::back(origin, direction));
        assert(right == Self::right(origin, direction, up, wl));
        assert(sqrt.ensures((Self::back(origin, direction).length_squared_spec(),), wl));
        assert(sqrt.ensures((Self::right(origin, direction, up, wl).length_squared_spec(),), ul));
        Self::from_frame(origin, w, u, viewport_height, aspect_ratio, aperture, focus_dist, two)
    }

    /// The offset of a ray's origin on the lens for a sample of the unit
    /// disk: the sample scaled by the lens radius, along the two axes of
    /// the lens.
    pub open spec fn lens_offset(self, lens_sample: Vec3<T>) -> Vec3<T> {
        let rd = lens_sample.mul_spec(self.lens_radius);
        self.u.mul_spec(rd.x).add_spec(self.v.mul_spec(rd.y))
    }

    /// The point of the focus plane at the image coordinates `(s, t)`.
    pub open spec fn target(self, s: T, t: T) -> Vec3<T> {
        self.upper_left_corner.add_spec(self.horizontal.mul_spec(s)).add_spec(
            self.vertical.mul_spec(t),
        )
    }

    /// The ray for the image coordinates `(s, t)` and a sample of the unit
    /// disk: it starts on the lens and points at the target on the focus
    /// plane.
    pub open spec fn get_ray_spec(self, s: T, t: T, lens_sample: Vec3<T>) -> Ray<T> {
        Ray {
            origin: self.origin.add_spec(self.lens_offset(lens_sample)),
            direction: self.target(s, t).sub_spec(self.origin).sub_spec(
                self.lens_offset(lens_sample),
            ),
        }
    }

    /// Every operation of `get_ray` can be carried out.
    pub open spec fn get_ray_req(self, s: T, t: T, lens_sample: Vec3<T>) -> bool {
        let rd = lens_sample.mul_spec(self.lens_radius);
        let offset = self.lens_offset(lens_sample);
        &&& obeys_arithmetic::<T>()
        &&& lens_sample.mul_req(self.lens_radius)
        &&& self.u.mul_req(rd.x)
        &&& self.v.mul_req(rd.y)
        &&& self.u.mul_spec(rd.x).add_req(self.v.mul_spec(rd.y))
        &&& self.origin.add_req(offset)
        &&& self.horizontal.mul_req(s)
        &&& self.vertical.mul_req(t)
        &&& self.upper_left_corner.add_req(self.horizontal.mul_spec(s))
        &&& self.upper_left_corner.add_spec(self.horizontal.mul_spec(s)).add_req(
            self.vertical.mul_spec(t),
        )
        &&& self.target(s, t).sub_req(self.origin)
        &&& self.target(s, t).sub_spec(self.origin).sub_req(offset)
    }

    /// The ray through the image coordinates `(s, t)`, each between 0 and
    /// 1, for one sample of the unit disk.
    pub fn get_ray(&self, s: T, t: T, lens_sample: Vec3<T>) -> (ray: Ray<T>)
        requires
            self.get_ray_req(s, t, lens_sample),
        ensures
            ray == self.get_ray_spec(s, t, lens_sample),
    {
        let rd = lens_sample * self.lens_radius;
        let offset = self.u * rd.x + self.v * rd.y;
        Ray {
            origin: self.origin + offset,
            direction: self.upper_left_corner + self.horizontal * s + self.vertical * t
                - self.origin - offset,
        }
    }

    /// The camera that `from_frame` makes.
    pub open spec fn from_frame_spec(
        origin: Vec3<T>,
        w: Vec3<T>,
        u: Vec3<T>,
        viewport_height: T,
        aspect_ratio: T,
        aperture: T,
        focus_dist: T,
        two: T,
    ) -> Camera<T> {
        let viewport_width = aspect_ratio.mul_spec(viewport_height);
        let v = w.cross_spec(u);
        let horizontal = u.mul_spec(viewport_width).mul_spec(focus_dist);
        let vertical = v.mul_spec(viewport_height.neg_spec()).mul_spec(focus_dist);
        Camera {
            origin,
            upper_left_corner: origin.sub_spec(horizontal.div_spec(two)).sub_spec(
                vertical.div_spec(two),
            ).sub_spec(w.mul_spec(focus_dist)),
            horizontal,
            vertical,
            u,
            v,
            lens_radius: aperture.div_spec(two),
        }
    }

    /// Every operation of `from_frame` can be carried out.
    pub open spec fn from_frame_req(
        origin: Vec3<T>,
        w: Vec3<T>,
        u: Vec3<T>,
        viewport_height: T,
        aspect_ratio: T,
        aperture: T,
        focus_dist: T,
        two: T,
    ) -> bool {
        let viewport_width = aspect_ratio.mul_spec(viewport_height);
        let v = w.cross_spec(u);
        let horizontal = u.mul_spec(viewport_width).mul_spec(focus_dist);
        let vertical = v.mul_spec(viewport_height.neg_spec()).mul_spec(focus_dist);
        &&& obeys_arithmetic::<T>()
        &&& aspect_ratio.mul_req(viewport_height)
        &&& w.cross_req(u)
        &&& u.mul_req(viewport_width)
        &&& u.mul_spec(viewport_width).mul_req(focus_dist)
        &&& viewport_height.neg_req()
        &&& v.mul_req(viewport_height.neg_spec())
        &&& v.mul_spec(viewport_height.neg_spec()).mul_req(focus_dist)
        &&& horizontal.div_req(two)
        &&& vertical.div_req(two)
        &&& origin.sub_req(horizontal.div_spec(two))
        &&& origin.sub_spec(horizontal.div_spec(two)).sub_req(vertical.div_spec(two))
        &&& w.mul_req(focus_dist)
        &&& origin.sub_spec(horizontal.div_spec(two)).sub_spec(vertical.div_spec(two)).sub_req(
            w.mul_spec(focus_dist),
        )
        &&& aperture.div_req(two)
    }

    /// The camera at `origin` that looks against `w` with `u` to its
    /// right, both of length one: the plane it looks at is
    /// `viewport_height` high and `aspect_ratio` times as wide at distance
    /// one, and lies at `focus_dist`; the lens is `aperture` across. `two`
    /// is the number two in the component type. The vertical edge runs
    /// downwards, so that image rows count from the top.
    pub fn from_frame(
        origin: Vec3<T>,
        w: Vec3<T>,
        u: Vec3<T>,
        viewport_height: T,
        aspect_ratio: T,
        aperture: T,
        focus_dist: T,
        two: T,
    ) -> (camera: Camera<T>)
        requires
            Self::from_frame_req(origin, w, u, viewport_height, aspect_ratio, aperture, focus_dist, two),
        ensures
            camera == Self::from_frame_spec(
                origin,
                w,
                u,
                viewport_height,
                aspect_ratio,
                aperture,
                focus_dist,
                two,
            ),
    {
        let viewport_width = aspect_ratio * viewport_height;
        let v = w.cross(u);
        let horizontal = u * viewport_width * focus_dist;
        let vertical = v * viewport_height.neg() * focus_dist;
        let upper_left_corner = origin - horizontal / two - vertical / two - w * focus_dist;
        Camera { origin, upper_left_corner, horizontal, vertical, u, v, lens_radius: aperture / two }
    }
}

} // verus!
