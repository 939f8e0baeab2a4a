//! The sphere: its construction, its bounding box and the ray test.

use vstd::prelude::*;
use crate::error::GeometryError;
use crate::geometry::aabb::Aabb;
use crate::math::{Point3, Vector3};
use crate::rt::{Hit, Ray};
use crate::traits::{exceeds, Bounded, FallibleNumeric, Traceable};

verus! {

/// A sphere, by its center and its radius. [`Sphere::new`] refuses a radius
/// below zero; nothing changes a sphere after that.
#[derive(Clone, Copy, Debug, PartialEq)]
pub struct Sphere<T: FallibleNumeric> {
    /// Center of the sphere.
    pub center: Point3<T>,
    /// Radius of the sphere.
    pub radius: T,
}

/// The coefficients of `a·t² + b·t + c = 0`, whose roots are the parameters
/// at which a ray's line meets a sphere.
#[derive(Clone, Copy, Debug, PartialEq)]
pub struct Quadratic<T: FallibleNumeric> {
    pub a: T,
    pub b: T,
    pub c: T,
}

impl<T: FallibleNumeric> Quadratic<T> {
    /// `b² − 4ac`, with `four` standing for 4.
    pub open spec fn discriminant_spec(self, four: T) -> T {
        self.b.times_spec(self.b).minus_spec(four.times_spec(self.a).times_spec(self.c))
    }

    /// Whether the equation has no real root: the discriminant is below zero.
    pub open spec fn rootless(self, four: T) -> bool {
        self.discriminant_spec(four).below(T::zero_spec())
    }

    /// The smaller root, `(−b − √D) / 2a`, with `two` standing for 2.
    pub open spec fn near_root(self, two: T, four: T) -> T {
        self.b.negated_spec().minus_spec(self.discriminant_spec(four).sqrt_spec()).over_spec(
            two.times_spec(self.a),
        )
    }

    /// The larger root, `(−b + √D) / 2a`, with `two` standing for 2.
    pub open spec fn far_root(self, two: T, four: T) -> T {
        self.b.negated_spec().plus_spec(self.discriminant_spec(four).sqrt_spec()).over_spec(
            two.times_spec(self.a),
        )
    }

    pub fn discriminant(&self, four: T) -> (r: T)
        ensures
            r == self.discriminant_spec(four),
    {
        self.b.times(self.b).minus(four.times(self.a).times(self.c))
    }

    /// Both roots, the smaller first. Meant for a discriminant that is not
    /// below zero; on any other the scalar type decides what comes out.
    pub fn roots(&self, two: T, four: T) -> (r: (T, T))
        ensures
            r.0 == self.near_root(two, four),
            r.1 == self.far_root(two, four),
    {
        let root = self.discriminant(four).sqrt();
        let two_a = two.times(self.a);
        let minus_b = self.b.negated();
        (minus_b.minus(root).over(two_a), minus_b.plus(root).over(two_a))
    }
}

/// The root that counts as the hit: the near one where it exceeds `epsilon`,
/// else the far one where that exceeds `epsilon`, else none.
pub open spec fn chosen_root<T: FallibleNumeric>(near: T, far: T, epsilon: T) -> Option<T> {
    if exceeds(near, epsilon) {
        Some(near)
    } else if exceeds(far, epsilon) {
        Some(far)
    } else {
        None
    }
}

/// Picks the closest root that lies ahead of the ray's origin by more than
/// `epsilon`.
pub fn choose_root<T: FallibleNumeric>(near: T, far: T, epsilon: T) -> (r: Option<T>)
    ensures
        r == chosen_root(near, far, epsilon),
{
    if epsilon.lt(near) {
        Some(near)
    } else if epsilon.lt(far) {
        Some(far)
    } else {
        None
    }
}

impl<T: FallibleNumeric> Sphere<T> {
    /// The invariant that construction checks: the radius is not below zero.
    pub open spec fn well_formed(self) -> bool {
        !self.radius.below(T::zero_spec())
    }

    /// Construct a new `Sphere` instance.
    ///
    /// Fails exactly where the radius is below zero, with an error that
    /// holds the radius. A radius that compares with nothing is let through.
    pub fn new(center: Point3<T>, radius: T) -> (r: Result<Self, GeometryError<T>>)
        ensures
            radius.below(T::zero_spec()) ==> r == Err::<Self, GeometryError<T>>(
                GeometryError::InvalidRadius { radius },
            ),
            !radius.below(T::zero_spec()) ==> r == Ok::<Self, GeometryError<T>>(
                Sphere { center, radius },
            ),
            r is Err <==> radius.below(T::zero_spec()),
            r matches Ok(s) ==> s.well_formed(),
    {
        if radius.lt(T::zero()) {
            return Err(GeometryError::InvalidRadius { radius });
        }
        Ok(Sphere { center, radius })
    }

    /// The radius along every axis.
    pub open spec fn extent(self) -> Vector3<T> {
        Vector3 { x: self.radius, y: self.radius, z: self.radius }
    }

    /// The equation of `ray` against this sphere: with `oc` the vector from
    /// the center to the ray's origin, `a = d·d`, `b = 2·(oc·d)` and
    /// `c = oc·oc − r²`.
    pub open spec fn quadratic_spec(self, ray: Ray<T>, two: T) -> Quadratic<T> {
        let oc = ray.origin.minus_spec(self.center);
        Quadratic {
            a: ray.direction.dot_spec(ray.direction),
            b: two.times_spec(oc.dot_spec(ray.direction)),
            c: oc.dot_spec(oc).minus_spec(self.radius.times_spec(self.radius)),
        }
    }

    /// The outward normal at the ray's point of parameter `t`: the vector
    /// from the center to that point, divided by the radius, then brought to
    /// length one.
    pub open spec fn normal_spec(self, ray: Ray<T>, t: T) -> Vector3<T> {
        ray.at_spec(t).minus_spec(self.center).unscale_spec(self.radius).normalized_spec()
    }

    /// The hit at parameter `t`: the outward normal in both slots, and 0 for
    /// the primitive, which the holder of the primitives assigns.
    pub open spec fn hit_spec(self, ray: Ray<T>, t: T) -> Hit<T> {
        Hit {
            primitive_id: 0,
            t,
            shading_normal: self.normal_spec(ray, t),
            geometric_normal: self.normal_spec(ray, t),
        }
    }

    /// The ray test, given the scalars that stand for 2 and 4: nothing where
    /// the equation has no root or no root exceeds epsilon, else the hit at
    /// the chosen root.
    pub open spec fn solution(self, ray: Ray<T>, two: T, four: T) -> Option<Hit<T>> {
        let q = self.quadratic_spec(ray, two);
        if q.rootless(four) {
            None
        } else {
            match chosen_root(q.near_root(two, four), q.far_root(two, four), T::epsilon_spec()) {
                Some(t) => Some(self.hit_spec(ray, t)),
                None => None,
            }
        }
    }

    /// The ray test for each outcome of the two conversions: the error of
    /// the first that failed, 2 before 4, else the solution.
    pub open spec fn outcome(self, ray: Ray<T>, two: Option<T>, four: Option<T>) -> Result<
        Option<Hit<T>>,
        GeometryError<T>,
    > {
        match (two, four) {
            (None, _) => Err(GeometryError::NumericConversion { value: 2 }),
            (Some(_), None) => Err(GeometryError::NumericConversion { value: 4 }),
            (Some(two), Some(four)) => Ok(self.solution(ray, two, four)),
        }
    }

    pub fn quadratic(&self, ray: &Ray<T>, two: T) -> (r: Quadratic<T>)
        ensures
            r == self.quadratic_spec(*ray, two),
    {
        let oc = ray.origin.minus(self.center);
        Quadratic {
            a: ray.direction.dot(ray.direction),
            b: two.times(oc.dot(ray.direction)),
            c: oc.dot(oc).minus(self.radius.times(self.radius)),
        }
    }

    pub fn normal_at(&self, ray: &Ray<T>, t: T) -> (r: Vector3<T>)
        ensures
            r == self.normal_spec(*ray, t),
    {
        ray.at(t).minus(self.center).unscale(self.radius).normalized()
    }

    /// The ray test once 2 and 4 are at hand as scalars.
    pub fn solve(&self, ray: &Ray<T>, two: T, four: T) -> (r: Option<Hit<T>>)
        ensures
            r == self.solution(*ray, two, four),
    {
        let q = self.quadratic(ray, two);
        if q.discriminant(four).lt(T::zero()) {
            return None;
        }
        let (near, far) = q.roots(two, four);
        match choose_root(near, far, T::default_epsilon()) {
            Some(t) => {
                let normal = self.normal_at(ray, t);
                Some(Hit::new(0, t, normal, normal))
            },
            None => None,
        }
    }

    /// What the ray test returns for each outcome of the two conversions.
    pub fn conclude(&self, ray: &Ray<T>, two: Option<T>, four: Option<T>) -> (r: Result<
        Option<Hit<T>>,
        GeometryError<T>,
    >)
        ensures
            r == self.outcome(*ray, two, four),
    {
        match two {
            None => Err(GeometryError::NumericConversion { value: 2 }),
            Some(two) => match four {
                None => Err(GeometryError::NumericConversion { value: 4 }),
                Some(four) => Ok(self.solve(ray, two, four)),
            },
        }
    }
}

impl<T: FallibleNumeric> Sphere<T> {
    /// An equation without roots is a miss, never an error: where both
    /// conversions succeed and the equation of the ray against the sphere
    /// has a discriminant below zero, the test gives nothing.
    pub proof fn negative_discriminant_misses(self, ray: Ray<T>, two: T, four: T)
        requires
            T::converted(2) == Some(two),
            T::converted(4) == Some(four),
            self.quadratic_spec(ray, two).rootless(four),
        ensures
            self.intersection(&ray) == Ok::<Option<Hit<T>>, GeometryError<T>>(None),
    {
    }

    /// Every hit is at the first of the two roots, near before far, that
    /// exceeds epsilon: its parameter exceeds epsilon, is one of the roots,
    /// is the near one wherever that exceeds epsilon, and its two normals
    /// are the outward normal at that parameter.
    pub proof fn hit_is_first_root_beyond_epsilon(self, ray: Ray<T>, two: T, four: T, hit: Hit<T>)
        requires
            T::converted(2) == Some(two),
            T::converted(4) == Some(four),
            self.intersection(&ray) == Ok::<Option<Hit<T>>, GeometryError<T>>(Some(hit)),
        ensures
            !self.quadratic_spec(ray, two).rootless(four),
            exceeds(hit.t, T::epsilon_spec()),
            hit.t == self.quadratic_spec(ray, two).near_root(two, four) || hit.t
                == self.quadratic_spec(ray, two).far_root(two, four),
            exceeds(self.quadratic_spec(ray, two).near_root(two, four), T::epsilon_spec())
                ==> hit.t == self.quadratic_spec(ray, two).near_root(two, four),
            hit == self.hit_spec(ray, hit.t),
    {
    }

    /// Every hit is at the smaller of the roots that exceed epsilon: where
    /// the near root is at most the far one and the hit's parameter is at
    /// most itself (it is a number), it is at most each root that exceeds
    /// epsilon.
    pub proof fn hit_is_smallest_root_beyond_epsilon(
        self,
        ray: Ray<T>,
        two: T,
        four: T,
        hit: Hit<T>,
    )
        requires
            T::converted(2) == Some(two),
            T::converted(4) == Some(four),
            self.intersection(&ray) == Ok::<Option<Hit<T>>, GeometryError<T>>(Some(hit)),
            self.quadratic_spec(ray, two).near_root(two, four).at_most(
                self.quadratic_spec(ray, two).far_root(two, four),
            ),
            hit.t.at_most(hit.t),
        ensures
            exceeds(self.quadratic_spec(ray, two).near_root(two, four), T::epsilon_spec())
                ==> hit.t.at_most(self.quadratic_spec(ray, two).near_root(two, four)),
            exceeds(self.quadratic_spec(ray, two).far_root(two, four), T::epsilon_spec())
                ==> hit.t.at_most(self.quadratic_spec(ray, two).far_root(two, four)),
    {
    }

    /// With the near root behind the origin the hit is at the far root, as
    /// for a ray that starts inside the sphere and leaves it there: where
    /// the equation has roots, the near one does not exceed epsilon and the
    /// far one does, the hit is at the far root.
    pub proof fn far_root_taken_when_near_is_behind(self, ray: Ray<T>, two: T, four: T)
        requires
            T::converted(2) == Some(two),
            T::converted(4) == Some(four),
            !self.quadratic_spec(ray, two).rootless(four),
            !exceeds(self.quadratic_spec(ray, two).near_root(two, four), T::epsilon_spec()),
            exceeds(self.quadratic_spec(ray, two).far_root(two, four), T::epsilon_spec()),
        ensures
            self.intersection(&ray) == Ok::<Option<Hit<T>>, GeometryError<T>>(
                Some(self.hit_spec(ray, self.quadratic_spec(ray, two).far_root(two, four))),
            ),
    {
    }

    /// The test fails only for want of a conversion, and then always: with
    /// the error of 2 where that has no scalar, else with the error of 4.
    pub proof fn fails_iff_conversion_fails(self, ray: Ray<T>)
        ensures
            self.intersection(&ray) is Err <==> T::converted(2) is None || T::converted(4) is None,
            T::converted(2) is None ==> self.intersection(&ray) == Err::<
                Option<Hit<T>>,
                GeometryError<T>,
            >(GeometryError::NumericConversion { value: 2 }),
            T::converted(2) is Some && T::converted(4) is None ==> self.intersection(&ray) == Err::<
                Option<Hit<T>>,
                GeometryError<T>,
            >(GeometryError::NumericConversion { value: 4 }),
    {
    }

    /// The bounding box of a sphere, where there is one, reaches from the
    /// center less the radius to the center plus the radius on every axis.
    pub proof fn box_spans_radius_each_way(self, b: Aabb<T>)
        requires
            self.bounds() == Ok::<Aabb<T>, GeometryError<T>>(b),
        ensures
            b.well_formed(),
            b.lower() == self.center.translated_back_spec(self.extent()),
            b.upper() == self.center.translated_spec(self.extent()),
    {
        broadcast use Aabb::corners_of_between;
    }
}

impl<T: FallibleNumeric> Bounded<T> for Sphere<T> {
    /// The box from `center − (r, r, r)` to `center + (r, r, r)`.
    open spec fn bounds(&self) -> Result<Aabb<T>, GeometryError<T>> {
        Aabb::checked(
            self.center.translated_back_spec(self.extent()),
            self.center.translated_spec(self.extent()),
        )
    }

    fn aabb(&self) -> (r: Result<Aabb<T>, GeometryError<T>>) {
        let r = Vector3::new(self.radius, self.radius, self.radius);
        Aabb::new(self.center.translated_back(r), self.center.translated(r))
    }
}

impl<T: FallibleNumeric> Traceable<T> for Sphere<T> {
    open spec fn intersection(&self, ray: &Ray<T>) -> Result<Option<Hit<T>>, GeometryError<T>> {
        self.outcome(*ray, T::converted(2), T::converted(4))
    }

    fn intersect(&self, ray: &Ray<T>) -> (r: Result<Option<Hit<T>>, GeometryError<T>>) {
        let two = T::try_from_u8(2);
        let four = T::try_from_u8(4);
        self.conclude(ray, two, four)
    }
}

} // verus!
