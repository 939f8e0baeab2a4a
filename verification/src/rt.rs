//! Rays and the record of a hit.

use vstd::prelude::*;
use crate::math::{Point3, Vector3};
use crate::traits::FallibleNumeric;

verus! {

/// A half-line: the points `origin + direction·t`. The direction need not
/// have length one.
#[derive(Clone, Copy, Debug, PartialEq)]
pub struct Ray<T: FallibleNumeric> {
    pub origin: Point3<T>,
    pub direction: Vector3<T>,
}

/// Where a ray meets a primitive.
#[derive(Clone, Copy, Debug, PartialEq)]
pub struct Hit<T: FallibleNumeric> {
    /// Which primitive was hit; assigned by whoever holds the primitives.
    pub primitive_id: usize,
    /// The ray's parameter at the hit.
    pub t: T,
    /// The normal to shade with.
    pub shading_normal: Vector3<T>,
    /// The normal of the surface itself.
    pub geometric_normal: Vector3<T>,
}

impl<T: FallibleNumeric> Ray<T> {
    pub fn new(origin: Point3<T>, direction: Vector3<T>) -> (r: Self)
        ensures
            r == (Ray { origin, direction }),
    {
        Ray { origin, direction }
    }

    /// The point of the ray at parameter `t`.
    pub open spec fn at_spec(self, t: T) -> Point3<T> {
        self.origin.translated_spec(self.direction.scale_spec(t))
    }

    pub fn at(&self, t: T) -> (r: Point3<T>)
        ensures
            r == self.at_spec(t),
    {
        self.origin.translated(self.direction.scale(t))
    }
}

impl<T: FallibleNumeric> Hit<T> {
    pub fn new(
        primitive_id: usize,
        t: T,
        shading_normal: Vector3<T>,
        geometric_normal: Vector3<T>,
    ) -> (r: Self)
        ensures
            r == (Hit { primitive_id, t, shading_normal, geometric_normal }),
    {
        Hit { primitive_id, t, shading_normal, geometric_normal }
    }
}

} // verus!
