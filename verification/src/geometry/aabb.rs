//! Axis-aligned bounding boxes.

use vstd::prelude::*;
use crate::error::GeometryError;
use crate::math::Point3;
use crate::traits::FallibleNumeric;

verus! {

/// A box with edges along the axes, between a lower and an upper corner.
/// On every axis the lower corner is at most the upper one.
#[derive(Clone, Copy, Debug, PartialEq)]
pub struct Aabb<T: FallibleNumeric> {
    min: Point3<T>,
    max: Point3<T>,
}

impl<T: FallibleNumeric> Aabb<T> {
    /// The lower corner.
    pub closed spec fn lower(self) -> Point3<T> {
        self.min
    }

    /// The upper corner.
    pub closed spec fn upper(self) -> Point3<T> {
        self.max
    }

    /// The invariant: the lower corner is at most the upper one on every axis.
    pub open spec fn well_formed(self) -> bool {
        self.lower().all_at_most(self.upper())
    }

    /// What [`Aabb::new`] gives for two corners: the box where `min` is at
    /// most `max` on every axis, the corners back in an error where not.
    pub open spec fn checked(min: Point3<T>, max: Point3<T>) -> Result<Self, GeometryError<T>> {
        if min.all_at_most(max) {
            Ok(Self::between(min, max))
        } else {
            Err(GeometryError::InvalidBounds { min, max })
        }
    }

    /// The box with the given corners.
    pub closed spec fn between(min: Point3<T>, max: Point3<T>) -> Self {
        Aabb { min, max }
    }

    /// A box is the box between its corners.
    pub broadcast proof fn corners_of_between(min: Point3<T>, max: Point3<T>)
        ensures
            (#[trigger] Self::between(min, max)).lower() == min,
            Self::between(min, max).upper() == max,
    {
    }

    /// Builds the box between two corners, or refuses them where `min`
    /// exceeds `max`, or cannot be compared with it, on some axis.
    pub fn new(min: Point3<T>, max: Point3<T>) -> (r: Result<Self, GeometryError<T>>)
        ensures
            r == Self::checked(min, max),
            r is Ok <==> min.all_at_most(max),
            r matches Ok(b) ==> b.well_formed() && b.lower() == min && b.upper() == max,
    {
        if min.le_all(max) {
            Ok(Aabb { min, max })
        } else {
            Err(GeometryError::InvalidBounds { min, max })
        }
    }

    pub fn min(&self) -> (r: Point3<T>)
        ensures
            r == self.lower(),
    {
        self.min
    }

    pub fn max(&self) -> (r: Point3<T>)
        ensures
            r == self.upper(),
    {
        self.max
    }
}

} // verus!
