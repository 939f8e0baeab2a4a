//! The ways in which building or querying a primitive can fail.

use vstd::prelude::*;
use crate::math::Point3;
use crate::traits::FallibleNumeric;

verus! {

/// A failure of construction or of a numeric conversion. That a ray misses a
/// primitive is no failure and has no variant here.
#[derive(Clone, Copy, Debug, PartialEq)]
pub enum GeometryError<T: FallibleNumeric> {
    /// A sphere was asked for with a radius below zero.
    InvalidRadius { radius: T },
    /// A box was asked for whose `min` is not at most its `max` on every axis.
    InvalidBounds { min: Point3<T>, max: Point3<T> },
    /// The scalar type has no value for the integer `value`.
    NumericConversion { value: u8 },
}

} // verus!
