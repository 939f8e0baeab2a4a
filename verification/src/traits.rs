//! The capabilities that the geometry is written against: a scalar type, and
//! the two questions every primitive answers.

use vstd::prelude::*;
use crate::error::GeometryError;
use crate::geometry::aabb::Aabb;
use crate::rt::{Hit, Ray};

verus! {

/// A real-number type: arithmetic, square root, ordering, a machine epsilon,
/// and a conversion from small integers that may fail.
///
/// Each executable operation returns exactly the value that the
/// specification function beside it names. Nothing else is promised of an
/// implementation: no law of arithmetic and no law of order, since rounding
/// arithmetic obeys few of them.
pub trait FallibleNumeric: Copy {
    /// The additive identity.
    spec fn zero_spec() -> Self;

    /// The smallest step that the type resolves near one.
    spec fn epsilon_spec() -> Self;

    /// `self + rhs`.
    spec fn plus_spec(self, rhs: Self) -> Self;

    /// `self - rhs`.
    spec fn minus_spec(self, rhs: Self) -> Self;

    /// `self * rhs`.
    spec fn times_spec(self, rhs: Self) -> Self;

    /// `self / rhs`.
    spec fn over_spec(self, rhs: Self) -> Self;

    /// `-self`.
    spec fn negated_spec(self) -> Self;

    /// The square root of `self`.
    spec fn sqrt_spec(self) -> Self;

    /// `self < rhs`.
    spec fn below(self, rhs: Self) -> bool;

    /// `self <= rhs`.
    spec fn at_most(self, rhs: Self) -> bool;

    /// The scalar that stands for the integer `n`, where the type has one.
    spec fn converted(n: u8) -> Option<Self>;

    fn zero() -> (r: Self)
        ensures
            r == Self::zero_spec(),
    ;

    fn default_epsilon() -> (r: Self)
        ensures
            r == Self::epsilon_spec(),
    ;

    fn plus(self, rhs: Self) -> (r: Self)
        ensures
            r == self.plus_spec(rhs),
    ;

    fn minus(self, rhs: Self) -> (r: Self)
        ensures
            r == self.minus_spec(rhs),
    ;

    fn times(self, rhs: Self) -> (r: Self)
        ensures
            r == self.times_spec(rhs),
    ;

    fn over(self, rhs: Self) -> (r: Self)
        ensures
            r == self.over_spec(rhs),
    ;

    fn negated(self) -> (r: Self)
        ensures
            r == self.negated_spec(),
    ;

    fn sqrt(self) -> (r: Self)
        ensures
            r == self.sqrt_spec(),
    ;

    fn lt(self, rhs: Self) -> (r: bool)
        ensures
            r == self.below(rhs),
    ;

    fn le(self, rhs: Self) -> (r: bool)
        ensures
            r == self.at_most(rhs),
    ;

    /// Converts a small integer; `None` where the type cannot represent it.
    fn try_from_u8(n: u8) -> (r: Option<Self>)
        ensures
            r == Self::converted(n),
    ;
}

/// `a > b`, read as `b < a`.
pub open spec fn exceeds<T: FallibleNumeric>(a: T, b: T) -> bool {
    b.below(a)
}

/// A primitive that has an axis-aligned bounding box.
pub trait Bounded<T: FallibleNumeric> {
    /// The box, or the error that building it gives.
    spec fn bounds(&self) -> Result<Aabb<T>, GeometryError<T>>;

    fn aabb(&self) -> (r: Result<Aabb<T>, GeometryError<T>>)
        ensures
            r == self.bounds(),
    ;
}

/// A primitive that a ray can be tested against.
pub trait Traceable<T: FallibleNumeric> {
    /// What the test gives: an error where a conversion fails, `None` where
    /// the ray misses, the closest valid hit otherwise.
    spec fn intersection(&self, ray: &Ray<T>) -> Result<Option<Hit<T>>, GeometryError<T>>;

    fn intersect(&self, ray: &Ray<T>) -> (r: Result<Option<Hit<T>>, GeometryError<T>>)
        ensures
            r == self.intersection(ray),
    ;
}

} // verus!
