//! Points and vectors in three dimensions.

use vstd::prelude::*;
use crate::traits::FallibleNumeric;

verus! {

/// A position in space.
#[derive(Clone, Copy, Debug, PartialEq)]
pub struct Point3<T: FallibleNumeric> {
    pub x: T,
    pub y: T,
    pub z: T,
}

/// A displacement in space.
#[derive(Clone, Copy, Debug, PartialEq)]
pub struct Vector3<T: FallibleNumeric> {
    pub x: T,
    pub y: T,
    pub z: T,
}

impl<T: FallibleNumeric> Point3<T> {
    pub fn new(x: T, y: T, z: T) -> (r: Self)
        ensures
            r == (Point3 { x, y, z }),
    {
        Point3 { x, y, z }
    }

    /// The displacement from `rhs` to `self`, axis by axis.
    pub open spec fn minus_spec(self, rhs: Self) -> Vector3<T> {
        Vector3 {
            x: self.x.minus_spec(rhs.x),
            y: self.y.minus_spec(rhs.y),
            z: self.z.minus_spec(rhs.z),
        }
    }

    /// `self` moved by `v`, axis by axis.
    pub open spec fn translated_spec(self, v: Vector3<T>) -> Self {
        Point3 {
            x: self.x.plus_spec(v.x),
            y: self.y.plus_spec(v.y),
            z: self.z.plus_spec(v.z),
        }
    }

    /// `self` moved against `v`, axis by axis.
    pub open spec fn translated_back_spec(self, v: Vector3<T>) -> Self {
        Point3 {
            x: self.x.minus_spec(v.x),
            y: self.y.minus_spec(v.y),
            z: self.z.minus_spec(v.z),
        }
    }

    /// Whether `self` is at most `rhs` on every axis.
    pub open spec fn all_at_most(self, rhs: Self) -> bool {
        self.x.at_most(rhs.x) && self.y.at_most(rhs.y) && self.z.at_most(rhs.z)
    }

    pub fn minus(self, rhs: Self) -> (r: Vector3<T>)
        ensures
            r == self.minus_spec(rhs),
    {
        Vector3 { x: self.x.minus(rhs.x), y: self.y.minus(rhs.y), z: self.z.minus(rhs.z) }
    }

    pub fn translated(self, v: Vector3<T>) -> (r: Self)
        ensures
            r == self.translated_spec(v),
    {
        Point3 { x: self.x.plus(v.x), y: self.y.plus(v.y), z: self.z.plus(v.z) }
    }

    pub fn translated_back(self, v: Vector3<T>) -> (r: Self)
        ensures
            r == self.translated_back_spec(v),
    {
        Point3 { x: self.x.minus(v.x), y: self.y.minus(v.y), z: self.z.minus(v.z) }
    }

    pub fn le_all(self, rhs: Self) -> (r: bool)
        ensures
            r == self.all_at_most(rhs),
    {
        self.x.le(rhs.x) && self.y.le(rhs.y) && self.z.le(rhs.z)
    }
}

impl<T: FallibleNumeric> Vector3<T> {
    pub fn new(x: T, y: T, z: T) -> (r: Self)
        ensures
            r == (Vector3 { x, y, z }),
    {
        Vector3 { x, y, z }
    }

    /// The dot product, summed from the first axis to the last:
    /// `(x·x' + y·y') + z·z'`.
    pub open spec fn dot_spec(self, rhs: Self) -> T {
        self.x.times_spec(rhs.x).plus_spec(self.y.times_spec(rhs.y)).plus_spec(
            self.z.times_spec(rhs.z),
        )
    }

    /// Every component multiplied by `k`.
    pub open spec fn scale_spec(self, k: T) -> Self {
        Vector3 { x: self.x.times_spec(k), y: self.y.times_spec(k), z: self.z.times_spec(k) }
    }

    /// Every component divided by `k`.
    pub open spec fn unscale_spec(self, k: T) -> Self {
        Vector3 { x: self.x.over_spec(k), y: self.y.over_spec(k), z: self.z.over_spec(k) }
    }

    /// The Euclidean length: the square root of `self · self`.
    pub open spec fn norm_spec(self) -> T {
        self.dot_spec(self).sqrt_spec()
    }

    /// `self` divided by its own length.
    pub open spec fn normalized_spec(self) -> Self {
        self.unscale_spec(self.norm_spec())
    }

    pub fn dot(self, rhs: Self) -> (r: T)
        ensures
            r == self.dot_spec(rhs),
    {
        self.x.times(rhs.x).plus(self.y.times(rhs.y)).plus(self.z.times(rhs.z))
    }

    pub fn scale(self, k: T) -> (r: Self)
        ensures
            r == self.scale_spec(k),
    {
        Vector3 { x: self.x.times(k), y: self.y.times(k), z: self.z.times(k) }
    }

    pub fn unscale(self, k: T) -> (r: Self)
        ensures
            r == self.unscale_spec(k),
    {
        Vector3 { x: self.x.over(k), y: self.y.over(k), z: self.z.over(k) }
    }

    pub fn norm(self) -> (r: T)
        ensures
            r == self.norm_spec(),
    {
        self.dot(self).sqrt()
    }

    /// The vector of the same direction and of length one, as far as the
    /// scalar type's rounding allows.
    pub fn normalized(self) -> (r: Self)
        ensures
            r == self.normalized_spec(),
    {
        let n = self.norm();
        self.unscale(n)
    }
}

} // verus!
