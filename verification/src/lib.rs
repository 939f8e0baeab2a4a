//! Ray/primitive intersection and bounding boxes, written once over an
//! abstract real-number type.
//!
//! Every operation of the scalar type is named by a specification function of
//! [`traits::FallibleNumeric`]; the contracts of the geometry say which
//! scalar operations are applied to which values, in which order, and which
//! comparisons decide the outcome.

pub mod error;
pub mod geometry;
pub mod math;
pub mod rt;
pub mod traits;
