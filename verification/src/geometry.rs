//! The primitives, their bounding box, and the exact geometry that the
//! sphere test rests on.

pub mod aabb;
pub mod exact;
pub mod sphere;

pub use aabb::Aabb;
pub use sphere::Sphere;
