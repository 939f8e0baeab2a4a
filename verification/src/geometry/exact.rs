//! The geometry behind the sphere test, in exact integer arithmetic, and
//! what it says of the test wherever the scalar type computes exactly.

use vstd::prelude::*;
use crate::error::GeometryError;
use crate::geometry::sphere::Sphere;
use crate::math::Vector3;
use crate::rt::{Hit, Ray};
use crate::traits::{exceeds, FallibleNumeric, Traceable};

verus! {

/// The dot product of two integer vectors.
pub open spec fn dot(a: (int, int, int), b: (int, int, int)) -> int {
    a.0 * b.0 + a.1 * b.1 + a.2 * b.2
}

/// `q·oc + p·d`: with `oc` the vector from a sphere's center to a line's
/// origin and `d` the line's direction, `q` times the vector from the
/// center to the line's point of parameter `p/q`.
pub open spec fn offset(oc: (int, int, int), d: (int, int, int), p: int, q: int) -> (
    int,
    int,
    int,
) {
    (q * oc.0 + p * d.0, q * oc.1 + p * d.1, q * oc.2 + p * d.2)
}

/// Whether the line's point of parameter `p/q` is farther than `r` from the
/// center, both sides of the comparison squared and multiplied by `q²`.
pub open spec fn outside_at(oc: (int, int, int), d: (int, int, int), r: int, p: int, q: int) -> bool {
    dot(offset(oc, d, p, q), offset(oc, d, p, q)) > q * q * (r * r)
}

/// Whether the line does not pass within `r` of the center: each of its
/// points of rational parameter is farther than `r` from it. (The point of
/// the line that is closest to the center has a rational parameter.)
pub open spec fn line_clear(oc: (int, int, int), d: (int, int, int), r: int) -> bool {
    forall|p: int, q: int| q != 0 ==> #[trigger] outside_at(oc, d, r, p, q)
}

/// `b² − 4ac` for `a = d·d`, `b = 2·(oc·d)` and `c = oc·oc − r²`.
pub open spec fn discriminant(oc: (int, int, int), d: (int, int, int), r: int) -> int {
    let a = dot(d, d);
    let b = 2 * dot(oc, d);
    let c = dot(oc, oc) - r * r;
    b * b - 4 * a * c
}

/// `(q·x + p·u)²`, multiplied out.
proof fn square_expands(q: int, x: int, p: int, u: int)
    ensures
        (q * x + p * u) * (q * x + p * u) == q * q * (x * x) + 2 * (p * q) * (x * u) + p * p * (u
            * u),
{
    let s = q * x;
    let t = p * u;
    assert((s + t) * (s + t) == s * s + 2 * (s * t) + t * t) by (nonlinear_arith);
    assert((q * x) * (q * x) == q * q * (x * x)) by (nonlinear_arith);
    assert((p * u) * (p * u) == p * p * (u * u)) by (nonlinear_arith);
    assert((q * x) * (p * u) == (p * q) * (x * u)) by (nonlinear_arith);
    assert(2 * ((p * q) * (x * u)) == 2 * (p * q) * (x * u)) by (nonlinear_arith);
}

/// The squared length of the offset is the quadratic in `p` and `q`.
proof fn offset_expands(oc: (int, int, int), d: (int, int, int), p: int, q: int)
    ensures
        dot(offset(oc, d, p, q), offset(oc, d, p, q)) == q * q * dot(oc, oc) + 2 * (p * q) * dot(
            oc,
            d,
        ) + p * p * dot(d, d),
{
    let (x, y, z) = oc;
    let (u, v, w) = d;
    square_expands(q, x, p, u);
    square_expands(q, y, p, v);
    square_expands(q, z, p, w);
    assert(q * q * (x * x + y * y + z * z) == q * q * (x * x) + q * q * (y * y) + q * q * (z * z))
        by (nonlinear_arith);
    assert(2 * (p * q) * (x * u + y * v + z * w) == 2 * (p * q) * (x * u) + 2 * (p * q) * (y * v)
        + 2 * (p * q) * (z * w)) by (nonlinear_arith);
    assert(p * p * (u * u + v * v + w * w) == p * p * (u * u) + p * p * (v * v) + p * p * (w * w))
        by (nonlinear_arith);
}

/// A line with a direction stays clear of a sphere exactly where the
/// equation of the line against the sphere has a discriminant below zero.
pub proof fn clear_iff_discriminant_negative(oc: (int, int, int), d: (int, int, int), r: int)
    requires
        dot(d, d) > 0,
    ensures
        line_clear(oc, d, r) <==> discriminant(oc, d, r) < 0,
{
    let a = dot(d, d);
    let m = dot(oc, d);
    let o = dot(oc, oc);
    let rr = r * r;
    if line_clear(oc, d, r) {
        assert(outside_at(oc, d, r, -m, a));
        offset_expands(oc, d, -m, a);
        assert(a * a * o + 2 * ((-m) * a) * m + (-m) * (-m) * a > a * a * rr ==> (2 * m) * (2 * m)
            - 4 * a * (o - rr) < 0) by (nonlinear_arith)
            requires
                a > 0,
        ;
    }
    if discriminant(oc, d, r) < 0 {
        assert forall|p: int, q: int| q != 0 implies #[trigger] outside_at(oc, d, r, p, q) by {
            offset_expands(oc, d, p, q);
            assert(q * q * o + 2 * (p * q) * m + p * p * a > q * q * rr) by (nonlinear_arith)
                requires
                    a > 0,
                    q != 0,
                    (2 * m) * (2 * m) - 4 * a * (o - rr) < 0,
            ;
        }
    }
}

/// The roots of the equation are the parameters at which the line is on the
/// sphere: the point of parameter `p/q` is at distance `r` from the center
/// exactly where `a·(p/q)² + b·(p/q) + c = 0`, here multiplied by `q²`.
pub proof fn on_sphere_iff_root(oc: (int, int, int), d: (int, int, int), r: int, p: int, q: int)
    ensures
        dot(offset(oc, d, p, q), offset(oc, d, p, q)) == q * q * (r * r) <==> dot(d, d) * (p * p)
            + 2 * dot(oc, d) * (p * q) + (dot(oc, oc) - r * r) * (q * q) == 0,
{
    offset_expands(oc, d, p, q);
    let a = dot(d, d);
    let m = dot(oc, d);
    let o = dot(oc, oc);
    let rr = r * r;
    assert(a * (p * p) + 2 * m * (p * q) + (o - rr) * (q * q) == q * q * o + 2 * (p * q) * m + p * p
        * a - q * q * rr) by (nonlinear_arith);
}

/// Where the origin of a ray with a direction lies strictly inside the
/// sphere, the equation of its line against the sphere has a discriminant
/// above zero, and so two distinct real roots.
pub proof fn inside_discriminant_positive(oc: (int, int, int), d: (int, int, int), r: int)
    requires
        dot(d, d) > 0,
        dot(oc, oc) < r * r,
    ensures
        discriminant(oc, d, r) > 0,
{
    let a = dot(d, d);
    let m = dot(oc, d);
    let c = dot(oc, oc) - r * r;
    assert((2 * m) * (2 * m) - 4 * a * c > 0) by (nonlinear_arith)
        requires
            a > 0,
            c < 0,
    ;
}

/// A vector read as integers, axis by axis.
pub open spec fn vector_read<T: FallibleNumeric>(val: spec_fn(T) -> int, v: Vector3<T>) -> (
    int,
    int,
    int,
) {
    (val(v.x), val(v.y), val(v.z))
}

/// The vector from the sphere's center to the ray's origin, read as
/// integers.
pub open spec fn center_to_origin<T: FallibleNumeric>(
    val: spec_fn(T) -> int,
    sphere: Sphere<T>,
    ray: Ray<T>,
) -> (int, int, int) {
    (
        val(ray.origin.x) - val(sphere.center.x),
        val(ray.origin.y) - val(sphere.center.y),
        val(ray.origin.z) - val(sphere.center.z),
    )
}

/// Whether the scalar type computes the discriminant of `ray` against
/// `sphere` without error, under the reading `val` of scalars as integers:
/// the scalar it computes reads as the integer discriminant of the data as
/// read, and is below the scalar zero exactly where that integer is below
/// zero.
pub open spec fn discriminant_is_exact<T: FallibleNumeric>(
    val: spec_fn(T) -> int,
    sphere: Sphere<T>,
    ray: Ray<T>,
    two: T,
    four: T,
) -> bool {
    let computed = sphere.quadratic_spec(ray, two).discriminant_spec(four);
    let exact = discriminant(
        center_to_origin(val, sphere, ray),
        vector_read(val, ray.direction),
        val(sphere.radius),
    );
    val(computed) == exact && (computed.below(T::zero_spec()) <==> exact < 0)
}

/// A ray whose line does not pass within the radius of the center hits
/// nothing, wherever the scalar type computes the discriminant exactly and
/// the ray has a direction.
pub proof fn ray_on_clear_line_misses<T: FallibleNumeric>(
    val: spec_fn(T) -> int,
    sphere: Sphere<T>,
    ray: Ray<T>,
    two: T,
    four: T,
)
    requires
        T::converted(2) == Some(two),
        T::converted(4) == Some(four),
        discriminant_is_exact(val, sphere, ray, two, four),
        dot(vector_read(val, ray.direction), vector_read(val, ray.direction)) > 0,
        line_clear(
            center_to_origin(val, sphere, ray),
            vector_read(val, ray.direction),
            val(sphere.radius),
        ),
    ensures
        sphere.intersection(&ray) == Ok::<Option<Hit<T>>, GeometryError<T>>(None),
{
    clear_iff_discriminant_negative(
        center_to_origin(val, sphere, ray),
        vector_read(val, ray.direction),
        val(sphere.radius),
    );
}

/// A ray whose line passes within the radius of the center, or touches the
/// sphere, is never turned away for want of roots, wherever the scalar type
/// computes the discriminant exactly and the ray has a direction.
pub proof fn line_through_sphere_has_roots<T: FallibleNumeric>(
    val: spec_fn(T) -> int,
    sphere: Sphere<T>,
    ray: Ray<T>,
    two: T,
    four: T,
)
    requires
        discriminant_is_exact(val, sphere, ray, two, four),
        dot(vector_read(val, ray.direction), vector_read(val, ray.direction)) > 0,
        !line_clear(
            center_to_origin(val, sphere, ray),
            vector_read(val, ray.direction),
            val(sphere.radius),
        ),
    ensures
        !sphere.quadratic_spec(ray, two).rootless(four),
{
    clear_iff_discriminant_negative(
        center_to_origin(val, sphere, ray),
        vector_read(val, ray.direction),
        val(sphere.radius),
    );
}

/// A ray that starts strictly inside the sphere hits it at the far root,
/// where it leaves, wherever the scalar type computes the discriminant
/// exactly, the ray has a direction, and of the two roots as computed only
/// the far one exceeds epsilon, as it does of the roots themselves.
pub proof fn ray_from_inside_leaves_at_far_root<T: FallibleNumeric>(
    val: spec_fn(T) -> int,
    sphere: Sphere<T>,
    ray: Ray<T>,
    two: T,
    four: T,
)
    requires
        T::converted(2) == Some(two),
        T::converted(4) == Some(four),
        discriminant_is_exact(val, sphere, ray, two, four),
        dot(vector_read(val, ray.direction), vector_read(val, ray.direction)) > 0,
        dot(center_to_origin(val, sphere, ray), center_to_origin(val, sphere, ray)) < val(
            sphere.radius,
        ) * val(sphere.radius),
        !exceeds(sphere.quadratic_spec(ray, two).near_root(two, four), T::epsilon_spec()),
        exceeds(sphere.quadratic_spec(ray, two).far_root(two, four), T::epsilon_spec()),
    ensures
        sphere.intersection(&ray) == Ok::<Option<Hit<T>>, GeometryError<T>>(
            Some(sphere.hit_spec(ray, sphere.quadratic_spec(ray, two).far_root(two, four))),
        ),
{
    inside_discriminant_positive(
        center_to_origin(val, sphere, ray),
        vector_read(val, ray.direction),
        val(sphere.radius),
    );
}

} // verus!
