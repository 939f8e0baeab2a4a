use ray_geometry::error::GeometryError;
use ray_geometry::geometry::aabb::Aabb;
use ray_geometry::geometry::sphere::{choose_root, Quadratic, Sphere};
use ray_geometry::math::{Point3, Vector3};
use ray_geometry::rt::{Hit, Ray};
use ray_geometry::traits::{Bounded, FallibleNumeric, Traceable};

/// Double precision that has a scalar for the integers up to `MAX` only.
#[derive(Clone, Copy, Debug, PartialEq)]
struct Limited<const MAX: u8>(f64);

/// Double precision with every small integer.
type F = Limited<255>;

impl<const MAX: u8> FallibleNumeric for Limited<MAX> {
    fn zero_spec() -> Self {
        Limited(0.0)
    }
    fn epsilon_spec() -> Self {
        Limited(f64::EPSILON)
    }
    fn plus_spec(self, rhs: Self) -> Self {
        Limited(self.0 + rhs.0)
    }
    fn minus_spec(self, rhs: Self) -> Self {
        Limited(self.0 - rhs.0)
    }
    fn times_spec(self, rhs: Self) -> Self {
        Limited(self.0 * rhs.0)
    }
    fn over_spec(self, rhs: Self) -> Self {
        Limited(self.0 / rhs.0)
    }
    fn negated_spec(self) -> Self {
        Limited(-self.0)
    }
    fn sqrt_spec(self) -> Self {
        Limited(self.0.sqrt())
    }
    fn below(self, rhs: Self) -> bool {
        self.0 < rhs.0
    }
    fn at_most(self, rhs: Self) -> bool {
        self.0 <= rhs.0
    }
    fn converted(n: u8) -> Option<Self> {
        if n <= MAX {
            Some(Limited(f64::from(n)))
        } else {
            None
        }
    }
    fn zero() -> Self {
        Self::zero_spec()
    }
    fn default_epsilon() -> Self {
        Self::epsilon_spec()
    }
    fn plus(self, rhs: Self) -> Self {
        self.plus_spec(rhs)
    }
    fn minus(self, rhs: Self) -> Self {
        self.minus_spec(rhs)
    }
    fn times(self, rhs: Self) -> Self {
        self.times_spec(rhs)
    }
    fn over(self, rhs: Self) -> Self {
        self.over_spec(rhs)
    }
    fn negated(self) -> Self {
        self.negated_spec()
    }
    fn sqrt(self) -> Self {
        self.sqrt_spec()
    }
    fn lt(self, rhs: Self) -> bool {
        self.below(rhs)
    }
    fn le(self, rhs: Self) -> bool {
        self.at_most(rhs)
    }
    fn try_from_u8(n: u8) -> Option<Self> {
        Self::converted(n)
    }
}

fn p(x: f64, y: f64, z: f64) -> Point3<F> {
    Point3::new(Limited(x), Limited(y), Limited(z))
}

fn v(x: f64, y: f64, z: f64) -> Vector3<F> {
    Vector3::new(Limited(x), Limited(y), Limited(z))
}

fn sphere(center: Point3<F>, radius: f64) -> Sphere<F> {
    match Sphere::new(center, Limited(radius)) {
        Ok(s) => s,
        Err(_) => panic!("the radius is not below zero"),
    }
}

fn unit_sphere() -> Sphere<F> {
    sphere(p(0.0, 0.0, 0.0), 1.0)
}

fn hit_of(s: &Sphere<F>, ray: &Ray<F>) -> Hit<F> {
    match s.intersect(ray) {
        Ok(Some(h)) => h,
        Ok(None) => panic!("the ray should hit"),
        Err(_) => panic!("no conversion fails here"),
    }
}

fn length(v: Vector3<F>) -> f64 {
    (v.x.0 * v.x.0 + v.y.0 * v.y.0 + v.z.0 * v.z.0).sqrt()
}

#[test]
fn head_on_ray_hits_at_four() {
    let s = unit_sphere();
    let ray = Ray::new(p(0.0, 0.0, -5.0), v(0.0, 0.0, 1.0));
    let h = hit_of(&s, &ray);
    assert_eq!(h.t, Limited(4.0));
    assert_eq!(h.primitive_id, 0);
    assert_eq!(ray.at(h.t), p(0.0, 0.0, -1.0));
    assert_eq!(h.shading_normal, v(0.0, 0.0, -1.0));
    assert_eq!(h.geometric_normal, v(0.0, 0.0, -1.0));
}

#[test]
fn ray_past_an_offset_sphere_misses() {
    let s = sphere(p(5.0, 0.0, 0.0), 1.0);
    let ray = Ray::new(p(0.0, 0.0, -5.0), v(0.0, 0.0, 1.0));
    assert_eq!(s.intersect(&ray), Ok(None));
}

#[test]
fn tangent_ray_hits_once_at_five() {
    let s = unit_sphere();
    let ray = Ray::new(p(0.0, 1.0, -5.0), v(0.0, 0.0, 1.0));
    let two = Limited(2.0);
    let four = Limited(4.0);
    let q = s.quadratic(&ray, two);
    assert_eq!(q.discriminant(four), Limited(0.0));
    assert_eq!(q.roots(two, four), (Limited(5.0), Limited(5.0)));
    let h = hit_of(&s, &ray);
    assert_eq!(h.t, Limited(5.0));
    assert_eq!(ray.at(h.t), p(0.0, 1.0, 0.0));
    assert_eq!(h.shading_normal, v(0.0, 1.0, 0.0));
    assert_eq!(h.geometric_normal, v(0.0, 1.0, 0.0));
}

#[test]
fn box_of_radius_two_at_origin() {
    let s = sphere(p(0.0, 0.0, 0.0), 2.0);
    match s.aabb() {
        Ok(b) => {
            assert_eq!(b.min(), p(-2.0, -2.0, -2.0));
            assert_eq!(b.max(), p(2.0, 2.0, 2.0));
        }
        Err(_) => panic!("a sphere of radius two has a box"),
    }
}

#[test]
fn box_follows_the_center() {
    let s = sphere(p(1.0, -2.0, 3.0), 0.5);
    match s.aabb() {
        Ok(b) => {
            assert_eq!(b.min(), p(0.5, -2.5, 2.5));
            assert_eq!(b.max(), p(1.5, -1.5, 3.5));
        }
        Err(_) => panic!("the sphere has a box"),
    }
}

#[test]
fn radius_not_below_zero_is_accepted() {
    for r in [0.0, 0.25, 1.0, 2.5, 1.0e300, f64::INFINITY] {
        let made = Sphere::new(p(1.0, 2.0, 3.0), Limited::<255>(r));
        assert_eq!(made, Ok(Sphere { center: p(1.0, 2.0, 3.0), radius: Limited(r) }));
    }
}

#[test]
fn radius_below_zero_is_refused_with_its_value() {
    for r in [-1.0, -0.25, -1.0e-300, f64::NEG_INFINITY] {
        let made = Sphere::new(p(1.0, 2.0, 3.0), Limited::<255>(r));
        assert_eq!(made, Err(GeometryError::InvalidRadius { radius: Limited(r) }));
    }
}

#[test]
fn radius_that_is_no_number_is_let_through_and_has_no_box() {
    let made = Sphere::new(p(0.0, 0.0, 0.0), Limited::<255>(f64::NAN));
    let s = match made {
        Ok(s) => s,
        Err(_) => panic!("only a radius below zero is refused"),
    };
    assert!(matches!(s.aabb(), Err(GeometryError::InvalidBounds { .. })));
    let ray = Ray::new(p(0.0, 0.0, -5.0), v(0.0, 0.0, 1.0));
    assert_eq!(s.intersect(&ray), Ok(None));
}

#[test]
fn ray_from_inside_hits_at_the_exit() {
    let s = unit_sphere();
    let ray = Ray::new(p(0.0, 0.0, 0.0), v(0.0, 0.0, 1.0));
    let two = Limited(2.0);
    let four = Limited(4.0);
    assert_eq!(s.quadratic(&ray, two).roots(two, four), (Limited(-1.0), Limited(1.0)));
    let h = hit_of(&s, &ray);
    assert_eq!(h.t, Limited(1.0));
    assert_eq!(ray.at(h.t), p(0.0, 0.0, 1.0));
    assert_eq!(h.shading_normal, v(0.0, 0.0, 1.0));
}

#[test]
fn ray_from_inside_off_center_hits_at_the_exit() {
    let s = sphere(p(0.0, 0.0, 0.0), 2.0);
    let ray = Ray::new(p(0.0, 0.0, 1.0), v(0.0, 0.0, -1.0));
    let h = hit_of(&s, &ray);
    assert_eq!(h.t, Limited(3.0));
    assert_eq!(ray.at(h.t), p(0.0, 0.0, -2.0));
    assert_eq!(h.geometric_normal, v(0.0, 0.0, -1.0));
}

#[test]
fn sphere_behind_the_ray_is_missed() {
    let s = unit_sphere();
    let ray = Ray::new(p(0.0, 0.0, 5.0), v(0.0, 0.0, 1.0));
    let two = Limited(2.0);
    let four = Limited(4.0);
    assert_eq!(s.quadratic(&ray, two).roots(two, four), (Limited(-6.0), Limited(-4.0)));
    assert_eq!(s.intersect(&ray), Ok(None));
}

#[test]
fn ray_leaving_from_the_surface_does_not_hit_itself() {
    let s = unit_sphere();
    let ray = Ray::new(p(0.0, 0.0, 1.0), v(0.0, 0.0, 1.0));
    assert_eq!(s.intersect(&ray), Ok(None));
}

#[test]
fn ray_entering_from_the_surface_hits_the_far_side() {
    let s = unit_sphere();
    let ray = Ray::new(p(0.0, 0.0, -1.0), v(0.0, 0.0, 1.0));
    let h = hit_of(&s, &ray);
    assert_eq!(h.t, Limited(2.0));
    assert_eq!(h.shading_normal, v(0.0, 0.0, 1.0));
}

#[test]
fn parameter_is_in_units_of_the_direction() {
    let s = unit_sphere();
    let ray = Ray::new(p(0.0, 0.0, -5.0), v(0.0, 0.0, 2.0));
    let q = s.quadratic(&ray, Limited(2.0));
    assert_eq!(q, Quadratic { a: Limited(4.0), b: Limited(-20.0), c: Limited(24.0) });
    assert_eq!(q.discriminant(Limited(4.0)), Limited(16.0));
    let h = hit_of(&s, &ray);
    assert_eq!(h.t, Limited(2.0));
    assert_eq!(ray.at(h.t), p(0.0, 0.0, -1.0));
}

#[test]
fn ray_without_direction_from_inside_hits_nothing() {
    let s = unit_sphere();
    let ray = Ray::new(p(0.0, 0.0, 0.0), v(0.0, 0.0, 0.0));
    assert_eq!(s.intersect(&ray), Ok(None));
}

#[test]
fn oblique_hit_lies_on_the_sphere_with_outward_unit_normal() {
    let s = sphere(p(1.0, -1.0, 2.0), 1.5);
    let ray = Ray::new(p(0.5, 4.0, -3.0), v(0.1, -0.9, 1.0));
    let two = Limited(2.0);
    let four = Limited(4.0);
    let (near, far) = s.quadratic(&ray, two).roots(two, four);
    assert!(near.0 > f64::EPSILON && near.0 < far.0);
    let h = hit_of(&s, &ray);
    assert_eq!(h.t, near);
    let out = ray.at(h.t).minus(s.center);
    assert!((length(out) - 1.5).abs() < 1.0e-9);
    assert!((length(h.shading_normal) - 1.0).abs() < 1.0e-12);
    assert!(h.shading_normal.dot(out).0 > 0.0);
    assert_eq!(h.shading_normal, h.geometric_normal);
    assert_eq!(h.shading_normal, s.normal_at(&ray, h.t));
}

#[test]
fn oblique_miss() {
    let s = sphere(p(1.0, -1.0, 2.0), 1.5);
    let ray = Ray::new(p(0.5, 4.0, -3.0), v(1.0, 0.2, 0.1));
    let q = s.quadratic(&ray, Limited(2.0));
    assert!(q.discriminant(Limited(4.0)).0 < 0.0);
    assert_eq!(s.intersect(&ray), Ok(None));
}

#[test]
fn missing_two_fails_before_anything_else() {
    let s = match Sphere::new(
        Point3::new(Limited::<1>(0.0), Limited(0.0), Limited(0.0)),
        Limited(1.0),
    ) {
        Ok(s) => s,
        Err(_) => panic!("the radius is not below zero"),
    };
    let origin = Point3::new(Limited::<1>(0.0), Limited(0.0), Limited(-5.0));
    let hits = Ray::new(origin, Vector3::new(Limited(0.0), Limited(0.0), Limited(1.0)));
    let misses = Ray::new(origin, Vector3::new(Limited(1.0), Limited(0.0), Limited(0.0)));
    assert_eq!(s.intersect(&hits), Err(GeometryError::NumericConversion { value: 2 }));
    assert_eq!(s.intersect(&misses), Err(GeometryError::NumericConversion { value: 2 }));
}

#[test]
fn missing_four_fails_after_two() {
    let s = match Sphere::new(
        Point3::new(Limited::<3>(0.0), Limited(0.0), Limited(0.0)),
        Limited(1.0),
    ) {
        Ok(s) => s,
        Err(_) => panic!("the radius is not below zero"),
    };
    let origin = Point3::new(Limited::<3>(0.0), Limited(0.0), Limited(-5.0));
    let hits = Ray::new(origin, Vector3::new(Limited(0.0), Limited(0.0), Limited(1.0)));
    let misses = Ray::new(origin, Vector3::new(Limited(1.0), Limited(0.0), Limited(0.0)));
    assert_eq!(s.intersect(&hits), Err(GeometryError::NumericConversion { value: 4 }));
    assert_eq!(s.intersect(&misses), Err(GeometryError::NumericConversion { value: 4 }));
}

#[test]
fn conclude_answers_for_each_outcome_of_the_conversions() {
    let s = unit_sphere();
    let ray = Ray::new(p(0.0, 0.0, -5.0), v(0.0, 0.0, 1.0));
    let two = Some(Limited(2.0));
    let four = Some(Limited(4.0));
    assert_eq!(s.conclude(&ray, None, None), Err(GeometryError::NumericConversion { value: 2 }));
    assert_eq!(s.conclude(&ray, None, four), Err(GeometryError::NumericConversion { value: 2 }));
    assert_eq!(s.conclude(&ray, two, None), Err(GeometryError::NumericConversion { value: 4 }));
    assert_eq!(s.conclude(&ray, two, four), s.intersect(&ray));
    assert_eq!(s.conclude(&ray, two, four), Ok(s.solve(&ray, Limited(2.0), Limited(4.0))));
}

#[test]
fn solve_uses_the_scalars_it_is_given() {
    let s = unit_sphere();
    let ray = Ray::new(p(0.0, 0.0, -5.0), v(0.0, 0.0, 1.0));
    // With 1 in place of 2: a = 1, b = -5, c = 24, so b² - 4ac is below zero.
    assert_eq!(s.solve(&ray, Limited(1.0), Limited(4.0)), None);
    // With 0 in place of 4 the discriminant is b² = 100: roots 0 and 10.
    let h = match s.solve(&ray, Limited(2.0), Limited(0.0)) {
        Some(h) => h,
        None => panic!("the far root exceeds epsilon"),
    };
    assert_eq!(h.t, Limited(10.0));
}

#[test]
fn choose_root_prefers_the_near_root() {
    let eps: F = Limited(f64::EPSILON);
    assert_eq!(choose_root(Limited(4.0), Limited(6.0), eps), Some(Limited(4.0)));
    assert_eq!(choose_root(Limited(-1.0), Limited(1.0), eps), Some(Limited(1.0)));
    assert_eq!(choose_root(Limited(0.0), Limited(3.0), eps), Some(Limited(3.0)));
    assert_eq!(choose_root(Limited(f64::EPSILON), Limited(3.0), eps), Some(Limited(3.0)));
    assert_eq!(choose_root(Limited(-6.0), Limited(-4.0), eps), None);
    assert_eq!(choose_root(Limited(-2.0), Limited(0.0), eps), None);
    assert_eq!(choose_root(Limited(f64::NAN), Limited(f64::NAN), eps), None);
    assert_eq!(choose_root(Limited(2.0), Limited(1.0), Limited::<255>(1.5)), Some(Limited(2.0)));
}

#[test]
fn discriminant_and_roots_of_a_quadratic() {
    let q: Quadratic<F> = Quadratic { a: Limited(1.0), b: Limited(-10.0), c: Limited(24.0) };
    assert_eq!(q.discriminant(Limited(4.0)), Limited(4.0));
    assert_eq!(q.roots(Limited(2.0), Limited(4.0)), (Limited(4.0), Limited(6.0)));
    let q: Quadratic<F> = Quadratic { a: Limited(2.0), b: Limited(3.0), c: Limited(-2.0) };
    assert_eq!(q.discriminant(Limited(4.0)), Limited(25.0));
    assert_eq!(q.roots(Limited(2.0), Limited(4.0)), (Limited(-2.0), Limited(0.5)));
}

#[test]
fn box_needs_min_at_most_max_on_every_axis() {
    let made = Aabb::new(p(0.0, 0.0, 0.0), p(1.0, 2.0, 3.0));
    match made {
        Ok(b) => {
            assert_eq!(b.min(), p(0.0, 0.0, 0.0));
            assert_eq!(b.max(), p(1.0, 2.0, 3.0));
        }
        Err(_) => panic!("min is at most max"),
    }
    assert!(Aabb::new(p(1.0, 1.0, 1.0), p(1.0, 1.0, 1.0)).is_ok());
    for (lo, hi) in [
        (p(2.0, 0.0, 0.0), p(1.0, 2.0, 3.0)),
        (p(0.0, 3.0, 0.0), p(1.0, 2.0, 3.0)),
        (p(0.0, 0.0, 4.0), p(1.0, 2.0, 3.0)),
    ] {
        assert_eq!(Aabb::new(lo, hi), Err(GeometryError::InvalidBounds { min: lo, max: hi }));
    }
    assert!(Aabb::new(p(0.0, f64::NAN, 0.0), p(1.0, 2.0, 3.0)).is_err());
}

#[test]
fn vector_arithmetic() {
    assert_eq!(v(1.0, 2.0, 3.0).dot(v(4.0, 5.0, 6.0)), Limited(32.0));
    assert_eq!(v(1.0, -2.0, 3.0).scale(Limited(2.0)), v(2.0, -4.0, 6.0));
    assert_eq!(v(1.0, -2.0, 3.0).unscale(Limited(2.0)), v(0.5, -1.0, 1.5));
    assert_eq!(v(3.0, 4.0, 0.0).norm(), Limited(5.0));
    assert_eq!(v(3.0, 4.0, 0.0).normalized(), v(0.6, 0.8, 0.0));
    assert_eq!(v(0.0, 0.0, -7.0).normalized(), v(0.0, 0.0, -1.0));
}

#[test]
fn point_arithmetic() {
    assert_eq!(p(1.0, 2.0, 3.0).minus(p(0.5, 4.0, -1.0)), v(0.5, -2.0, 4.0));
    assert_eq!(p(1.0, 2.0, 3.0).translated(v(0.5, 4.0, -1.0)), p(1.5, 6.0, 2.0));
    assert_eq!(p(1.0, 2.0, 3.0).translated_back(v(0.5, 4.0, -1.0)), p(0.5, -2.0, 4.0));
    assert!(p(1.0, 2.0, 3.0).le_all(p(1.0, 2.5, 4.0)));
    assert!(!p(1.0, 2.0, 3.0).le_all(p(1.0, 1.5, 4.0)));
    let ray = Ray::new(p(1.0, 2.0, 3.0), v(1.0, 0.0, -2.0));
    assert_eq!(ray.at(Limited(1.5)), p(2.5, 2.0, 0.0));
}

#[test]
fn hit_keeps_what_it_is_given() {
    let h = Hit::new(7, Limited::<255>(2.0), v(0.0, 1.0, 0.0), v(1.0, 0.0, 0.0));
    assert_eq!(h.primitive_id, 7);
    assert_eq!(h.t, Limited(2.0));
    assert_eq!(h.shading_normal, v(0.0, 1.0, 0.0));
    assert_eq!(h.geometric_normal, v(1.0, 0.0, 0.0));
}
