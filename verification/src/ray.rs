use vstd::prelude::*;
use crate::matrix::{Matrix, spec_apply, spec_invert};
use crate::objects::{Object, SingularTransform};
use crate::scalar::{
    deterministic, equal_to, from_i32, less_than, minus, negated, over, plus, Scalar, spec_equal_to,
    spec_from_i32, spec_less_than, spec_minus, spec_negated, spec_over, spec_plus, spec_square_root,
    spec_times, spec_zero, square_root, times, zero,
};
use crate::tuple::{dot_product, spec_dot_product, Tuple};
use crate::util::{a_equal_b, spec_a_equal_b};

verus! {

/// A half-line: the points `origin + direction * t`.
#[derive(Clone, Copy, Debug)]
pub struct Ray<T> {
    pub origin: Tuple<T>,
    pub direction: Tuple<T>,
}

pub fn ray<T>(origin: Tuple<T>, direction: Tuple<T>) -> (r: Ray<T>)
    ensures
        r == (Ray { origin, direction }),
{
    Ray { origin, direction }
}

/// A place where a ray meets an object, by the ray's parameter.
#[derive(Clone, Copy, Debug)]
pub struct Intersection<T> {
    pub time: T,
    pub object: Object<T>,
}

pub fn intersection<T>(t: T, object: Object<T>) -> (i: Intersection<T>)
    ensures
        i == (Intersection { time: t, object }),
{
    Intersection { time: t, object }
}

/// What a ray meets: nothing, or the two places where it enters and leaves
/// a sphere (the same place twice where it only touches).
#[derive(Clone, Copy, Debug)]
pub enum Intersections<T> {
    Miss,
    Pair([Intersection<T>; 2]),
}

/// The ray with origin and direction carried over by a grid of four rows.
pub open spec fn spec_transform<T: Scalar>(r: Ray<T>, m: Seq<Seq<T>>) -> Ray<T> {
    Ray { origin: spec_apply(m, r.origin), direction: spec_apply(m, r.direction) }
}

/// The first coefficient of the equation for the times at which a ray
/// meets a sphere: the direction's product with itself.
pub open spec fn spec_a<T: Scalar>(local: Ray<T>) -> T {
    spec_dot_product(local.direction, local.direction)
}

/// The second coefficient: twice the product of the direction with the way
/// from the sphere's middle to the ray's origin.
pub open spec fn spec_b<T: Scalar>(local: Ray<T>, object: Object<T>) -> T {
    spec_times(
        spec_from_i32::<T>(2),
        spec_dot_product(local.direction, local.origin.spec_sub(object.centre())),
    )
}

/// The third coefficient: the product with itself of the way from the
/// sphere's middle to the ray's origin, less the square of the radius.
pub open spec fn spec_c<T: Scalar>(local: Ray<T>, object: Object<T>) -> T {
    let sphere_to_ray = local.origin.spec_sub(object.centre());
    spec_minus(
        spec_dot_product(sphere_to_ray, sphere_to_ray),
        spec_times(object.extent(), object.extent()),
    )
}

/// The discriminant of the equation: `b * b - 4 * a * c`.
pub open spec fn spec_discriminant<T: Scalar>(local: Ray<T>, object: Object<T>) -> T {
    let a = spec_a(local);
    let b = spec_b(local, object);
    let c = spec_c(local, object);
    spec_minus(spec_times(b, b), spec_times(spec_times(spec_from_i32::<T>(4), a), c))
}

/// Where a ray in the object's own space meets the object: nothing where
/// the discriminant is less than zero, else the two roots
/// `(-b - root) / (2 * a)` and `(-b + root) / (2 * a)`, in this order, each
/// marked with the object.
pub open spec fn spec_intersect_local<T: Scalar>(
    local: Ray<T>,
    object: Object<T>,
) -> Intersections<T> {
    let a = spec_a(local);
    let b = spec_b(local, object);
    let discriminant = spec_discriminant(local, object);
    if spec_less_than(discriminant, spec_zero::<T>()) {
        Intersections::Miss
    } else {
        let root = spec_square_root(discriminant);
        let twice_a = spec_times(spec_from_i32::<T>(2), a);
        Intersections::Pair(
            [
                Intersection {
                    time: spec_over(spec_minus(spec_negated(b), root), twice_a),
                    object,
                },
                Intersection {
                    time: spec_over(spec_plus(spec_negated(b), root), twice_a),
                    object,
                },
            ],
        )
    }
}

/// Where a ray meets an object, or nothing where the object's
/// transformation has no inverse: the ray is carried into the object's own
/// space by the inverse transformation and tested there.
pub open spec fn spec_intersect<T: Scalar>(r: Ray<T>, object: Object<T>) -> Option<
    Intersections<T>,
> {
    match spec_invert(object.pose()@) {
        None => None,
        Some(inverse) => Some(spec_intersect_local(spec_transform(r, inverse), object)),
    }
}

/// Whether a time lies ahead on the ray: it is greater than zero or equal
/// to it.
pub open spec fn spec_ahead<T: Scalar>(time: T) -> bool {
    spec_less_than(spec_zero::<T>(), time) || spec_equal_to(time, spec_zero::<T>())
}

/// The intersection that is seen: of those whose time is not negative, the
/// one with the smallest time, and the first of two with the same.
pub open spec fn spec_hit<T: Scalar>(found: Intersections<T>) -> Option<Intersection<T>> {
    match found {
        Intersections::Miss => None,
        Intersections::Pair(pair) => {
            if spec_ahead(pair[0].time) && spec_ahead(pair[1].time) {
                if spec_less_than(pair[1].time, pair[0].time) {
                    Some(pair[1])
                } else {
                    Some(pair[0])
                }
            } else if spec_ahead(pair[0].time) {
                Some(pair[0])
            } else if spec_ahead(pair[1].time) {
                Some(pair[1])
            } else {
                None
            }
        },
    }
}

impl<T: Scalar> Ray<T> {
    /// The point of the ray at a time: the origin plus the direction times
    /// the time.
    pub open spec fn spec_position(&self, time: T) -> Tuple<T> {
        self.origin.spec_add(self.direction.spec_mul(time))
    }

    /// The ray carried over by a matrix.
    pub fn transform(&self, translation: Matrix<T, 4>) -> (r: Ray<T>)
        ensures
            deterministic::<T>() ==> r == spec_transform(*self, translation@),
    {
        let origin = translation.apply(self.origin);
        let direction = translation.apply(self.direction);
        ray(origin, direction)
    }

    pub fn position(&self, time: T) -> (p: Tuple<T>)
        ensures
            deterministic::<T>() ==> p == self.spec_position(time),
    {
        self.origin + (self.direction * time)
    }

    /// Where the ray meets the object.
    pub fn intersect(&self, object: &Object<T>) -> (met: Result<Intersections<T>, SingularTransform>)
        ensures
            deterministic::<T>() ==> match met {
                Ok(found) => spec_intersect(*self, *object) == Some(found),
                Err(_) => spec_intersect(*self, *object) is None,
            },
    {
        let (transformation, object_position, radius) = match object {
            Object::Sphere { transformation, position, radius } => (
                *transformation,
                *position,
                *radius,
            ),
        };
        let inverse = match transformation.invert() {
            Some(inverse) => inverse,
            None => {
                return Err(SingularTransform);
            },
        };
        let local = self.transform(inverse);
        let sphere_to_ray = local.origin - object_position;
        let a = dot_product(local.direction, local.direction);
        let b = times(from_i32(2), dot_product(local.direction, sphere_to_ray));
        let c = minus(dot_product(sphere_to_ray, sphere_to_ray), times(radius, radius));
        let discriminant = minus(times(b, b), times(times(from_i32(4), a), c));
        if less_than(discriminant, zero()) {
            return Ok(Intersections::Miss);
        }
        let root = square_root(discriminant);
        let twice_a = times(from_i32(2), a);
        let intersect1 = over(minus(negated(b), root), twice_a);
        let intersect2 = over(plus(negated(b), root), twice_a);
        let pair = [intersection(intersect1, *object), intersection(intersect2, *object)];
        proof {
            if deterministic::<T>() {
                let want = spec_intersect_local(local, *object);
                assert(want is Pair);
                assert(pair =~= want->Pair_0);
            }
        }
        Ok(Intersections::Pair(pair))
    }
}

fn ahead<T: Scalar>(time: T) -> (b: bool)
    ensures
        deterministic::<T>() ==> b == spec_ahead(time),
{
    less_than(zero(), time) || equal_to(time, zero())
}

impl<T: Scalar> Intersections<T> {
    /// The intersection that is seen, if there is one.
    pub fn hit(&self) -> (seen: Option<Intersection<T>>)
        ensures
            deterministic::<T>() ==> seen == spec_hit(*self),
    {
        match self {
            Intersections::Miss => None,
            Intersections::Pair(pair) => {
                let first = ahead(pair[0].time);
                let second = ahead(pair[1].time);
                if first && second {
                    if less_than(pair[1].time, pair[0].time) {
                        Some(pair[1])
                    } else {
                        Some(pair[0])
                    }
                } else if first {
                    Some(pair[0])
                } else if second {
                    Some(pair[1])
                } else {
                    None
                }
            },
        }
    }
}

impl<T: Scalar> Intersection<T> {
    /// Whether two intersections count as equal: time and object each
    /// within the tolerance.
    pub open spec fn spec_eq(&self, other: Intersection<T>) -> bool {
        spec_a_equal_b(self.time, other.time) && self.object.spec_eq(other.object)
    }
}

impl<T: Scalar> PartialEq for Intersection<T> {
    fn eq(&self, other: &Self) -> (same: bool) {
        a_equal_b(self.time, other.time) && self.object == other.object
    }
}

impl<T: Scalar> vstd::std_specs::cmp::PartialEqSpecImpl for Intersection<T> {
    open spec fn obeys_eq_spec() -> bool {
        deterministic::<T>()
    }

    open spec fn eq_spec(&self, other: &Self) -> bool {
        self.spec_eq(*other)
    }
}

impl<T: Scalar> Intersections<T> {
    /// Whether two results count as equal: both nothing, or both a pair
    /// whose members count as equal one by one.
    pub open spec fn spec_eq(&self, other: Intersections<T>) -> bool {
        match (*self, other) {
            (Intersections::Miss, Intersections::Miss) => true,
            (Intersections::Pair(a), Intersections::Pair(b)) => a[0].spec_eq(b[0]) && a[1].spec_eq(
                b[1],
            ),
            _ => false,
        }
    }
}

impl<T: Scalar> PartialEq for Intersections<T> {
    fn eq(&self, other: &Self) -> (same: bool) {
        match (self, other) {
            (Intersections::Miss, Intersections::Miss) => true,
            (Intersections::Pair(a), Intersections::Pair(b)) => a[0] == b[0] && a[1] == b[1],
            _ => false,
        }
    }
}

impl<T: Scalar> vstd::std_specs::cmp::PartialEqSpecImpl for Intersections<T> {
    open spec fn obeys_eq_spec() -> bool {
        deterministic::<T>()
    }

    open spec fn eq_spec(&self, other: &Self) -> bool {
        self.spec_eq(*other)
    }
}

} // verus!
