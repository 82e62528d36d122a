use vstd::prelude::*;
use crate::matrix::{
    identity, Matrix, spec_apply, spec_identity, spec_invert, spec_matrix_eq, spec_transpose,
};
use crate::scalar::{deterministic, one, Scalar, spec_one, spec_zero, zero};
use crate::tuple::{point, spec_point, Tuple};
use crate::util::{a_equal_b, spec_a_equal_b};

verus! {

/// The transformation of an object has no inverse, so nothing can be
/// carried from the world into the object's own space.
#[derive(Clone, Copy, Debug, PartialEq, Eq, Structural)]
pub struct SingularTransform;

/// A shape in the scene, with the transformation that carries it from its
/// own space into the world.
#[derive(Clone, Copy, Debug)]
pub enum Object<T> {
    Sphere { position: Tuple<T>, radius: T, transformation: Matrix<T, 4> },
}

impl<T> Object<T> {
    /// The transformation that carries the object into the world.
    pub open spec fn pose(&self) -> Matrix<T, 4> {
        match self {
            Object::Sphere { transformation, .. } => *transformation,
        }
    }

    /// The middle of the object in its own space.
    pub open spec fn centre(&self) -> Tuple<T> {
        match self {
            Object::Sphere { position, .. } => *position,
        }
    }

    /// The radius of the object in its own space.
    pub open spec fn extent(&self) -> T {
        match self {
            Object::Sphere { radius, .. } => *radius,
        }
    }
}

/// The sphere of radius one about the origin, not transformed.
pub open spec fn spec_sphere<T: Scalar>() -> Object<T> {
    Object::Sphere {
        position: spec_point(spec_zero::<T>(), spec_zero::<T>(), spec_zero::<T>()),
        radius: spec_one::<T>(),
        transformation: spec_identity::<T>(),
    }
}

pub fn sphere<T: Scalar>() -> (s: Object<T>)
    ensures
        deterministic::<T>() ==> s == spec_sphere::<T>(),
{
    Object::Sphere {
        position: point(zero(), zero(), zero()),
        radius: one(),
        transformation: identity(),
    }
}

/// The direction at right angles to the surface of an object at a point of
/// the world, or nothing where the object's transformation has no inverse.
///
/// The point is carried into the object's space by the inverse
/// transformation. The normal there is the point less the object's middle.
/// It is carried back by the transpose of the inverse, its `w` is set to
/// zero, and it is scaled to length one.
pub open spec fn spec_normal_at<T: Scalar>(object: Object<T>, point: Tuple<T>) -> Option<Tuple<T>> {
    match spec_invert(object.pose()@) {
        None => None,
        Some(inverse) => {
            let object_point = spec_apply(inverse, point);
            let object_normal = object_point.spec_sub(object.centre());
            let world_normal = spec_apply(spec_transpose(inverse), object_normal);
            Some(
                (Tuple {
                    x: world_normal.x,
                    y: world_normal.y,
                    z: world_normal.z,
                    w: spec_zero::<T>(),
                }).spec_normalize(),
            )
        },
    }
}

impl<T: Scalar> Object<T> {
    /// Whether two objects count as equal: the same shape, with middle,
    /// radius and transformation each within the tolerance.
    pub open spec fn spec_eq(&self, other: Object<T>) -> bool {
        &&& self.centre().spec_eq(other.centre())
        &&& spec_a_equal_b(self.extent(), other.extent())
        &&& spec_matrix_eq(self.pose()@, other.pose()@)
    }

    /// The same shape with another transformation.
    pub fn set_transform(self, transform: Matrix<T, 4>) -> (o: Object<T>)
        ensures
            o.pose() == transform,
            o.centre() == self.centre(),
            o.extent() == self.extent(),
    {
        match self {
            Object::Sphere { position, radius, transformation: _ } => Object::Sphere {
                position,
                radius,
                transformation: transform,
            },
        }
    }

    pub fn normal_at(&self, point: Tuple<T>) -> (normal: Result<Tuple<T>, SingularTransform>)
        ensures
            deterministic::<T>() ==> match normal {
                Ok(n) => spec_normal_at(*self, point) == Some(n),
                Err(_) => spec_normal_at(*self, point) is None,
            },
    {
        match self {
            Object::Sphere { position, radius: _, transformation } => {
                let inverse = match transformation.invert() {
                    Some(inverse) => inverse,
                    None => {
                        return Err(SingularTransform);
                    },
                };
                let object_point = inverse.apply(point);
                let object_normal = object_point - *position;
                let world_normal = inverse.transpose().apply(object_normal);
                let world_normal = Tuple {
                    x: world_normal.x,
                    y: world_normal.y,
                    z: world_normal.z,
                    w: zero(),
                };
                Ok(world_normal.normalize())
            },
        }
    }
}

impl<T: Scalar> PartialEq for Object<T> {
    fn eq(&self, other: &Self) -> (same: bool) {
        match (self, other) {
            (
                Object::Sphere { position: p0, radius: r0, transformation: t0 },
                Object::Sphere { position: p1, radius: r1, transformation: t1 },
            ) => *p0 == *p1 && a_equal_b(*r0, *r1) && t0.close_to(t1),
        }
    }
}

impl<T: Scalar> vstd::std_specs::cmp::PartialEqSpecImpl for Object<T> {
    open spec fn obeys_eq_spec() -> bool {
        deterministic::<T>()
    }

    open spec fn eq_spec(&self, other: &Self) -> bool {
        self.spec_eq(*other)
    }
}

} // verus!
