use vstd::prelude::*;
use crate::scalar::{
    deterministic, equal_to, from_i32, minus, negated, one, over, plus, Scalar, spec_equal_to,
    spec_from_i32, spec_minus, spec_negated, spec_one, spec_over, spec_plus, spec_square_root,
    spec_times, spec_zero, square_root, times, zero,
};
use crate::util::{a_equal_b, spec_a_equal_b};

verus! {

/// A homogeneous coordinate of four components.
///
/// By convention `w` is one for a point and zero for a vector. Nothing
/// enforces it: sums and differences carry whatever `w` the arithmetic
/// gives them.
#[derive(Clone, Copy, Debug)]
pub struct Tuple<T> {
    pub x: T,
    pub y: T,
    pub z: T,
    pub w: T,
}

/// The point `(x, y, z)`.
pub open spec fn spec_point<T: Scalar>(x: T, y: T, z: T) -> Tuple<T> {
    Tuple { x, y, z, w: spec_one::<T>() }
}

/// The vector `(x, y, z)`.
pub open spec fn spec_vector<T: Scalar>(x: T, y: T, z: T) -> Tuple<T> {
    Tuple { x, y, z, w: spec_zero::<T>() }
}

/// The vector without length.
pub fn zero_vector<T: Scalar>() -> (v: Tuple<T>)
    ensures
        deterministic::<T>() ==> v == spec_vector(
            spec_zero::<T>(),
            spec_zero::<T>(),
            spec_zero::<T>(),
        ),
{
    vector(zero(), zero(), zero())
}

pub fn point<T: Scalar>(x: T, y: T, z: T) -> (p: Tuple<T>)
    ensures
        deterministic::<T>() ==> p == spec_point(x, y, z),
{
    Tuple { x, y, z, w: one() }
}

pub fn point_i<T: Scalar>(x: i32, y: i32, z: i32) -> (p: Tuple<T>)
    ensures
        deterministic::<T>() ==> p == spec_point(
            spec_from_i32::<T>(x),
            spec_from_i32::<T>(y),
            spec_from_i32::<T>(z),
        ),
{
    point(from_i32(x), from_i32(y), from_i32(z))
}

pub fn vector<T: Scalar>(x: T, y: T, z: T) -> (v: Tuple<T>)
    ensures
        deterministic::<T>() ==> v == spec_vector(x, y, z),
{
    Tuple { x, y, z, w: zero() }
}

pub fn vector_i<T: Scalar>(x: i32, y: i32, z: i32) -> (v: Tuple<T>)
    ensures
        deterministic::<T>() ==> v == spec_vector(
            spec_from_i32::<T>(x),
            spec_from_i32::<T>(y),
            spec_from_i32::<T>(z),
        ),
{
    vector(from_i32(x), from_i32(y), from_i32(z))
}

/// The sum of the products of the components, pair by pair, `w` included.
pub open spec fn spec_dot_product<T: Scalar>(v1: Tuple<T>, v2: Tuple<T>) -> T {
    spec_plus(
        spec_plus(
            spec_plus(spec_times(v1.x, v2.x), spec_times(v1.y, v2.y)),
            spec_times(v1.z, v2.z),
        ),
        spec_times(v1.w, v2.w),
    )
}

pub fn dot_product<T: Scalar>(v1: Tuple<T>, v2: Tuple<T>) -> (d: T)
    ensures
        deterministic::<T>() ==> d == spec_dot_product(v1, v2),
{
    plus(
        plus(plus(times(v1.x, v2.x), times(v1.y, v2.y)), times(v1.z, v2.z)),
        times(v1.w, v2.w),
    )
}

/// The vector at right angles to two vectors. The `w` of the operands is
/// not looked at.
pub open spec fn spec_cross_product<T: Scalar>(v1: Tuple<T>, v2: Tuple<T>) -> Tuple<T> {
    spec_vector(
        spec_minus(spec_times(v1.y, v2.z), spec_times(v1.z, v2.y)),
        spec_minus(spec_times(v1.z, v2.x), spec_times(v1.x, v2.z)),
        spec_minus(spec_times(v1.x, v2.y), spec_times(v1.y, v2.x)),
    )
}

pub fn cross_product<T: Scalar>(v1: Tuple<T>, v2: Tuple<T>) -> (c: Tuple<T>)
    ensures
        deterministic::<T>() ==> c == spec_cross_product(v1, v2),
{
    vector(
        minus(times(v1.y, v2.z), times(v1.z, v2.y)),
        minus(times(v1.z, v2.x), times(v1.x, v2.z)),
        minus(times(v1.x, v2.y), times(v1.y, v2.x)),
    )
}

impl<T: Scalar> Tuple<T> {
    pub open spec fn spec_is_point(&self) -> bool {
        spec_equal_to(self.w, spec_one::<T>())
    }

    pub open spec fn spec_is_vector(&self) -> bool {
        spec_equal_to(self.w, spec_zero::<T>())
    }

    /// The length of the tuple: the root of the sum of the squares of all
    /// four components.
    pub open spec fn spec_magnitude(&self) -> T {
        spec_square_root(
            spec_plus(
                spec_plus(
                    spec_plus(spec_times(self.x, self.x), spec_times(self.y, self.y)),
                    spec_times(self.z, self.z),
                ),
                spec_times(self.w, self.w),
            ),
        )
    }

    /// Every component over the length.
    pub open spec fn spec_normalize(&self) -> Tuple<T> {
        self.spec_div(self.spec_magnitude())
    }

    pub open spec fn spec_add(&self, other: Tuple<T>) -> Tuple<T> {
        Tuple {
            x: spec_plus(self.x, other.x),
            y: spec_plus(self.y, other.y),
            z: spec_plus(self.z, other.z),
            w: spec_plus(self.w, other.w),
        }
    }

    pub open spec fn spec_sub(&self, other: Tuple<T>) -> Tuple<T> {
        Tuple {
            x: spec_minus(self.x, other.x),
            y: spec_minus(self.y, other.y),
            z: spec_minus(self.z, other.z),
            w: spec_minus(self.w, other.w),
        }
    }

    pub open spec fn spec_neg(&self) -> Tuple<T> {
        Tuple {
            x: spec_negated(self.x),
            y: spec_negated(self.y),
            z: spec_negated(self.z),
            w: spec_negated(self.w),
        }
    }

    pub open spec fn spec_mul(&self, rhs: T) -> Tuple<T> {
        Tuple {
            x: spec_times(self.x, rhs),
            y: spec_times(self.y, rhs),
            z: spec_times(self.z, rhs),
            w: spec_times(self.w, rhs),
        }
    }

    pub open spec fn spec_div(&self, rhs: T) -> Tuple<T> {
        Tuple {
            x: spec_over(self.x, rhs),
            y: spec_over(self.y, rhs),
            z: spec_over(self.z, rhs),
            w: spec_over(self.w, rhs),
        }
    }

    /// Whether all four components count as equal, each within the
    /// tolerance.
    pub open spec fn spec_eq(&self, other: Tuple<T>) -> bool {
        &&& spec_a_equal_b(self.x, other.x)
        &&& spec_a_equal_b(self.y, other.y)
        &&& spec_a_equal_b(self.z, other.z)
        &&& spec_a_equal_b(self.w, other.w)
    }

    pub fn is_point(&self) -> (b: bool)
        ensures
            deterministic::<T>() ==> b == self.spec_is_point(),
    {
        equal_to(self.w, one())
    }

    pub fn is_vector(&self) -> (b: bool)
        ensures
            deterministic::<T>() ==> b == self.spec_is_vector(),
    {
        equal_to(self.w, zero())
    }

    pub fn magnitude(&self) -> (m: T)
        ensures
            deterministic::<T>() ==> m == self.spec_magnitude(),
    {
        square_root(
            plus(
                plus(plus(times(self.x, self.x), times(self.y, self.y)), times(self.z, self.z)),
                times(self.w, self.w),
            ),
        )
    }

    /// The tuple scaled to length one. The result is whatever the division
    /// gives where the length is zero.
    pub fn normalize(&self) -> (n: Self)
        ensures
            deterministic::<T>() ==> n == self.spec_normalize(),
    {
        let m = self.magnitude();
        Tuple { x: over(self.x, m), y: over(self.y, m), z: over(self.z, m), w: over(self.w, m) }
    }
}

impl<T: Scalar> core::ops::Add for Tuple<T> {
    type Output = Self;

    fn add(self, other: Self) -> (r: Self) {
        Tuple {
            x: plus(self.x, other.x),
            y: plus(self.y, other.y),
            z: plus(self.z, other.z),
            w: plus(self.w, other.w),
        }
    }
}

impl<T: Scalar> vstd::std_specs::ops::AddSpecImpl for Tuple<T> {
    open spec fn obeys_add_spec() -> bool {
        deterministic::<T>()
    }

    open spec fn add_req(self, other: Self) -> bool {
        true
    }

    open spec fn add_spec(self, other: Self) -> Self {
        self.spec_add(other)
    }
}

impl<T: Scalar> core::ops::Sub for Tuple<T> {
    type Output = Self;

    fn sub(self, other: Self) -> (r: Self) {
        Tuple {
            x: minus(self.x, other.x),
            y: minus(self.y, other.y),
            z: minus(self.z, other.z),
            w: minus(self.w, other.w),
        }
    }
}

impl<T: Scalar> vstd::std_specs::ops::SubSpecImpl for Tuple<T> {
    open spec fn obeys_sub_spec() -> bool {
        deterministic::<T>()
    }

    open spec fn sub_req(self, other: Self) -> bool {
        true
    }

    open spec fn sub_spec(self, other: Self) -> Self {
        self.spec_sub(other)
    }
}

impl<T: Scalar> core::ops::Neg for Tuple<T> {
    type Output = Self;

    fn neg(self) -> (r: Self) {
        Tuple { x: negated(self.x), y: negated(self.y), z: negated(self.z), w: negated(self.w) }
    }
}

impl<T: Scalar> vstd::std_specs::ops::NegSpecImpl for Tuple<T> {
    open spec fn obeys_neg_spec() -> bool {
        deterministic::<T>()
    }

    open spec fn neg_req(self) -> bool {
        true
    }

    open spec fn neg_spec(self) -> Self {
        self.spec_neg()
    }
}

impl<T: Scalar> core::ops::Mul<T> for Tuple<T> {
    type Output = Self;

    /// Every component times `rhs`.
    fn mul(self, rhs: T) -> (r: Self) {
        Tuple {
            x: times(self.x, rhs),
            y: times(self.y, rhs),
            z: times(self.z, rhs),
            w: times(self.w, rhs),
        }
    }
}

impl<T: Scalar> vstd::std_specs::ops::MulSpecImpl<T> for Tuple<T> {
    open spec fn obeys_mul_spec() -> bool {
        deterministic::<T>()
    }

    open spec fn mul_req(self, rhs: T) -> bool {
        true
    }

    open spec fn mul_spec(self, rhs: T) -> Self {
        self.spec_mul(rhs)
    }
}

impl<T: Scalar> core::ops::Mul<i32> for Tuple<T> {
    type Output = Self;

    /// Every component times a whole number.
    fn mul(self, rhs: i32) -> (r: Self) {
        let rhs: T = from_i32(rhs);
        Tuple {
            x: times(self.x, rhs),
            y: times(self.y, rhs),
            z: times(self.z, rhs),
            w: times(self.w, rhs),
        }
    }
}

impl<T: Scalar> vstd::std_specs::ops::MulSpecImpl<i32> for Tuple<T> {
    open spec fn obeys_mul_spec() -> bool {
        deterministic::<T>()
    }

    open spec fn mul_req(self, rhs: i32) -> bool {
        true
    }

    open spec fn mul_spec(self, rhs: i32) -> Self {
        self.spec_mul(spec_from_i32::<T>(rhs))
    }
}

impl<T: Scalar> core::ops::Div<T> for Tuple<T> {
    type Output = Self;

    /// Every component over `rhs`.
    fn div(self, rhs: T) -> (r: Self) {
        Tuple {
            x: over(self.x, rhs),
            y: over(self.y, rhs),
            z: over(self.z, rhs),
            w: over(self.w, rhs),
        }
    }
}

impl<T: Scalar> vstd::std_specs::ops::DivSpecImpl<T> for Tuple<T> {
    open spec fn obeys_div_spec() -> bool {
        deterministic::<T>()
    }

    open spec fn div_req(self, rhs: T) -> bool {
        true
    }

    open spec fn div_spec(self, rhs: T) -> Self {
        self.spec_div(rhs)
    }
}

impl<T: Scalar> core::ops::Div<i32> for Tuple<T> {
    type Output = Self;

    /// Every component over a whole number.
    fn div(self, rhs: i32) -> (r: Self) {
        let rhs: T = from_i32(rhs);
        Tuple {
            x: over(self.x, rhs),
            y: over(self.y, rhs),
            z: over(self.z, rhs),
            w: over(self.w, rhs),
        }
    }
}

impl<T: Scalar> vstd::std_specs::ops::DivSpecImpl<i32> for Tuple<T> {
    open spec fn obeys_div_spec() -> bool {
        deterministic::<T>()
    }

    open spec fn div_req(self, rhs: i32) -> bool {
        true
    }

    open spec fn div_spec(self, rhs: i32) -> Self {
        self.spec_div(spec_from_i32::<T>(rhs))
    }
}

impl<T: Scalar> PartialEq for Tuple<T> {
    /// Whether the two tuples count as equal.
    fn eq(&self, other: &Self) -> (same: bool) {
        a_equal_b(self.x, other.x) && a_equal_b(self.y, other.y) && a_equal_b(self.z, other.z)
            && a_equal_b(self.w, other.w)
    }
}

impl<T: Scalar> vstd::std_specs::cmp::PartialEqSpecImpl for Tuple<T> {
    open spec fn obeys_eq_spec() -> bool {
        deterministic::<T>()
    }

    open spec fn eq_spec(&self, other: &Self) -> bool {
        self.spec_eq(*other)
    }
}

} // verus!
