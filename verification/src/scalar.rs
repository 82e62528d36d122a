use vstd::prelude::*;

verus! {

/// The number type that coordinates, matrix entries and colour channels are
/// made of, with the operations that the engine performs on it.
///
/// The engine asks nothing of how an operation is carried out. What it
/// computes is stated over the results of these operations, whatever they
/// are, on the one condition that an operation gives one result for given
/// operands (see `deterministic`).
pub trait Scalar: Copy + Sized {
    /// The number for a whole number.
    fn from_i32(n: i32) -> Self;

    /// The number for a whole number that is not negative.
    fn from_u32(n: u32) -> Self;

    /// The ratio of a circle's circumference to its diameter.
    fn pi() -> Self;

    /// The sum.
    fn plus(self, other: Self) -> Self;

    /// The difference: `self` less `other`.
    fn minus(self, other: Self) -> Self;

    /// The product.
    fn times(self, other: Self) -> Self;

    /// The quotient: `self` divided by `other`.
    fn over(self, other: Self) -> Self;

    /// The number with its sign changed.
    fn negated(self) -> Self;

    /// The absolute value.
    fn absolute(self) -> Self;

    /// The square root.
    fn square_root(self) -> Self;

    /// The sine of an angle in radians.
    fn sine(self) -> Self;

    /// The cosine of an angle in radians.
    fn cosine(self) -> Self;

    /// The nearest whole number, halves away from zero.
    fn rounded(self) -> Self;

    /// The whole part of the number, held within the range of `i32`.
    fn truncated(self) -> i32;

    /// Whether `self` is less than `other`.
    fn less_than(self, other: Self) -> bool;

    /// Whether the two numbers compare equal.
    fn equal_to(self, other: Self) -> bool;
}

/// The number for a whole number.
pub open spec fn spec_from_i32<T: Scalar>(n: i32) -> T {
    choose|r: T| call_ensures(T::from_i32, (n,), r)
}

/// The number for a whole number that is not negative.
pub open spec fn spec_from_u32<T: Scalar>(n: u32) -> T {
    choose|r: T| call_ensures(T::from_u32, (n,), r)
}

/// The ratio of a circle's circumference to its diameter.
pub open spec fn spec_pi<T: Scalar>() -> T {
    choose|r: T| call_ensures(T::pi, (), r)
}

/// The whole part of a number, held within the range of `i32`.
pub open spec fn spec_truncated<T: Scalar>(a: T) -> i32 {
    choose|r: i32| call_ensures(T::truncated, (a,), r)
}

/// The number with its sign changed.
pub open spec fn spec_negated<T: Scalar>(a: T) -> T {
    choose|r: T| call_ensures(T::negated, (a,), r)
}

/// The absolute value of a number.
pub open spec fn spec_absolute<T: Scalar>(a: T) -> T {
    choose|r: T| call_ensures(T::absolute, (a,), r)
}

/// The square root of a number.
pub open spec fn spec_square_root<T: Scalar>(a: T) -> T {
    choose|r: T| call_ensures(T::square_root, (a,), r)
}

/// The sine of an angle in radians.
pub open spec fn spec_sine<T: Scalar>(a: T) -> T {
    choose|r: T| call_ensures(T::sine, (a,), r)
}

/// The cosine of an angle in radians.
pub open spec fn spec_cosine<T: Scalar>(a: T) -> T {
    choose|r: T| call_ensures(T::cosine, (a,), r)
}

/// The nearest whole number, as a number of the same type.
pub open spec fn spec_rounded<T: Scalar>(a: T) -> T {
    choose|r: T| call_ensures(T::rounded, (a,), r)
}

/// The sum of two numbers.
pub open spec fn spec_plus<T: Scalar>(a: T, b: T) -> T {
    choose|r: T| call_ensures(T::plus, (a, b), r)
}

/// The difference of two numbers.
pub open spec fn spec_minus<T: Scalar>(a: T, b: T) -> T {
    choose|r: T| call_ensures(T::minus, (a, b), r)
}

/// The product of two numbers.
pub open spec fn spec_times<T: Scalar>(a: T, b: T) -> T {
    choose|r: T| call_ensures(T::times, (a, b), r)
}

/// The quotient of two numbers.
pub open spec fn spec_over<T: Scalar>(a: T, b: T) -> T {
    choose|r: T| call_ensures(T::over, (a, b), r)
}

/// Whether the first number is less than the second.
pub open spec fn spec_less_than<T: Scalar>(a: T, b: T) -> bool {
    choose|r: bool| call_ensures(T::less_than, (a, b), r)
}

/// Whether two numbers compare equal.
pub open spec fn spec_equal_to<T: Scalar>(a: T, b: T) -> bool {
    choose|r: bool| call_ensures(T::equal_to, (a, b), r)
}

/// Zero, as the number type has it.
pub open spec fn spec_zero<T: Scalar>() -> T {
    spec_from_i32(0)
}

/// One, as the number type has it.
pub open spec fn spec_one<T: Scalar>() -> T {
    spec_from_i32(1)
}

/// Whether each operation of the number type gives one result for given
/// operands: computing is repeatable.
///
/// Every statement that this crate makes about a number computed holds on
/// this condition. It is met by a number type whose operations are
/// functions of their operands, and by none that draws on chance or on
/// hidden state.
pub open spec fn deterministic<T: Scalar>() -> bool {
    &&& forall|n: i32, r1: T, r2: T|
        call_ensures(T::from_i32, (n,), r1) && call_ensures(T::from_i32, (n,), r2) ==> r1 == r2
    &&& forall|n: u32, r1: T, r2: T|
        call_ensures(T::from_u32, (n,), r1) && call_ensures(T::from_u32, (n,), r2) ==> r1 == r2
    &&& forall|r1: T, r2: T| call_ensures(T::pi, (), r1) && call_ensures(T::pi, (), r2) ==> r1 == r2
    &&& forall|a: T, r1: i32, r2: i32|
        call_ensures(T::truncated, (a,), r1) && call_ensures(T::truncated, (a,), r2) ==> r1 == r2
    &&& forall|a: T, r1: T, r2: T|
        call_ensures(T::negated, (a,), r1) && call_ensures(T::negated, (a,), r2) ==> r1 == r2
    &&& forall|a: T, r1: T, r2: T|
        call_ensures(T::absolute, (a,), r1) && call_ensures(T::absolute, (a,), r2) ==> r1 == r2
    &&& forall|a: T, r1: T, r2: T|
        call_ensures(T::square_root, (a,), r1) && call_ensures(T::square_root, (a,), r2) ==> r1 == r2
    &&& forall|a: T, r1: T, r2: T|
        call_ensures(T::sine, (a,), r1) && call_ensures(T::sine, (a,), r2) ==> r1 == r2
    &&& forall|a: T, r1: T, r2: T|
        call_ensures(T::cosine, (a,), r1) && call_ensures(T::cosine, (a,), r2) ==> r1 == r2
    &&& forall|a: T, r1: T, r2: T|
        call_ensures(T::rounded, (a,), r1) && call_ensures(T::rounded, (a,), r2) ==> r1 == r2
    &&& forall|a: T, b: T, r1: T, r2: T|
        call_ensures(T::plus, (a, b), r1) && call_ensures(T::plus, (a, b), r2) ==> r1 == r2
    &&& forall|a: T, b: T, r1: T, r2: T|
        call_ensures(T::minus, (a, b), r1) && call_ensures(T::minus, (a, b), r2) ==> r1 == r2
    &&& forall|a: T, b: T, r1: T, r2: T|
        call_ensures(T::times, (a, b), r1) && call_ensures(T::times, (a, b), r2) ==> r1 == r2
    &&& forall|a: T, b: T, r1: T, r2: T|
        call_ensures(T::over, (a, b), r1) && call_ensures(T::over, (a, b), r2) ==> r1 == r2
    &&& forall|a: T, b: T, r1: bool, r2: bool|
        call_ensures(T::less_than, (a, b), r1) && call_ensures(T::less_than, (a, b), r2) ==> r1 == r2
    &&& forall|a: T, b: T, r1: bool, r2: bool|
        call_ensures(T::equal_to, (a, b), r1) && call_ensures(T::equal_to, (a, b), r2) ==> r1 == r2
}

pub(crate) fn from_i32<T: Scalar>(n: i32) -> (r: T)
    ensures
        deterministic::<T>() ==> r == spec_from_i32::<T>(n),
{
    let r = T::from_i32(n);
    assert(call_ensures(T::from_i32, (n,), r));
    r
}

pub(crate) fn from_u32<T: Scalar>(n: u32) -> (r: T)
    ensures
        deterministic::<T>() ==> r == spec_from_u32::<T>(n),
{
    let r = T::from_u32(n);
    assert(call_ensures(T::from_u32, (n,), r));
    r
}

pub(crate) fn pi<T: Scalar>() -> (r: T)
    ensures
        deterministic::<T>() ==> r == spec_pi::<T>(),
{
    let r = T::pi();
    assert(call_ensures(T::pi, (), r));
    r
}

pub(crate) fn zero<T: Scalar>() -> (r: T)
    ensures
        deterministic::<T>() ==> r == spec_zero::<T>(),
{
    from_i32(0)
}

pub(crate) fn one<T: Scalar>() -> (r: T)
    ensures
        deterministic::<T>() ==> r == spec_one::<T>(),
{
    from_i32(1)
}

pub(crate) fn truncated<T: Scalar>(a: T) -> (r: i32)
    ensures
        deterministic::<T>() ==> r == spec_truncated(a),
{
    let r = a.truncated();
    assert(call_ensures(T::truncated, (a,), r));
    r
}

pub(crate) fn negated<T: Scalar>(a: T) -> (r: T)
    ensures
        deterministic::<T>() ==> r == spec_negated(a),
{
    let r = a.negated();
    assert(call_ensures(T::negated, (a,), r));
    r
}

pub(crate) fn absolute<T: Scalar>(a: T) -> (r: T)
    ensures
        deterministic::<T>() ==> r == spec_absolute(a),
{
    let r = a.absolute();
    assert(call_ensures(T::absolute, (a,), r));
    r
}

pub(crate) fn square_root<T: Scalar>(a: T) -> (r: T)
    ensures
        deterministic::<T>() ==> r == spec_square_root(a),
{
    let r = a.square_root();
    assert(call_ensures(T::square_root, (a,), r));
    r
}

pub(crate) fn sine<T: Scalar>(a: T) -> (r: T)
    ensures
        deterministic::<T>() ==> r == spec_sine(a),
{
    let r = a.sine();
    assert(call_ensures(T::sine, (a,), r));
    r
}

pub(crate) fn cosine<T: Scalar>(a: T) -> (r: T)
    ensures
        deterministic::<T>() ==> r == spec_cosine(a),
{
    let r = a.cosine();
    assert(call_ensures(T::cosine, (a,), r));
    r
}

pub(crate) fn rounded<T: Scalar>(a: T) -> (r: T)
    ensures
        deterministic::<T>() ==> r == spec_rounded(a),
{
    let r = a.rounded();
    assert(call_ensures(T::rounded, (a,), r));
    r
}

pub(crate) fn plus<T: Scalar>(a: T, b: T) -> (r: T)
    ensures
        deterministic::<T>() ==> r == spec_plus(a, b),
{
    let r = a.plus(b);
    assert(call_ensures(T::plus, (a, b), r));
    r
}

pub(crate) fn minus<T: Scalar>(a: T, b: T) -> (r: T)
    ensures
        deterministic::<T>() ==> r == spec_minus(a, b),
{
    let r = a.minus(b);
    assert(call_ensures(T::minus, (a, b), r));
    r
}

pub(crate) fn times<T: Scalar>(a: T, b: T) -> (r: T)
    ensures
        deterministic::<T>() ==> r == spec_times(a, b),
{
    let r = a.times(b);
    assert(call_ensures(T::times, (a, b), r));
    r
}

pub(crate) fn over<T: Scalar>(a: T, b: T) -> (r: T)
    ensures
        deterministic::<T>() ==> r == spec_over(a, b),
{
    let r = a.over(b);
    assert(call_ensures(T::over, (a, b), r));
    r
}

pub(crate) fn less_than<T: Scalar>(a: T, b: T) -> (r: bool)
    ensures
        deterministic::<T>() ==> r == spec_less_than(a, b),
{
    let r = a.less_than(b);
    assert(call_ensures(T::less_than, (a, b), r));
    r
}

pub(crate) fn equal_to<T: Scalar>(a: T, b: T) -> (r: bool)
    ensures
        deterministic::<T>() ==> r == spec_equal_to(a, b),
{
    let r = a.equal_to(b);
    assert(call_ensures(T::equal_to, (a, b), r));
    r
}

} // verus!
