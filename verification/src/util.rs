use vstd::prelude::*;
use crate::scalar::{
    absolute, deterministic, from_i32, from_u32, less_than, minus, over, pi, Scalar, spec_absolute,
    spec_from_i32, spec_from_u32, spec_less_than, spec_minus, spec_one, spec_over, spec_pi,
    spec_times, spec_truncated, times, truncated,
};

verus! {

/// The tolerance of comparisons: one hundred-thousandth.
pub open spec fn spec_epsilon<T: Scalar>() -> T {
    spec_over(spec_one::<T>(), spec_from_i32::<T>(100000))
}

/// Whether `a` counts as equal to `b`: the absolute value of `a` exceeds
/// that of `b` by less than the tolerance.
///
/// The test looks at the two absolute values and not at the distance of the
/// numbers, so a number counts as equal to every number that is larger in
/// absolute value, and to its own negative.
pub open spec fn spec_a_equal_b<T: Scalar>(a: T, b: T) -> bool {
    spec_less_than(spec_minus(spec_absolute(a), spec_absolute(b)), spec_epsilon::<T>())
}

pub fn a_equal_b<T: Scalar>(a: T, b: T) -> (close: bool)
    ensures
        deterministic::<T>() ==> close == spec_a_equal_b(a, b),
{
    let epsilon = over(from_i32::<T>(1), from_i32::<T>(100000));
    less_than(minus(absolute(a), absolute(b)), epsilon)
}

/// An angle in radians, from degrees: the degrees over 180, times pi.
pub open spec fn spec_radians<T: Scalar>(degrees: T) -> T {
    spec_times(spec_over(degrees, spec_from_i32::<T>(180)), spec_pi::<T>())
}

pub fn radians<T: Scalar>(degrees: T) -> (angle: T)
    ensures
        deterministic::<T>() ==> angle == spec_radians(degrees),
{
    times(over(degrees, from_i32::<T>(180)), pi::<T>())
}

pub fn radians_i<T: Scalar>(degrees: i32) -> (angle: T)
    ensures
        deterministic::<T>() ==> angle == spec_radians(spec_from_i32::<T>(degrees)),
{
    radians(from_i32::<T>(degrees))
}

/// The pixel index for a whole number of pixels from the middle of the
/// canvas: the middle is at half the canvas size, and the index is held
/// within `0 ..= canvas_size - 1`.
///
/// A canvas of size zero has no pixel: the result is then the largest
/// index there is, which lies outside every canvas.
pub open spec fn spec_clamp_index(offset: int, canvas_size: int) -> int {
    let shifted = offset + canvas_size / 2;
    if canvas_size == 0 {
        u32::MAX as int
    } else if shifted < 0 {
        0
    } else if shifted >= canvas_size {
        canvas_size - 1
    } else {
        shifted
    }
}

/// The pixel index of a coordinate that runs from -1 to 1 across the
/// canvas: the coordinate times half the canvas size, cut to a whole
/// number, counted from the middle and held within the canvas.
pub open spec fn spec_normalize_coordinate<T: Scalar>(coordinate: T, canvas_size: u32) -> int {
    spec_clamp_index(
        spec_truncated(
            spec_times(coordinate, spec_over(spec_from_u32::<T>(canvas_size), spec_from_i32::<T>(2))),
        ) as int,
        canvas_size as int,
    )
}

pub fn normalize_coordinate<T: Scalar>(coordinate: T, canvas_size: u32) -> (index: u32)
    ensures
        deterministic::<T>() ==> index == spec_normalize_coordinate(coordinate, canvas_size),
        canvas_size > 0 ==> index < canvas_size,
{
    let offset: i32 = truncated(times(coordinate, over(from_u32::<T>(canvas_size), from_i32::<T>(2))));
    let half: i64 = (canvas_size / 2) as i64;
    let shifted: i64 = offset as i64 + half;
    if canvas_size == 0 {
        u32::MAX
    } else if shifted < 0 {
        0
    } else if shifted >= canvas_size as i64 {
        canvas_size - 1
    } else {
        shifted as u32
    }
}

} // verus!
