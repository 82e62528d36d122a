use vstd::prelude::*;
use crate::canvas::{Canvas, canvas};
use crate::colour::{spec_colour_i, white};
use crate::matrix::{identity, spec_apply, spec_identity, spec_product, spec_rotation_z};
use crate::scalar::{deterministic, from_i32, Scalar, spec_from_i32, spec_times, times};
use crate::tuple::{point_i, spec_point, Tuple};
use crate::util::{normalize_coordinate, radians, spec_normalize_coordinate, spec_radians};

verus! {

/// The number of marks on the clock face.
pub const HOURS: i32 = 12;

/// Where the mark of an hour stands: the point one unit above the middle,
/// turned about the z axis by thirty degrees for every hour.
pub open spec fn spec_hour_mark<T: Scalar>(hour: i32) -> Tuple<T> {
    let angle = spec_radians(spec_times(spec_from_i32::<T>(30), spec_from_i32::<T>(hour)));
    let transform = spec_product(spec_rotation_z(angle)@, spec_identity::<T>()@);
    spec_apply(
        transform,
        spec_point(spec_from_i32::<T>(0), spec_from_i32::<T>(1), spec_from_i32::<T>(0)),
    )
}

/// Whether the mark of an hour falls on the pixel in column `x` of row `y`
/// of a square canvas.
pub open spec fn lands_on<T: Scalar>(hour: i32, size: u32, x: int, y: int) -> bool {
    &&& x == spec_normalize_coordinate(spec_hour_mark::<T>(hour).x, size)
    &&& y == spec_normalize_coordinate(spec_hour_mark::<T>(hour).y, size)
}

/// Whether the mark of one of the first `n` hours falls on the pixel.
pub open spec fn marked<T: Scalar>(n: int, size: u32, x: int, y: int) -> bool {
    exists|hour: i32| 0 <= hour < n && #[trigger] lands_on::<T>(hour, size, x, y)
}

/// Draws the twelve marks of a clock face in white on a black square
/// canvas.
pub fn render_clock<T: Scalar>(size: u32) -> (face: Canvas<T>)
    ensures
        face.wf(),
        face.width == size,
        face.height == size,
        deterministic::<T>() ==> forall|x: int, y: int|
            0 <= x < size && 0 <= y < size ==> #[trigger] face.pixel(x, y) == if marked::<T>(
                HOURS as int,
                size,
                x,
                y,
            ) {
                spec_colour_i::<T>(1, 1, 1)
            } else {
                spec_colour_i::<T>(0, 0, 0)
            },
{
    let mut face = canvas::<T>(size, size);
    let p = point_i::<T>(0, 1, 0);
    let mut time: i32 = 0;
    while time < HOURS
        invariant
            0 <= time <= HOURS,
            face.wf(),
            face.width == size,
            face.height == size,
            deterministic::<T>() ==> p == spec_point(
                spec_from_i32::<T>(0),
                spec_from_i32::<T>(1),
                spec_from_i32::<T>(0),
            ),
            deterministic::<T>() ==> forall|x: int, y: int|
                0 <= x < size && 0 <= y < size ==> #[trigger] face.pixel(x, y) == if marked::<T>(
                    time as int,
                    size,
                    x,
                    y,
                ) {
                    spec_colour_i::<T>(1, 1, 1)
                } else {
                    spec_colour_i::<T>(0, 0, 0)
                },
        decreases HOURS - time,
    {
        let transform = identity::<T>().rotate_z(radians(times(from_i32(30), from_i32(time))));
        let transformed_point = transform.apply(p);
        let x = normalize_coordinate(transformed_point.x, face.width);
        let y = normalize_coordinate(transformed_point.y, face.height);
        let ghost before = face;
        let _ = face.write_pixel(x, y, white());
        proof {
            if deterministic::<T>() {
                assert(transformed_point == spec_hour_mark::<T>(time));
                assert forall|px: int, py: int|
                    0 <= px < size && 0 <= py < size implies #[trigger] face.pixel(px, py)
                    == if marked::<T>(time + 1, size, px, py) {
                    spec_colour_i::<T>(1, 1, 1)
                } else {
                    spec_colour_i::<T>(0, 0, 0)
                } by {
                    if lands_on::<T>(time, size, px, py) {
                        assert(marked::<T>(time + 1, size, px, py));
                    } else {
                        assert(face.pixel(px, py) == before.pixel(px, py));
                        if marked::<T>(time as int, size, px, py) {
                            let hour = choose|hour: i32|
                                0 <= hour < time && #[trigger] lands_on::<T>(hour, size, px, py);
                            assert(lands_on::<T>(hour, size, px, py));
                            assert(marked::<T>(time + 1, size, px, py));
                        } else if marked::<T>(time + 1, size, px, py) {
                            let hour = choose|hour: i32|
                                0 <= hour < time + 1 && #[trigger] lands_on::<T>(
                                    hour,
                                    size,
                                    px,
                                    py,
                                );
                            assert(hour < time);
                            assert(false);
                        }
                    }
                }
            }
        }
        time += 1;
    }
    face
}

} // verus!
