use vstd::prelude::*;
use crate::canvas::{Canvas, canvas, CanvasError};
use crate::colour::{Colour, green, red, spec_colour_i};
use crate::matrix::spec_invert;
use crate::objects::{Object, SingularTransform};
use crate::ray::{Ray, ray, spec_hit, spec_intersect};
use crate::scalar::{
    deterministic, from_i32, from_u32, minus, negated, over, plus, Scalar, spec_from_i32,
    spec_from_u32, spec_minus, spec_negated, spec_over, spec_plus, spec_times, times,
};
use crate::tuple::{point, spec_point, Tuple};

verus! {

/// A band of rows rendered on its own, with the number of the band.
pub struct SubcanvasMessage<T> {
    pub subcanvas: Canvas<T>,
    pub thread: u32,
}

/// Why a scene could not be rendered.
#[derive(Clone, Copy, Debug, PartialEq, Eq, Structural)]
pub enum RenderError {
    /// The object's transformation has no inverse.
    SingularTransform,
    /// The scene was to be split into no bands at all.
    NoBands,
}

/// The ray from the eye through the middle of a cell of the wall.
///
/// The wall is a square of side `2 * half` at distance `wall_z`, cut into
/// cells of side `pixel_size`. Row zero is at the top, column zero at the
/// left.
pub open spec fn spec_pixel_ray<T: Scalar>(
    row: u32,
    column: u32,
    pixel_size: T,
    half: T,
    wall_z: i32,
    ray_origin: Tuple<T>,
) -> Ray<T> {
    let world_y = spec_minus(half, spec_times(pixel_size, spec_from_u32::<T>(row)));
    let world_x = spec_plus(spec_negated(half), spec_times(pixel_size, spec_from_u32::<T>(column)));
    let target = spec_point(world_x, world_y, spec_from_i32::<T>(wall_z));
    Ray { origin: ray_origin, direction: target.spec_sub(ray_origin).spec_normalize() }
}

/// Whether the object is seen through a cell of the wall: the ray through
/// the cell meets the object at a time that is not negative.
pub open spec fn spec_pixel_seen<T: Scalar>(
    row: u32,
    column: u32,
    pixel_size: T,
    half: T,
    wall_z: i32,
    ray_origin: Tuple<T>,
    sphere: Object<T>,
) -> bool {
    match spec_intersect(spec_pixel_ray(row, column, pixel_size, half, wall_z, ray_origin), sphere) {
        Some(found) => spec_hit(found) is Some,
        None => false,
    }
}

/// The first scene row of band `thread` when each band has `rows` rows.
pub open spec fn band_start(rows: int, thread: int) -> int {
    rows * thread
}

fn pixel_seen<T: Scalar>(
    row: u32,
    column: u32,
    pixel_size: T,
    half: T,
    wall_z: i32,
    ray_origin: Tuple<T>,
    sphere: &Object<T>,
) -> (seen: Result<bool, SingularTransform>)
    ensures
        deterministic::<T>() ==> match seen {
            Ok(b) => spec_invert(sphere.pose()@) is Some && b == spec_pixel_seen(
                row,
                column,
                pixel_size,
                half,
                wall_z,
                ray_origin,
                *sphere,
            ),
            Err(_) => spec_invert(sphere.pose()@) is None,
        },
{
    let world_y = minus(half, times(pixel_size, from_u32(row)));
    let world_x = plus(negated(half), times(pixel_size, from_u32(column)));
    let wall_position_target = point(world_x, world_y, from_i32(wall_z));
    let r = ray(ray_origin, (wall_position_target - ray_origin).normalize());
    match r.intersect(sphere) {
        Ok(intersects) => Ok(intersects.hit().is_some()),
        Err(e) => Err(e),
    }
}

/// Renders scene rows `first .. first + rows` into a canvas of `rows` rows:
/// a pixel through which the object is seen takes `paint`, the others stay
/// black.
fn paint_rows<T: Scalar>(
    first: u32,
    rows: u32,
    columns: u32,
    pixel_size: T,
    half: T,
    wall_z: i32,
    ray_origin: Tuple<T>,
    sphere: &Object<T>,
    paint: Colour<T>,
) -> (image: Result<Canvas<T>, SingularTransform>)
    requires
        first + rows <= u32::MAX,
    ensures
        image matches Ok(c) ==> c.wf() && c.width == columns && c.height == rows,
        deterministic::<T>() ==> (image is Err <==> rows > 0 && columns > 0 && spec_invert(
            sphere.pose()@,
        ) is None),
        deterministic::<T>() ==> (image matches Ok(c) ==> forall|x: int, y: int|
            0 <= x < columns && 0 <= y < rows ==> #[trigger] c.pixel(x, y) == if spec_pixel_seen(
                (first + y) as u32,
                x as u32,
                pixel_size,
                half,
                wall_z,
                ray_origin,
                *sphere,
            ) {
                paint
            } else {
                spec_colour_i::<T>(0, 0, 0)
            }),
{
    let mut c = canvas::<T>(columns, rows);
    let mut y: u32 = 0;
    while y < rows
        invariant
            y <= rows,
            first + rows <= u32::MAX,
            c.wf(),
            c.width == columns,
            c.height == rows,
            deterministic::<T>() && y > 0 && columns > 0 ==> spec_invert(sphere.pose()@) is Some,
            deterministic::<T>() ==> forall|i: int, j: int|
                0 <= i < columns && 0 <= j < y ==> #[trigger] c.pixel(i, j) == if spec_pixel_seen(
                    (first + j) as u32,
                    i as u32,
                    pixel_size,
                    half,
                    wall_z,
                    ray_origin,
                    *sphere,
                ) {
                    paint
                } else {
                    spec_colour_i::<T>(0, 0, 0)
                },
            deterministic::<T>() ==> forall|i: int, j: int|
                0 <= i < columns && y <= j < rows ==> #[trigger] c.pixel(i, j) == spec_colour_i::<T>(
                    0,
                    0,
                    0,
                ),
        decreases rows - y,
    {
        let row: u32 = first + y;
        let mut x: u32 = 0;
        while x < columns
            invariant
                x <= columns,
                y < rows,
                row == first + y,
                c.wf(),
                c.width == columns,
                c.height == rows,
                deterministic::<T>() && x > 0 ==> spec_invert(sphere.pose()@) is Some,
                deterministic::<T>() && y > 0 && columns > 0 ==> spec_invert(sphere.pose()@) is Some,
                deterministic::<T>() ==> forall|i: int, j: int|
                    0 <= i < columns && 0 <= j < y ==> #[trigger] c.pixel(i, j) == if spec_pixel_seen(
                        (first + j) as u32,
                        i as u32,
                        pixel_size,
                        half,
                        wall_z,
                        ray_origin,
                        *sphere,
                    ) {
                        paint
                    } else {
                        spec_colour_i::<T>(0, 0, 0)
                    },
                deterministic::<T>() ==> forall|i: int|
                    0 <= i < x ==> #[trigger] c.pixel(i, y as int) == if spec_pixel_seen(
                        row,
                        i as u32,
                        pixel_size,
                        half,
                        wall_z,
                        ray_origin,
                        *sphere,
                    ) {
                        paint
                    } else {
                        spec_colour_i::<T>(0, 0, 0)
                    },
                deterministic::<T>() ==> forall|i: int|
                    x <= i < columns ==> #[trigger] c.pixel(i, y as int) == spec_colour_i::<T>(
                        0,
                        0,
                        0,
                    ),
                deterministic::<T>() ==> forall|i: int, j: int|
                    0 <= i < columns && y < j < rows ==> #[trigger] c.pixel(i, j)
                        == spec_colour_i::<T>(0, 0, 0),
            decreases columns - x,
        {
            match pixel_seen(row, x, pixel_size, half, wall_z, ray_origin, sphere) {
                Ok(seen) => {
                    if seen {
                        let _ = c.write_pixel(x, y, paint);
                    }
                },
                Err(e) => {
                    return Err(e);
                },
            }
            x += 1;
        }
        y += 1;
    }
    Ok(c)
}

/// Renders a scene of `rows` rows and `columns` columns in red on black.
pub fn calculate_canvas<T: Scalar>(
    rows: u32,
    columns: u32,
    pixel_size: T,
    half: T,
    wall_z: i32,
    ray_origin: Tuple<T>,
    sphere: Object<T>,
) -> (image: Result<Canvas<T>, SingularTransform>)
    ensures
        image matches Ok(c) ==> c.wf() && c.width == columns && c.height == rows,
        deterministic::<T>() ==> (image is Err <==> rows > 0 && columns > 0 && spec_invert(
            sphere.pose()@,
        ) is None),
        deterministic::<T>() ==> (image matches Ok(c) ==> forall|x: int, y: int|
            0 <= x < columns && 0 <= y < rows ==> #[trigger] c.pixel(x, y) == if spec_pixel_seen(
                y as u32,
                x as u32,
                pixel_size,
                half,
                wall_z,
                ray_origin,
                sphere,
            ) {
                spec_colour_i::<T>(1, 0, 0)
            } else {
                spec_colour_i::<T>(0, 0, 0)
            }),
{
    paint_rows(0, rows, columns, pixel_size, half, wall_z, ray_origin, &sphere, red())
}

/// Renders band `thread` of a scene, `rows` rows high, in green on black:
/// row `y` of the result is row `rows * thread + y` of the scene.
pub fn calculate_subcanvas<T: Scalar>(
    thread: u32,
    rows: u32,
    columns: u32,
    pixel_size: T,
    half: T,
    wall_z: i32,
    ray_origin: Tuple<T>,
    sphere: Object<T>,
) -> (image: Result<Canvas<T>, SingularTransform>)
    requires
        band_start(rows as int, thread as int) + rows <= u32::MAX,
    ensures
        image matches Ok(c) ==> c.wf() && c.width == columns && c.height == rows,
        deterministic::<T>() ==> (image is Err <==> rows > 0 && columns > 0 && spec_invert(
            sphere.pose()@,
        ) is None),
        deterministic::<T>() ==> (image matches Ok(c) ==> forall|x: int, y: int|
            0 <= x < columns && 0 <= y < rows ==> #[trigger] c.pixel(x, y) == if spec_pixel_seen(
                (band_start(rows as int, thread as int) + y) as u32,
                x as u32,
                pixel_size,
                half,
                wall_z,
                ray_origin,
                sphere,
            ) {
                spec_colour_i::<T>(0, 1, 0)
            } else {
                spec_colour_i::<T>(0, 0, 0)
            }),
{
    let ghost start = band_start(rows as int, thread as int);
    assert(start >= 0) by (nonlinear_arith)
        requires
            start == (rows as int) * (thread as int),
    ;
    let first: u32 = (rows as u64 * thread as u64) as u32;
    paint_rows(first, rows, columns, pixel_size, half, wall_z, ray_origin, &sphere, green())
}

/// Whether a band fits into a canvas at the rows that belong to it.
pub open spec fn band_fits<T>(
    target: &Canvas<T>,
    band: &SubcanvasMessage<T>,
    rows_per_thread: u32,
) -> bool {
    &&& band.subcanvas.width <= target.width
    &&& band_start(rows_per_thread as int, band.thread as int) + band.subcanvas.height
        <= target.height
}

/// Whether `after` is `before` with a band put in: row `y` of band `thread`
/// stands in row `rows_per_thread * thread + y`, as wide as the band is, and
/// every other pixel is as it was.
pub open spec fn placed<T>(
    before: Canvas<T>,
    band: SubcanvasMessage<T>,
    rows_per_thread: u32,
    after: Canvas<T>,
) -> bool {
    let start = band_start(rows_per_thread as int, band.thread as int);
    &&& after.width == before.width
    &&& after.height == before.height
    &&& forall|x: int, y: int|
        0 <= x < before.width && 0 <= y < before.height ==> #[trigger] after.pixel(x, y) == if x
            < band.subcanvas.width && 0 <= y - start < band.subcanvas.height {
            band.subcanvas.pixel(x, y - start)
        } else {
            before.pixel(x, y)
        }
}

/// Bands may be put in in any order: two bands with different numbers, each
/// no higher than a band may be, leave the same picture whichever comes
/// first.
pub proof fn lemma_bands_in_any_order<T>(
    before: Canvas<T>,
    one: SubcanvasMessage<T>,
    other: SubcanvasMessage<T>,
    rows_per_thread: u32,
    after_one: Canvas<T>,
    after_both: Canvas<T>,
    after_other: Canvas<T>,
    after_both_reversed: Canvas<T>,
)
    requires
        one.thread != other.thread,
        one.subcanvas.height <= rows_per_thread,
        other.subcanvas.height <= rows_per_thread,
        placed(before, one, rows_per_thread, after_one),
        placed(after_one, other, rows_per_thread, after_both),
        placed(before, other, rows_per_thread, after_other),
        placed(after_other, one, rows_per_thread, after_both_reversed),
    ensures
        after_both.width == after_both_reversed.width,
        after_both.height == after_both_reversed.height,
        forall|x: int, y: int|
            0 <= x < before.width && 0 <= y < before.height ==> #[trigger] after_both.pixel(x, y)
                == after_both_reversed.pixel(x, y),
{
    let rows = rows_per_thread as int;
    let a = one.thread as int;
    let b = other.thread as int;
    let start_one = band_start(rows, a);
    let start_other = band_start(rows, b);
    assert(a < b ==> start_one + rows <= start_other) by (nonlinear_arith)
        requires
            start_one == rows * a,
            start_other == rows * b,
            rows >= 0,
    ;
    assert(b < a ==> start_other + rows <= start_one) by (nonlinear_arith)
        requires
            start_one == rows * a,
            start_other == rows * b,
            rows >= 0,
    ;
    assert forall|x: int, y: int| 0 <= x < before.width && 0 <= y < before.height implies #[trigger] after_both.pixel(
        x,
        y,
    ) == after_both_reversed.pixel(x, y) by {
        assert(after_one.pixel(x, y) == if x < one.subcanvas.width && 0 <= y - start_one
            < one.subcanvas.height {
            one.subcanvas.pixel(x, y - start_one)
        } else {
            before.pixel(x, y)
        });
        assert(after_other.pixel(x, y) == if x < other.subcanvas.width && 0 <= y - start_other
            < other.subcanvas.height {
            other.subcanvas.pixel(x, y - start_other)
        } else {
            before.pixel(x, y)
        });
    }
}

/// Copies a band into the rows of `target` that belong to it: row `y` of
/// band `thread` goes to row `rows_per_thread * thread + y`. A band that
/// does not fit is refused and `target` stays as it was.
pub fn place_band<T: Copy>(
    target: &mut Canvas<T>,
    band: &SubcanvasMessage<T>,
    rows_per_thread: u32,
) -> (r: Result<(), CanvasError>)
    requires
        old(target).wf(),
        band.subcanvas.wf(),
    ensures
        final(target).wf(),
        final(target).width == old(target).width,
        final(target).height == old(target).height,
        r is Ok <==> band_fits(old(target), band, rows_per_thread),
        r is Ok ==> placed(*old(target), *band, rows_per_thread, *final(target)),
        r is Err ==> *final(target) == *old(target),
        r is Err ==> r == Err::<(), CanvasError>(
            CanvasError::BandOutOfRange { thread: band.thread },
        ),
{
    let ghost start = band_start(rows_per_thread as int, band.thread as int);
    assert(0 <= start <= 0xFFFF_FFFF * 0xFFFF_FFFF) by (nonlinear_arith)
        requires
            start == (rows_per_thread as int) * (band.thread as int),
            0 <= rows_per_thread <= 0xFFFF_FFFF,
            0 <= band.thread <= 0xFFFF_FFFF,
    ;
    let first: u64 = rows_per_thread as u64 * band.thread as u64;
    let sub = &band.subcanvas;
    if sub.width > target.width || first > target.height as u64 || sub.height as u64
        > target.height as u64 - first {
        return Err(CanvasError::BandOutOfRange { thread: band.thread });
    }
    let mut y: u32 = 0;
    while y < sub.height
        invariant
            y <= sub.height,
            first == start,
            sub.wf(),
            sub.width <= target.width,
            start + sub.height <= target.height,
            target.wf(),
            target.width == old(target).width,
            target.height == old(target).height,
            forall|i: int, j: int|
                0 <= i < target.width && 0 <= j < target.height ==> #[trigger] target.pixel(i, j)
                    == if i < sub.width && 0 <= j - start < y {
                    sub.pixel(i, j - start)
                } else {
                    old(target).pixel(i, j)
                },
        decreases sub.height - y,
    {
        let row: u32 = (first + y as u64) as u32;
        let mut x: u32 = 0;
        while x < sub.width
            invariant
                x <= sub.width,
                y < sub.height,
                row == start + y,
                sub.wf(),
                sub.width <= target.width,
                start + sub.height <= target.height,
                target.wf(),
                target.width == old(target).width,
                target.height == old(target).height,
                forall|i: int, j: int|
                    0 <= i < target.width && 0 <= j < target.height ==> #[trigger] target.pixel(
                        i,
                        j,
                    ) == if i < sub.width && (0 <= j - start < y || (j - start == y && i < x)) {
                        sub.pixel(i, j - start)
                    } else {
                        old(target).pixel(i, j)
                    },
            decreases sub.width - x,
        {
            let colour = sub.pixels[y as usize][x as usize];
            let _ = target.write_pixel(x, row, colour);
            x += 1;
        }
        y += 1;
    }
    Ok(())
}


/// The side of one cell of a wall of side `wall_size` cut into
/// `canvas_pixels` cells each way.
pub open spec fn spec_pixel_size<T: Scalar>(wall_size: T, canvas_pixels: u32) -> T {
    spec_over(wall_size, spec_from_u32::<T>(canvas_pixels))
}

/// Half the side of the wall.
pub open spec fn spec_half<T: Scalar>(wall_size: T) -> T {
    spec_over(wall_size, spec_from_i32::<T>(2))
}

/// Renders a square scene of `canvas_pixels` rows in one pass, in red on
/// black. The wall is a square of side `wall_size` at distance `wall_z`,
/// seen from `ray_origin`.
pub fn render_basic_sphere_singlethreaded<T: Scalar>(
    canvas_pixels: u32,
    wall_z: i32,
    wall_size: T,
    ray_origin: Tuple<T>,
    sphere: Object<T>,
) -> (image: Result<Canvas<T>, SingularTransform>)
    ensures
        image matches Ok(c) ==> c.wf() && c.width == canvas_pixels && c.height == canvas_pixels,
        deterministic::<T>() ==> (image is Err <==> canvas_pixels > 0 && spec_invert(
            sphere.pose()@,
        ) is None),
        deterministic::<T>() ==> (image matches Ok(c) ==> forall|x: int, y: int|
            0 <= x < canvas_pixels && 0 <= y < canvas_pixels ==> #[trigger] c.pixel(x, y)
                == if spec_pixel_seen(
                y as u32,
                x as u32,
                spec_pixel_size(wall_size, canvas_pixels),
                spec_half(wall_size),
                wall_z,
                ray_origin,
                sphere,
            ) {
                spec_colour_i::<T>(1, 0, 0)
            } else {
                spec_colour_i::<T>(0, 0, 0)
            }),
{
    let pixel_size = over(wall_size, from_u32(canvas_pixels));
    let half = over(wall_size, from_i32(2));
    calculate_canvas(canvas_pixels, canvas_pixels, pixel_size, half, wall_z, ray_origin, sphere)
}

/// The number of rows in each of `threads` equal bands of a scene of
/// `canvas_pixels` rows. Rows that are left over belong to no band.
pub open spec fn spec_rows_per_thread(canvas_pixels: int, threads: int) -> int {
    canvas_pixels / threads
}

/// Renders a square scene of `canvas_pixels` rows as `threads` bands of
/// equal height, in green on black, and puts the bands together.
///
/// Every row that belongs to a band shows what one pass would show there.
/// The rows left over when `canvas_pixels` is no multiple of `threads` stay
/// black. The bands are rendered one after the other here; they do not
/// depend on each other, so they may as well be rendered side by side with
/// `calculate_subcanvas` and put together with `place_band` in any order.
pub fn render_basic_sphere_multithreaded<T: Scalar>(
    threads: u32,
    canvas_pixels: u32,
    wall_z: i32,
    wall_size: T,
    ray_origin: Tuple<T>,
    sphere: Object<T>,
) -> (image: Result<Canvas<T>, RenderError>)
    ensures
        image matches Ok(c) ==> c.wf() && c.width == canvas_pixels && c.height == canvas_pixels,
        threads == 0 <==> image == Err::<Canvas<T>, RenderError>(RenderError::NoBands),
        deterministic::<T>() ==> (image == Err::<Canvas<T>, RenderError>(
            RenderError::SingularTransform,
        ) <==> threads > 0 && spec_rows_per_thread(canvas_pixels as int, threads as int) > 0
            && spec_invert(sphere.pose()@) is None),
        deterministic::<T>() ==> (image matches Ok(c) ==> forall|x: int, y: int|
            0 <= x < canvas_pixels && 0 <= y < canvas_pixels ==> #[trigger] c.pixel(x, y) == if y
                < spec_rows_per_thread(canvas_pixels as int, threads as int) * threads
                && spec_pixel_seen(
                y as u32,
                x as u32,
                spec_pixel_size(wall_size, canvas_pixels),
                spec_half(wall_size),
                wall_z,
                ray_origin,
                sphere,
            ) {
                spec_colour_i::<T>(0, 1, 0)
            } else {
                spec_colour_i::<T>(0, 0, 0)
            }),
{
    if threads == 0 {
        return Err(RenderError::NoBands);
    }
    let pixel_size = over(wall_size, from_u32(canvas_pixels));
    let half = over(wall_size, from_i32(2));
    let rows_per_thread: u32 = canvas_pixels / threads;
    let mut image = canvas::<T>(canvas_pixels, canvas_pixels);
    let ghost rows = rows_per_thread as int;
    assert(rows * threads <= canvas_pixels) by (nonlinear_arith)
        requires
            rows == (canvas_pixels as int) / (threads as int),
            threads > 0,
    ;
    assert(rows > 0 ==> canvas_pixels > 0);
    let mut i: u32 = 0;
    while i < threads
        invariant
            i <= threads,
            rows == rows_per_thread,
            rows == spec_rows_per_thread(canvas_pixels as int, threads as int),
            rows * threads <= canvas_pixels,
            rows > 0 ==> canvas_pixels > 0,
            image.wf(),
            image.width == canvas_pixels,
            image.height == canvas_pixels,
            deterministic::<T>() ==> pixel_size == spec_pixel_size(wall_size, canvas_pixels),
            deterministic::<T>() ==> half == spec_half(wall_size),
            deterministic::<T>() && i > 0 && rows > 0 ==> spec_invert(sphere.pose()@) is Some,
            deterministic::<T>() ==> forall|x: int, y: int|
                0 <= x < canvas_pixels && 0 <= y < canvas_pixels ==> #[trigger] image.pixel(x, y)
                    == if y < rows * i && spec_pixel_seen(
                    y as u32,
                    x as u32,
                    pixel_size,
                    half,
                    wall_z,
                    ray_origin,
                    sphere,
                ) {
                    spec_colour_i::<T>(0, 1, 0)
                } else {
                    spec_colour_i::<T>(0, 0, 0)
                },
        decreases threads - i,
    {
        let ghost start = band_start(rows, i as int);
        assert(0 <= start && start + rows <= rows * threads && start + rows == rows * (i + 1))
            by (nonlinear_arith)
            requires
                start == rows * (i as int),
                0 <= rows,
                0 <= i < threads,
        ;
        let subcanvas = match calculate_subcanvas(
            i,
            rows_per_thread,
            canvas_pixels,
            pixel_size,
            half,
            wall_z,
            ray_origin,
            sphere,
        ) {
            Ok(subcanvas) => subcanvas,
            Err(_) => {
                return Err(RenderError::SingularTransform);
            },
        };
        let band = SubcanvasMessage { subcanvas, thread: i };
        let ghost before = image;
        let placed = place_band(&mut image, &band, rows_per_thread);
        assert(placed is Ok);
        proof {
            if deterministic::<T>() {
                assert forall|x: int, y: int|
                    0 <= x < canvas_pixels && 0 <= y < canvas_pixels implies #[trigger] image.pixel(
                    x,
                    y,
                ) == if y < rows * (i + 1) && spec_pixel_seen(
                    y as u32,
                    x as u32,
                    pixel_size,
                    half,
                    wall_z,
                    ray_origin,
                    sphere,
                ) {
                    spec_colour_i::<T>(0, 1, 0)
                } else {
                    spec_colour_i::<T>(0, 0, 0)
                } by {
                    if start <= y < start + rows {
                        assert(image.pixel(x, y) == band.subcanvas.pixel(x, y - start));
                        assert((start + (y - start)) as u32 == y as u32);
                    } else {
                        assert(image.pixel(x, y) == before.pixel(x, y));
                    }
                }
            }
        }
        i += 1;
    }
    Ok(image)
}

} // verus!
