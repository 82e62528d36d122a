use vstd::prelude::*;
use crate::canvas::{Canvas, canvas};
use crate::colour::{red, spec_colour_i};
use crate::scalar::{
    deterministic, less_than, rounded, Scalar, spec_less_than, spec_rounded, spec_truncated,
    spec_zero, truncated, zero,
};
use crate::tuple::Tuple;

verus! {

/// A body in flight: where it is and how far it moves in one tick.
#[derive(Clone, Copy, Debug)]
pub struct Projectile<T> {
    pub position: Tuple<T>,
    pub velocity: Tuple<T>,
}

/// What changes the velocity of a body in every tick.
#[derive(Clone, Copy, Debug)]
pub struct Environment<T> {
    pub gravity: Tuple<T>,
    pub wind: Tuple<T>,
}

/// The body one tick later: moved by its velocity, and its velocity
/// changed by gravity and then by wind.
pub open spec fn spec_tick<T: Scalar>(
    environment: Environment<T>,
    projectile: Projectile<T>,
) -> Projectile<T> {
    Projectile {
        position: projectile.position.spec_add(projectile.velocity),
        velocity: projectile.velocity.spec_add(environment.gravity).spec_add(environment.wind),
    }
}

/// The body after `ticks` ticks.
pub open spec fn spec_trail<T: Scalar>(
    environment: Environment<T>,
    start: Projectile<T>,
    ticks: nat,
) -> Projectile<T>
    decreases ticks,
{
    if ticks == 0 {
        start
    } else {
        spec_tick(environment, spec_trail(environment, start, (ticks - 1) as nat))
    }
}

/// Whether the body is above the ground.
pub open spec fn spec_airborne<T: Scalar>(projectile: Projectile<T>) -> bool {
    spec_less_than(spec_zero::<T>(), projectile.position.y)
}

/// A coordinate as a count of pixels: rounded to the nearest whole number,
/// and zero where that is negative.
pub open spec fn spec_pixels<T: Scalar>(coordinate: T) -> int {
    let whole = spec_truncated(spec_rounded(coordinate));
    if whole < 0 {
        0
    } else {
        whole as int
    }
}

/// Whether the body is drawn on the pixel in column `x` of row `y`: the
/// column is its distance from the left edge, the row its height above the
/// lower edge, counted from the top, and both lie inside the canvas.
pub open spec fn spec_plotted<T: Scalar>(
    projectile: Projectile<T>,
    width: u32,
    height: u32,
    x: int,
    y: int,
) -> bool {
    &&& x == spec_pixels(projectile.position.x)
    &&& y == height - spec_pixels(projectile.position.y)
    &&& 0 <= x < width
    &&& 0 <= y < height
}

/// Whether the body was drawn on the pixel after one of the first `ticks`
/// ticks.
pub open spec fn spec_traced<T: Scalar>(
    environment: Environment<T>,
    start: Projectile<T>,
    ticks: nat,
    width: u32,
    height: u32,
    x: int,
    y: int,
) -> bool {
    exists|k: nat|
        1 <= k <= ticks && spec_plotted(
            #[trigger] spec_trail(environment, start, k),
            width,
            height,
            x,
            y,
        )
}

pub fn tick<T: Scalar>(environment: &Environment<T>, projectile: &mut Projectile<T>)
    ensures
        deterministic::<T>() ==> *final(projectile) == spec_tick(*environment, *old(projectile)),
{
    let position = projectile.position + projectile.velocity;
    let velocity = projectile.velocity + environment.gravity + environment.wind;
    projectile.position = position;
    projectile.velocity = velocity;
}

fn pixels<T: Scalar>(coordinate: T) -> (count: u32)
    ensures
        deterministic::<T>() ==> count == spec_pixels(coordinate),
{
    let whole: i32 = truncated(rounded(coordinate));
    if whole < 0 {
        0
    } else {
        whole as u32
    }
}

/// Lets a body fly until it is no longer above the ground, or until
/// `max_ticks` ticks have passed, and draws in red on a black canvas where
/// it is after every tick. Gives the canvas and the number of ticks.
pub fn run_projectile_simulation<T: Scalar>(
    environment: Environment<T>,
    start: Projectile<T>,
    width: u32,
    height: u32,
    max_ticks: u32,
) -> (flight: (Canvas<T>, u32))
    ensures
        flight.0.wf(),
        flight.0.width == width,
        flight.0.height == height,
        flight.1 <= max_ticks,
        deterministic::<T>() ==> forall|k: nat|
            k < flight.1 ==> spec_airborne(#[trigger] spec_trail(environment, start, k)),
        deterministic::<T>() && flight.1 < max_ticks ==> !spec_airborne(
            spec_trail(environment, start, flight.1 as nat),
        ),
        deterministic::<T>() ==> forall|x: int, y: int|
            0 <= x < width && 0 <= y < height ==> #[trigger] flight.0.pixel(x, y) == if spec_traced(
                environment,
                start,
                flight.1 as nat,
                width,
                height,
                x,
                y,
            ) {
                spec_colour_i::<T>(1, 0, 0)
            } else {
                spec_colour_i::<T>(0, 0, 0)
            },
{
    let mut proj = start;
    let mut image = canvas::<T>(width, height);
    let mut tick_counter: u32 = 0;
    while tick_counter < max_ticks && less_than(zero(), proj.position.y)
        invariant
            tick_counter <= max_ticks,
            image.wf(),
            image.width == width,
            image.height == height,
            deterministic::<T>() ==> proj == spec_trail(environment, start, tick_counter as nat),
            deterministic::<T>() ==> forall|k: nat|
                k < tick_counter ==> spec_airborne(#[trigger] spec_trail(environment, start, k)),
            deterministic::<T>() ==> forall|x: int, y: int|
                0 <= x < width && 0 <= y < height ==> #[trigger] image.pixel(x, y) == if spec_traced(
                    environment,
                    start,
                    tick_counter as nat,
                    width,
                    height,
                    x,
                    y,
                ) {
                    spec_colour_i::<T>(1, 0, 0)
                } else {
                    spec_colour_i::<T>(0, 0, 0)
                },
        decreases max_ticks - tick_counter,
    {
        let ghost ticks = tick_counter as nat;
        tick_counter += 1;
        tick(&environment, &mut proj);
        let x = pixels(proj.position.x);
        let up = pixels(proj.position.y);
        let ghost before = image;
        if up <= height {
            let y = height - up;
            if x < width && y < height {
                let _ = image.write_pixel(x, y, red());
            }
        }
        proof {
            if deterministic::<T>() {
                let now = spec_trail(environment, start, ticks + 1);
                assert(proj == now);
                assert forall|px: int, py: int|
                    0 <= px < width && 0 <= py < height implies #[trigger] image.pixel(px, py)
                    == if spec_traced(environment, start, ticks + 1, width, height, px, py) {
                    spec_colour_i::<T>(1, 0, 0)
                } else {
                    spec_colour_i::<T>(0, 0, 0)
                } by {
                    if spec_plotted(now, width, height, px, py) {
                        assert(spec_traced(environment, start, ticks + 1, width, height, px, py));
                    } else {
                        assert(image.pixel(px, py) == before.pixel(px, py));
                        if spec_traced(environment, start, ticks, width, height, px, py) {
                            let k = choose|k: nat|
                                1 <= k <= ticks && spec_plotted(
                                    #[trigger] spec_trail(environment, start, k),
                                    width,
                                    height,
                                    px,
                                    py,
                                );
                            assert(spec_plotted(
                                spec_trail(environment, start, k),
                                width,
                                height,
                                px,
                                py,
                            ));
                            assert(spec_traced(environment, start, ticks + 1, width, height, px, py));
                        } else if spec_traced(environment, start, ticks + 1, width, height, px, py) {
                            let k = choose|k: nat|
                                1 <= k <= ticks + 1 && spec_plotted(
                                    #[trigger] spec_trail(environment, start, k),
                                    width,
                                    height,
                                    px,
                                    py,
                                );
                            assert(k <= ticks);
                            assert(false);
                        }
                    }
                }
            }
        }
    }
    (image, tick_counter)
}

} // verus!
