use ray_tracer::canvas::{canvas, Canvas, CanvasError};
use ray_tracer::colour::{colour, Colour};
use ray_tracer::experiments::clock::render_clock;
use ray_tracer::experiments::first_sphere_image::{
    calculate_canvas, calculate_subcanvas, place_band, render_basic_sphere_multithreaded,
    render_basic_sphere_singlethreaded, RenderError, SubcanvasMessage,
};
use ray_tracer::experiments::projectile::{run_projectile_simulation, tick, Environment, Projectile};
use ray_tracer::matrix::{identity, scaling_i};
use ray_tracer::objects::{sphere, Object, SingularTransform};
use ray_tracer::scalar::Scalar;
use ray_tracer::tuple::{point_i, vector, vector_i};

#[derive(Clone, Copy, Debug, PartialEq)]
struct Real(f64);

impl Scalar for Real {
    fn from_i32(n: i32) -> Self {
        Real(n as f64)
    }

    fn from_u32(n: u32) -> Self {
        Real(n as f64)
    }

    fn pi() -> Self {
        Real(std::f64::consts::PI)
    }

    fn plus(self, other: Self) -> Self {
        Real(self.0 + other.0)
    }

    fn minus(self, other: Self) -> Self {
        Real(self.0 - other.0)
    }

    fn times(self, other: Self) -> Self {
        Real(self.0 * other.0)
    }

    fn over(self, other: Self) -> Self {
        Real(self.0 / other.0)
    }

    fn negated(self) -> Self {
        Real(-self.0)
    }

    fn absolute(self) -> Self {
        Real(self.0.abs())
    }

    fn square_root(self) -> Self {
        Real(self.0.sqrt())
    }

    fn sine(self) -> Self {
        Real(self.0.sin())
    }

    fn cosine(self) -> Self {
        Real(self.0.cos())
    }

    fn rounded(self) -> Self {
        Real(self.0.round())
    }

    fn truncated(self) -> i32 {
        self.0 as i32
    }

    fn less_than(self, other: Self) -> bool {
        self.0 < other.0
    }

    fn equal_to(self, other: Self) -> bool {
        self.0 == other.0
    }
}

fn channels(c: Colour<Real>) -> (f64, f64, f64) {
    (c.red.0, c.green.0, c.blue.0)
}

fn picture(c: &Canvas<Real>) -> Vec<String> {
    c.pixels
        .iter()
        .map(|row| {
            row.iter()
                .map(|p| match channels(*p) {
                    (0.0, 0.0, 0.0) => '.',
                    (1.0, 0.0, 0.0) => 'r',
                    (0.0, 1.0, 0.0) => 'g',
                    (1.0, 1.0, 1.0) => 'w',
                    _ => '?',
                })
                .collect()
        })
        .collect()
}

fn flat() -> Object<Real> {
    sphere::<Real>().set_transform(scaling_i(1, 0, 1))
}

// The wall is seven cells wide and each ray goes through the upper left
// corner of its cell, so the disc stands below and right of the middle.
const DISC: [&str; 7] =
    [".......", "..rrrr.", ".rrrrrr", ".rrrrrr", ".rrrrrr", ".rrrrrr", "..rrrr."];

#[test]
fn sphere_in_one_pass() {
    let image = render_basic_sphere_singlethreaded(
        7,
        10,
        Real(7.0),
        point_i::<Real>(0, 0, -5),
        sphere(),
    )
    .unwrap();
    assert_eq!((image.width, image.height), (7, 7));
    assert_eq!(picture(&image), DISC);
}

#[test]
fn sphere_in_one_pass_by_cells() {
    let image = calculate_canvas(
        4,
        7,
        Real(1.0),
        Real(3.5),
        10,
        point_i::<Real>(0, 0, -5),
        sphere(),
    )
    .unwrap();
    assert_eq!((image.width, image.height), (7, 4));
    assert_eq!(picture(&image), &DISC[..4]);
}

#[test]
fn squashed_sphere_in_one_pass() {
    let squashed = sphere::<Real>().set_transform(identity().scale(Real(1.0), Real(0.5), Real(1.0)));
    let image =
        render_basic_sphere_singlethreaded(7, 10, Real(7.0), point_i::<Real>(0, 0, -5), squashed)
            .unwrap();
    assert_eq!(
        picture(&image),
        [".......", ".......", "...rr..", ".rrrrrr", ".rrrrrr", "...rr..", "......."]
    );
}

#[test]
fn sphere_in_bands() {
    for threads in [1, 7] {
        let image = render_basic_sphere_multithreaded(
            threads,
            7,
            10,
            Real(7.0),
            point_i::<Real>(0, 0, -5),
            sphere(),
        )
        .unwrap();
        assert_eq!((image.width, image.height), (7, 7));
        let expected: Vec<String> = DISC.iter().map(|row| row.replace('r', "g")).collect();
        assert_eq!(picture(&image), expected);
    }
}

#[test]
fn rows_left_over_by_the_bands_stay_black() {
    // Seven rows in two bands of three: the last row belongs to no band.
    let image = render_basic_sphere_multithreaded(
        2,
        7,
        10,
        Real(7.0),
        point_i::<Real>(0, 0, -5),
        sphere(),
    )
    .unwrap();
    assert_eq!(
        picture(&image),
        [".......", "..gggg.", ".gggggg", ".gggggg", ".gggggg", ".gggggg", "......."]
    );
    // Seven rows in three bands of two: the last row belongs to no band.
    let image = render_basic_sphere_multithreaded(
        3,
        7,
        10,
        Real(7.0),
        point_i::<Real>(0, 0, -5),
        sphere(),
    )
    .unwrap();
    assert_eq!(
        picture(&image),
        [".......", "..gggg.", ".gggggg", ".gggggg", ".gggggg", ".gggggg", "......."]
    );
    // Seven rows in four bands of one: three rows are left over.
    let image = render_basic_sphere_multithreaded(
        4,
        7,
        10,
        Real(7.0),
        point_i::<Real>(0, 0, -5),
        sphere(),
    )
    .unwrap();
    assert_eq!(
        picture(&image),
        [".......", "..gggg.", ".gggggg", ".gggggg", ".......", ".......", "......."]
    );
    // More bands than rows: every band is empty.
    let image = render_basic_sphere_multithreaded(
        8,
        7,
        10,
        Real(7.0),
        point_i::<Real>(0, 0, -5),
        sphere(),
    )
    .unwrap();
    assert_eq!(picture(&image), ["......."; 7]);
}

#[test]
fn bands_may_be_put_together_in_any_order() {
    let mut bands = Vec::new();
    for thread in 0..3 {
        let subcanvas = calculate_subcanvas(
            thread,
            2,
            7,
            Real(1.0),
            Real(3.5),
            10,
            point_i::<Real>(0, 0, -5),
            sphere(),
        )
        .unwrap();
        assert_eq!((subcanvas.width, subcanvas.height), (7, 2));
        bands.push(SubcanvasMessage { subcanvas, thread });
    }
    assert_eq!(picture(&bands[0].subcanvas), [".......", "..gggg."]);
    assert_eq!(picture(&bands[1].subcanvas), [".gggggg", ".gggggg"]);
    let mut image = canvas::<Real>(7, 7);
    for i in [2, 0, 1] {
        assert_eq!(place_band(&mut image, &bands[i], 2), Ok(()));
    }
    assert_eq!(
        picture(&image),
        [".......", "..gggg.", ".gggggg", ".gggggg", ".gggggg", ".gggggg", "......."]
    );
}

#[test]
fn band_that_does_not_fit_is_refused() {
    let mut image = canvas::<Real>(3, 4);
    let mut band = SubcanvasMessage { subcanvas: canvas::<Real>(3, 2), thread: 2 };
    band.subcanvas.write_pixel(1, 1, colour(Real(1.0), Real(1.0), Real(1.0))).unwrap();
    assert_eq!(place_band(&mut image, &band, 2), Err(CanvasError::BandOutOfRange { thread: 2 }));
    assert_eq!(picture(&image), ["...", "...", "...", "..."]);
    band.thread = 1;
    assert_eq!(place_band(&mut image, &band, 2), Ok(()));
    assert_eq!(picture(&image), ["...", "...", "...", ".w."]);
    let wide = SubcanvasMessage { subcanvas: canvas::<Real>(4, 1), thread: 0 };
    assert_eq!(place_band(&mut image, &wide, 1), Err(CanvasError::BandOutOfRange { thread: 0 }));
    let far = SubcanvasMessage { subcanvas: canvas::<Real>(1, 1), thread: u32::MAX };
    assert_eq!(
        place_band(&mut image, &far, u32::MAX),
        Err(CanvasError::BandOutOfRange { thread: u32::MAX })
    );
    // A narrow band leaves the rest of its rows as they were.
    let mut narrow = SubcanvasMessage { subcanvas: canvas::<Real>(1, 1), thread: 3 };
    narrow.subcanvas.write_pixel(0, 0, colour(Real(1.0), Real(0.0), Real(0.0))).unwrap();
    assert_eq!(place_band(&mut image, &narrow, 1), Ok(()));
    assert_eq!(picture(&image), ["...", "...", "...", "rw."]);
}

#[test]
fn rendering_without_bands_or_without_inverse() {
    let origin = point_i::<Real>(0, 0, -5);
    assert_eq!(
        render_basic_sphere_multithreaded(0, 7, 10, Real(7.0), origin, sphere()).err(),
        Some(RenderError::NoBands)
    );
    assert_eq!(
        render_basic_sphere_multithreaded(0, 7, 10, Real(7.0), origin, flat()).err(),
        Some(RenderError::NoBands)
    );
    assert_eq!(
        render_basic_sphere_multithreaded(2, 7, 10, Real(7.0), origin, flat()).err(),
        Some(RenderError::SingularTransform)
    );
    // No band has a row, so no ray is ever sent.
    assert!(render_basic_sphere_multithreaded(8, 7, 10, Real(7.0), origin, flat()).is_ok());
    assert_eq!(
        render_basic_sphere_singlethreaded(7, 10, Real(7.0), origin, flat()).err(),
        Some(SingularTransform)
    );
    assert!(render_basic_sphere_singlethreaded(0, 10, Real(7.0), origin, flat()).is_ok());
    assert_eq!(
        calculate_canvas(2, 2, Real(1.0), Real(1.0), 10, origin, flat()).err(),
        Some(SingularTransform)
    );
    assert!(calculate_canvas(0, 2, Real(1.0), Real(1.0), 10, origin, flat()).is_ok());
    assert!(calculate_canvas(2, 0, Real(1.0), Real(1.0), 10, origin, flat()).is_ok());
    assert_eq!(
        calculate_subcanvas(1, 2, 2, Real(1.0), Real(1.0), 10, origin, flat()).err(),
        Some(SingularTransform)
    );
}

#[test]
fn clock_face() {
    let face = render_clock::<Real>(9);
    assert_eq!((face.width, face.height), (9, 9));
    assert_eq!(
        picture(&face),
        [
            "....w....",
            "..w...w..",
            ".w.....w.",
            ".........",
            "w.......w",
            ".........",
            ".w.....w.",
            "..w...w..",
            "....w....",
        ]
    );
    let lit: usize = picture(&render_clock::<Real>(800))
        .iter()
        .map(|row| row.chars().filter(|c| *c == 'w').count())
        .sum();
    assert_eq!(lit, 12);
    assert!(render_clock::<Real>(0).pixels.is_empty());
}

#[test]
fn one_tick_of_flight() {
    let environment =
        Environment { gravity: vector(Real(0.0), Real(-0.1), Real(0.0)), wind: vector(Real(-0.01), Real(0.0), Real(0.0)) };
    let mut projectile =
        Projectile { position: point_i::<Real>(0, 1, 0), velocity: vector(Real(1.0), Real(1.0), Real(0.0)) };
    tick(&environment, &mut projectile);
    let p = projectile.position;
    let v = projectile.velocity;
    assert_eq!((p.x, p.y, p.z, p.w), (Real(1.0), Real(2.0), Real(0.0), Real(1.0)));
    assert_eq!((v.x, v.y, v.z, v.w), (Real(1.0 - 0.01), Real(1.0 - 0.1), Real(0.0), Real(0.0)));
}

#[test]
fn flight_until_the_ground() {
    let environment = Environment { gravity: vector_i::<Real>(0, -1, 0), wind: vector_i(0, 0, 0) };
    let start = Projectile { position: point_i::<Real>(0, 1, 0), velocity: vector_i(1, 2, 0) };
    // Heights after each tick: 3, 4, 4, 3, 1, -2.
    let (image, ticks) = run_projectile_simulation(environment, start, 8, 5, 100);
    assert_eq!(ticks, 6);
    assert_eq!((image.width, image.height), (8, 5));
    assert_eq!(picture(&image), ["........", "..rr....", ".r..r...", "........", ".....r.."]);
    // The budget of ticks ends the flight early.
    let (image, ticks) = run_projectile_simulation(environment, start, 8, 5, 2);
    assert_eq!(ticks, 2);
    assert_eq!(picture(&image), ["........", "..r.....", ".r......", "........", "........"]);
    let (image, ticks) = run_projectile_simulation(environment, start, 8, 5, 0);
    assert_eq!(ticks, 0);
    assert_eq!(picture(&image), ["........"; 5]);
    // A body that starts on the ground does not fly.
    let grounded = Projectile { position: point_i::<Real>(0, 0, 0), velocity: vector_i(1, 2, 0) };
    assert_eq!(run_projectile_simulation(environment, grounded, 8, 5, 100).1, 0);
}
