use ray_tracer::scalar::Scalar;
use ray_tracer::util::{a_equal_b, normalize_coordinate, radians, radians_i};

#[derive(Clone, Copy, Debug, PartialEq)]
struct Real(f64);

impl Scalar for Real {
    fn from_i32(n: i32) -> Self {
        Real(n as f64)
    }

    fn from_u32(n: u32) -> Self {
        Real(n as f64)
    }

    fn pi() -> Self {
        Real(std::f64::consts::PI)
    }

    fn plus(self, other: Self) -> Self {
        Real(self.0 + other.0)
    }

    fn minus(self, other: Self) -> Self {
        Real(self.0 - other.0)
    }

    fn times(self, other: Self) -> Self {
        Real(self.0 * other.0)
    }

    fn over(self, other: Self) -> Self {
        Real(self.0 / other.0)
    }

    fn negated(self) -> Self {
        Real(-self.0)
    }

    fn absolute(self) -> Self {
        Real(self.0.abs())
    }

    fn square_root(self) -> Self {
        Real(self.0.sqrt())
    }

    fn sine(self) -> Self {
        Real(self.0.sin())
    }

    fn cosine(self) -> Self {
        Real(self.0.cos())
    }

    fn rounded(self) -> Self {
        Real(self.0.round())
    }

    fn truncated(self) -> i32 {
        self.0 as i32
    }

    fn less_than(self, other: Self) -> bool {
        self.0 < other.0
    }

    fn equal_to(self, other: Self) -> bool {
        self.0 == other.0
    }
}

#[test]
fn tolerance_of_comparisons() {
    assert!(a_equal_b(Real(1.0), Real(1.0)));
    assert!(a_equal_b(Real(1.0), Real(1.000009)));
    assert!(a_equal_b(Real(1.000009), Real(1.0)));
    assert!(!a_equal_b(Real(1.00002), Real(1.0)));
    assert!(!a_equal_b(Real(2.0), Real(1.0)));
    // The absolute values are compared, the first against the second.
    assert!(a_equal_b(Real(1.0), Real(2.0)));
    assert!(a_equal_b(Real(1.0), Real(-1.0)));
    assert!(a_equal_b(Real(-1.0), Real(1.0)));
    assert!(!a_equal_b(Real(-2.0), Real(1.0)));
    assert!(!a_equal_b(Real(f64::NAN), Real(1.0)));
}

#[test]
fn degrees_to_radians() {
    assert_eq!(radians(Real(180.0)), Real(std::f64::consts::PI));
    assert_eq!(radians(Real(90.0)), Real(90.0 / 180.0 * std::f64::consts::PI));
    assert_eq!(radians(Real(0.0)), Real(0.0));
    assert_eq!(radians_i::<Real>(30), Real(30.0 / 180.0 * std::f64::consts::PI));
    assert_eq!(radians_i::<Real>(-360), Real(-2.0 * std::f64::consts::PI));
}

#[test]
fn coordinates_to_pixels() {
    assert_eq!(normalize_coordinate(Real(0.0), 800), 400);
    assert_eq!(normalize_coordinate(Real(0.5), 800), 600);
    assert_eq!(normalize_coordinate(Real(-0.5), 800), 200);
    assert_eq!(normalize_coordinate(Real(-1.0), 800), 0);
    assert_eq!(normalize_coordinate(Real(1.0), 800), 799);
    assert_eq!(normalize_coordinate(Real(0.999), 800), 799);
    assert_eq!(normalize_coordinate(Real(0.996), 800), 798);
    assert_eq!(normalize_coordinate(Real(5.0), 800), 799);
    assert_eq!(normalize_coordinate(Real(-5.0), 800), 0);
    assert_eq!(normalize_coordinate(Real(1e300), 800), 799);
    assert_eq!(normalize_coordinate(Real(-1e300), 800), 0);
    assert_eq!(normalize_coordinate(Real(f64::NAN), 800), 400);
    // The whole part is taken towards zero, and the middle of an odd size
    // is its lower half.
    assert_eq!(normalize_coordinate(Real(-0.001), 800), 400);
    assert_eq!(normalize_coordinate(Real(0.5), 5), 3);
    assert_eq!(normalize_coordinate(Real(0.0), 1), 0);
    assert_eq!(normalize_coordinate(Real(0.3), u32::MAX), 2791728741);
    assert_eq!(normalize_coordinate(Real(0.0), 0), u32::MAX);
}
