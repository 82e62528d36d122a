use ray_tracer::matrix::{identity, matrix, matrix_empty, matrix_of, Matrix};
use ray_tracer::scalar::Scalar;
use ray_tracer::tuple::Tuple;

#[derive(Clone, Copy, Debug, PartialEq)]
struct Real(f64);

impl Scalar for Real {
    fn from_i32(n: i32) -> Self {
        Real(n as f64)
    }

    fn from_u32(n: u32) -> Self {
        Real(n as f64)
    }

    fn pi() -> Self {
        Real(std::f64::consts::PI)
    }

    fn plus(self, other: Self) -> Self {
        Real(self.0 + other.0)
    }

    fn minus(self, other: Self) -> Self {
        Real(self.0 - other.0)
    }

    fn times(self, other: Self) -> Self {
        Real(self.0 * other.0)
    }

    fn over(self, other: Self) -> Self {
        Real(self.0 / other.0)
    }

    fn negated(self) -> Self {
        Real(-self.0)
    }

    fn absolute(self) -> Self {
        Real(self.0.abs())
    }

    fn square_root(self) -> Self {
        Real(self.0.sqrt())
    }

    fn sine(self) -> Self {
        Real(self.0.sin())
    }

    fn cosine(self) -> Self {
        Real(self.0.cos())
    }

    fn rounded(self) -> Self {
        Real(self.0.round())
    }

    fn truncated(self) -> i32 {
        self.0 as i32
    }

    fn less_than(self, other: Self) -> bool {
        self.0 < other.0
    }

    fn equal_to(self, other: Self) -> bool {
        self.0 == other.0
    }
}

fn m4(rows: [[f64; 4]; 4]) -> Matrix<Real, 4> {
    matrix(rows.map(|row| row.map(Real)))
}

fn m3(rows: [[f64; 3]; 3]) -> Matrix<Real, 3> {
    matrix(rows.map(|row| row.map(Real)))
}

fn m2(rows: [[f64; 2]; 2]) -> Matrix<Real, 2> {
    matrix(rows.map(|row| row.map(Real)))
}

fn raw<const N: usize>(m: Matrix<Real, N>) -> [[f64; N]; N] {
    m.data.map(|row| row.map(|entry| entry.0))
}

#[test]
fn multiplying_product_by_its_inverse() {
    let m1 = m4([
        [3.0, -9.0, 7.0, 3.0],
        [3.0, -8.0, 2.0, -9.0],
        [-4.0, 4.0, 4.0, 1.0],
        [-6.0, 5.0, -1.0, 1.0],
    ]);
    let m2 = m4([
        [8.0, 2.0, 2.0, 2.0],
        [3.0, -1.0, 7.0, 0.0],
        [7.0, 0.0, 5.0, 4.0],
        [6.0, -2.0, 0.0, 5.0],
    ]);

    let product = m1 * m2;
    assert_eq!(product * m2.invert().unwrap(), m1)
}

#[test]
fn matrix_times_its_inverse_is_the_identity() {
    let m = m4([
        [3.0, -9.0, 7.0, 3.0],
        [3.0, -8.0, 2.0, -9.0],
        [-4.0, 4.0, 4.0, 1.0],
        [-6.0, 5.0, -1.0, 1.0],
    ]);
    let product = raw(m * m.invert().unwrap());
    for row in 0..4 {
        for column in 0..4 {
            let expected = if row == column { 1.0 } else { 0.0 };
            assert!((product[row][column] - expected).abs() < 1e-5);
        }
    }
    let m = m3([[2.0, 0.0, 1.0], [1.0, 3.0, 0.0], [0.0, 1.0, 4.0]]);
    let product = raw(m * m.invert().unwrap());
    for row in 0..3 {
        for column in 0..3 {
            let expected = if row == column { 1.0 } else { 0.0 };
            assert!((product[row][column] - expected).abs() < 1e-5);
        }
    }
}

#[test]
fn calculating_inverse_of_a_matrix() {
    let m = m4([
        [-5.0, 2.0, 6.0, -8.0],
        [1.0, -5.0, 1.0, 8.0],
        [7.0, 7.0, -6.0, -7.0],
        [1.0, -3.0, 7.0, 4.0],
    ]);
    let m_inverted = m.invert().unwrap();

    assert_eq!(m.determinant(), Real(532.0));
    assert_eq!(m.cofactor(2, 3), Real(-160.0));
    assert_eq!(m_inverted.data[3][2], Real(-160.0 / 532.0));
    assert_eq!(m.cofactor(3, 2), Real(105.0));
    assert_eq!(m_inverted.data[2][3], Real(105.0 / 532.0));
    assert_eq!(
        m_inverted,
        m4([
            [0.21805, 0.45113, 0.24060, -0.04511],
            [-0.80827, -1.45677, -0.44361, 0.52068],
            [-0.07895, -0.22368, -0.05263, 0.19737],
            [-0.52256, -0.81391, -0.30075, 0.30639],
        ])
    );

    let m2 = m4([
        [8.0, -5.0, 9.0, 2.0],
        [7.0, 5.0, 6.0, 1.0],
        [-6.0, 0.0, 9.0, 6.0],
        [-3.0, 0.0, -9.0, -4.0],
    ]);
    let m2_inverted = m2.invert().unwrap();

    assert_eq!(
        m2_inverted,
        m4([
            [-0.15385, -0.15385, -0.28205, -0.53846],
            [-0.07692, 0.12308, 0.02564, 0.03077],
            [0.35897, 0.35897, 0.43590, 0.92308],
            [-0.69231, -0.69231, -0.76923, -1.92308],
        ])
    );

    let m3 = m4([
        [9.0, 3.0, 0.0, 9.0],
        [-5.0, -2.0, -6.0, -3.0],
        [-4.0, 9.0, 6.0, 4.0],
        [-7.0, 6.0, 6.0, 2.0],
    ]);
    let m3_inverted = m3.invert().unwrap();

    assert_eq!(
        m3_inverted,
        m4([
            [-0.04074, -0.07778, 0.14444, -0.22222],
            [-0.07778, 0.03333, 0.36667, -0.33333],
            [-0.02901, -0.14630, -0.10926, 0.12963],
            [0.17778, 0.06667, -0.26667, 0.33333],
        ])
    );
}

#[test]
fn inverse_holds_each_cofactor_over_the_determinant_mirrored() {
    let m = m4([
        [-5.0, 2.0, 6.0, -8.0],
        [1.0, -5.0, 1.0, 8.0],
        [7.0, 7.0, -6.0, -7.0],
        [1.0, -3.0, 7.0, 4.0],
    ]);
    let inverse = m.invert().unwrap();
    for row in 0..4 {
        for column in 0..4 {
            assert_eq!(inverse.data[column][row].0, m.cofactor(row, column).0 / 532.0);
        }
    }
    let expected = [
        [0.21805, 0.45113, 0.24060, -0.04511],
        [-0.80827, -1.45677, -0.44361, 0.52068],
        [-0.07895, -0.22368, -0.05263, 0.19737],
        [-0.52256, -0.81391, -0.30075, 0.30639],
    ];
    let got = raw(inverse);
    for row in 0..4 {
        for column in 0..4 {
            assert!((got[row][column] - expected[row][column]).abs() < 1e-5);
        }
    }
}

#[test]
fn inverse_of_three_by_three() {
    let m = m3([[2.0, 0.0, 0.0], [0.0, 4.0, 0.0], [0.0, 0.0, 8.0]]);
    assert_eq!(raw(m.invert().unwrap()), [[0.5, 0.0, 0.0], [0.0, 0.25, 0.0], [0.0, 0.0, 0.125]]);
    let singular = m3([[1.0, 2.0, 3.0], [2.0, 4.0, 6.0], [0.0, 1.0, 5.0]]);
    assert_eq!(singular.determinant(), Real(0.0));
    assert!(singular.invert().is_none());
}

#[test]
fn invertibility_of_noninvertible_matrix() {
    let m = m4([
        [-4.0, 2.0, -2.0, -3.0],
        [9.0, 6.0, 2.0, 6.0],
        [0.0, -5.0, 1.0, -5.0],
        [0.0, 0.0, 0.0, 0.0],
    ]);
    assert_eq!(m.determinant(), Real(0.0));
    assert_eq!(m.invert(), None)
}

#[test]
fn invertibility_of_invertible_matrix() {
    let m = m4([
        [6.0, 4.0, 4.0, 4.0],
        [5.0, 5.0, 7.0, 6.0],
        [4.0, -9.0, 3.0, -7.0],
        [9.0, 1.0, 7.0, -6.0],
    ]);

    assert_eq!(m.determinant(), Real(-2120.0));
    assert_ne!(m.invert(), None)
}

#[test]
fn calculating_determinant_of_4_by_4() {
    let m = m4([
        [-2.0, -8.0, 3.0, 5.0],
        [-3.0, 1.0, 7.0, 3.0],
        [1.0, 2.0, -9.0, 6.0],
        [-6.0, 7.0, 7.0, -9.0],
    ]);
    assert_eq!(m.cofactor(0, 0), Real(690.0));
    assert_eq!(m.cofactor(0, 1), Real(447.0));
    assert_eq!(m.cofactor(0, 2), Real(210.0));
    assert_eq!(m.cofactor(0, 3), Real(51.0));
    assert_eq!(m.determinant(), Real(-4071.0));
}

#[test]
fn calculating_determinant_of_3_by_3() {
    let m = m3([[1.0, 2.0, 6.0], [-5.0, 8.0, -4.0], [2.0, 6.0, 4.0]]);
    assert_eq!(m.cofactor(0, 0), Real(56.0));
    assert_eq!(m.cofactor(0, 1), Real(12.0));
    assert_eq!(m.cofactor(0, 2), Real(-46.0));
    assert_eq!(m.determinant(), Real(-196.0));
}

#[test]
fn calculating_cofactor() {
    let m = m3([[3.0, 5.0, 0.0], [2.0, -1.0, -7.0], [6.0, -1.0, 5.0]]);

    assert_eq!(m.minor(0, 0), Real(-12.0));
    assert_eq!(m.cofactor(0, 0), Real(-12.0));
    assert_eq!(m.minor(1, 0), Real(25.0));
    assert_eq!(m.cofactor(1, 0), Real(-25.0));
}

#[test]
fn calculating_minor() {
    let m1 = m3([[3.0, 5.0, 0.0], [2.0, -1.0, -7.0], [6.0, -1.0, 5.0]]);
    let m2 = m1.submatrix(1, 0);

    assert_eq!(m2.determinant(), Real(25.0));
    assert_eq!(m1.minor(1, 0), Real(25.0));
}

#[test]
fn small_submatrix() {
    let m = m3([[1.0, 5.0, 0.0], [-3.0, 2.0, 7.0], [0.0, 6.0, -3.0]]);

    let expected_result = m2([[-3.0, 2.0], [0.0, 6.0]]);
    assert_eq!(m.submatrix(0, 2), expected_result);
    assert_eq!(raw(m.submatrix(0, 2)), [[-3.0, 2.0], [0.0, 6.0]]);
}

#[test]
fn larger_submatrix() {
    let m = m4([
        [-6.0, 1.0, 1.0, 6.0],
        [-8.0, 5.0, 8.0, 6.0],
        [-1.0, 0.0, 8.0, 2.0],
        [-7.0, 1.0, -1.0, 1.0],
    ]);

    let expected_result = m3([[-6.0, 1.0, 6.0], [-8.0, 8.0, 6.0], [-7.0, -1.0, 1.0]]);
    assert_eq!(m.submatrix(2, 1), expected_result);
    assert_eq!(raw(m.submatrix(2, 1)), [[-6.0, 1.0, 6.0], [-8.0, 8.0, 6.0], [-7.0, -1.0, 1.0]]);
}

#[test]
fn submatrix_of_each_corner() {
    let m = m3([[1.0, 2.0, 3.0], [4.0, 5.0, 6.0], [7.0, 8.0, 9.0]]);
    assert_eq!(raw(m.submatrix(0, 0)), [[5.0, 6.0], [8.0, 9.0]]);
    assert_eq!(raw(m.submatrix(2, 2)), [[1.0, 2.0], [4.0, 5.0]]);
    assert_eq!(raw(m.submatrix(1, 1)), [[1.0, 3.0], [7.0, 9.0]]);
    assert_eq!(raw(m.submatrix(0, 2)), [[4.0, 5.0], [7.0, 8.0]]);
    assert_eq!(raw(m.submatrix(2, 0)), [[2.0, 3.0], [5.0, 6.0]]);
}

#[test]
fn determinant_of_matrix() {
    let m = m2([[1.0, 5.0], [-3.0, 2.0]]);
    assert_eq!(m.determinant(), Real(17.0))
}

#[test]
fn transposing_matrix() {
    let m = m4([
        [0.0, 9.0, 3.0, 0.0],
        [9.0, 8.0, 0.0, 8.0],
        [1.0, 8.0, 5.0, 3.0],
        [0.0, 0.0, 5.0, 8.0],
    ]);

    let expected_result = m4([
        [0.0, 9.0, 1.0, 0.0],
        [9.0, 8.0, 8.0, 0.0],
        [3.0, 0.0, 5.0, 5.0],
        [0.0, 8.0, 3.0, 8.0],
    ]);
    assert_eq!(m.transpose(), expected_result);
    assert_eq!(raw(m.transpose()), raw(expected_result));
}

#[test]
fn transposing_identity_matrix() {
    let transposed = identity::<Real>().transpose();
    assert_eq!(transposed, identity());
    assert_eq!(raw(transposed), raw(identity()));
}

#[test]
fn transposing_twice_gives_the_matrix_back() {
    let m = m3([[1.0, 2.0, 3.0], [4.0, 5.0, 6.0], [7.0, 8.0, 9.0]]);
    assert_eq!(raw(m.transpose()), [[1.0, 4.0, 7.0], [2.0, 5.0, 8.0], [3.0, 6.0, 9.0]]);
    assert_eq!(raw(m.transpose().transpose()), raw(m));
}

#[test]
fn matrix_multiply_by_identity_matrix() {
    let m = m4([
        [0.0, 1.0, 2.0, 3.0],
        [1.0, 2.0, 4.0, 8.0],
        [2.0, 4.0, 8.0, 16.0],
        [4.0, 8.0, 16.0, 32.0],
    ]);

    assert_eq!(m * identity(), m);
    assert_eq!(raw(m * identity()), raw(m));
    assert_eq!(raw(identity() * m), raw(m));
}

#[test]
fn matrix_multiply_with_tuple() {
    let m = m4([
        [1.0, 2.0, 3.0, 4.0],
        [2.0, 4.0, 4.0, 2.0],
        [8.0, 6.0, 4.0, 1.0],
        [0.0, 0.0, 0.0, 1.0],
    ]);
    let t = Tuple { x: Real(1.0), y: Real(2.0), z: Real(3.0), w: Real(1.0) };

    let expected_result = Tuple { x: Real(18.0), y: Real(24.0), z: Real(33.0), w: Real(1.0) };
    assert_eq!(m * t, expected_result);
    let got = m * t;
    assert_eq!((got.x, got.y, got.z, got.w), (Real(18.0), Real(24.0), Real(33.0), Real(1.0)));
}

#[test]
fn matrix_multiplication() {
    let m1 = m4([
        [1.0, 2.0, 3.0, 4.0],
        [5.0, 6.0, 7.0, 8.0],
        [9.0, 8.0, 7.0, 6.0],
        [5.0, 4.0, 3.0, 2.0],
    ]);
    let m2 = m4([
        [-2.0, 1.0, 2.0, 3.0],
        [3.0, 2.0, 1.0, -1.0],
        [4.0, 3.0, 6.0, 5.0],
        [1.0, 2.0, 7.0, 8.0],
    ]);

    let expected_result = m4([
        [20.0, 22.0, 50.0, 48.0],
        [44.0, 54.0, 114.0, 108.0],
        [40.0, 58.0, 110.0, 102.0],
        [16.0, 26.0, 46.0, 42.0],
    ]);

    assert!(m1 * m2 == expected_result);
    assert_eq!(raw(m1 * m2), raw(expected_result));
}

#[test]
fn matrix_addition() {
    let sum = m2([[1.0, 2.0], [3.0, 4.0]]) + m2([[10.0, 20.0], [30.0, 40.0]]);
    assert_eq!(raw(sum), [[11.0, 22.0], [33.0, 44.0]]);
}

#[test]
fn matrix_inequality() {
    let m1 = m4([
        [1.0, 2.0, 3.0, 4.0],
        [5.0, 6.0, 7.0, 8.0],
        [9.0, 8.0, 7.0, 6.0],
        [5.0, 4.0, 3.0, 2.0],
    ]);
    let m2 = m4([
        [2.0, 3.0, 4.0, 5.0],
        [6.0, 7.0, 8.0, 9.0],
        [8.0, 7.0, 6.0, 5.0],
        [4.0, 3.0, 2.0, 1.0],
    ]);

    assert!(m1 != m2)
}

#[test]
fn matrix_equality() {
    let m1 = m4([
        [1.0, 2.0, 3.0, 4.0],
        [5.0, 6.0, 7.0, 8.0],
        [9.0, 8.0, 7.0, 6.0],
        [5.0, 4.0, 3.0, 2.0],
    ]);
    let m2 = m4([
        [1.0, 2.0, 3.0, 4.0],
        [5.0, 6.0, 7.0, 8.0],
        [9.0, 8.0, 7.0, 6.0],
        [5.0, 4.0, 3.0, 2.0],
    ]);

    assert!(m1 == m2)
}

#[test]
fn matrices_compare_within_the_tolerance() {
    let m = m2([[1.0, 2.0], [3.0, 4.0]]);
    assert!(m == m2([[1.000001, 2.0], [3.0, 4.0]]));
    assert!(m != m2([[1.0, 2.0], [3.0, 3.5]]));
    // Only the absolute values are compared, each against the other's.
    assert!(m2([[1.0, 2.0], [3.0, 3.5]]) == m);
    assert!(m == m2([[-1.0, 2.0], [3.0, 4.0]]));
}

#[test]
fn three_by_three_matrix_works() {
    let matrix = matrix::<f64, 3>([[-3.0, 5.0, 0.0], [1.0, -2.0, -7.0], [1.0, -2.0, 1.0]]);
    assert_eq!(matrix.data[0][0], -3.0);
    assert_eq!(matrix.data[1][1], -2.0);
    assert_eq!(matrix.data[2][2], 1.0);
}

#[test]
fn two_by_two_matrix_works() {
    let matrix = matrix::<f64, 2>([[-3.0, 5.0], [1.0, -2.0]]);

    assert_eq!(matrix.data[0][0], -3.0);
    assert_eq!(matrix.data[0][1], 5.0);
    assert_eq!(matrix.data[1][0], 1.0);
    assert_eq!(matrix.data[1][1], -2.0);
}

#[test]
fn constructing_and_inspecting_a_matrix() {
    let matrix = matrix::<f64, 4>([
        [1.0, 2.0, 3.0, 4.0],
        [5.5, 6.5, 7.5, 8.5],
        [9.0, 10.0, 11.0, 12.0],
        [13.5, 14.5, 15.5, 16.5],
    ]);

    assert_eq!(matrix.data[0][0], 1.0);
    assert_eq!(matrix.data[0][3], 4.0);
    assert_eq!(matrix.data[1][0], 5.5);
    assert_eq!(matrix.data[1][2], 7.5);
    assert_eq!(matrix.data[2][2], 11.0);
    assert_eq!(matrix.data[3][0], 13.5);
    assert_eq!(matrix.data[3][2], 15.5);
}

#[test]
fn empty_matrix_is_all_zero() {
    let z: Matrix<Real, 3> = matrix_empty();
    assert_eq!(raw(z), [[0.0; 3]; 3]);
    let sevens: Matrix<i32, 2> = matrix_of(7);
    assert_eq!(sevens.data, [[7, 7], [7, 7]]);
}

#[test]
fn identity_has_ones_on_the_diagonal() {
    assert_eq!(
        raw(identity::<Real>()),
        [[1.0, 0.0, 0.0, 0.0], [0.0, 1.0, 0.0, 0.0], [0.0, 0.0, 1.0, 0.0], [0.0, 0.0, 0.0, 1.0]]
    );
}
