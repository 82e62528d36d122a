pub mod laws;

use vstd::prelude::*;
use crate::scalar::{
    cosine, deterministic, equal_to, from_i32, minus, negated, one, over, plus, Scalar, sine,
    spec_cosine, spec_equal_to, spec_from_i32, spec_minus, spec_negated, spec_one, spec_over,
    spec_plus, spec_sine, spec_times, spec_zero, times, zero,
};
use crate::tuple::Tuple;
use crate::util::{a_equal_b, spec_a_equal_b};

verus! {

/// A square grid of `SIZE` rows and `SIZE` columns of numbers.
#[derive(Clone, Copy, Debug)]
pub struct Matrix<T, const SIZE: usize> {
    pub data: [[T; SIZE]; SIZE],
}

impl<T, const SIZE: usize> View for Matrix<T, SIZE> {
    type V = Seq<Seq<T>>;

    /// The rows of the matrix, each a sequence of `SIZE` entries.
    open spec fn view(&self) -> Seq<Seq<T>> {
        Seq::new(SIZE as nat, |i: int| self.data[i]@)
    }
}

impl<T, const SIZE: usize> Matrix<T, SIZE> {
    /// The entry in row `i`, column `j`.
    pub open spec fn at(&self, i: int, j: int) -> T {
        self.data[i][j]
    }
}

/// Whether `m` has `n` rows of `n` entries each.
pub open spec fn is_square<T>(m: Seq<Seq<T>>, n: nat) -> bool {
    &&& m.len() == n
    &&& forall|i: int| 0 <= i < n ==> (#[trigger] m[i]).len() == n
}

/// The matrix with the given rows.
pub open spec fn from_grid<T, const SIZE: usize>(grid: Seq<Seq<T>>) -> Matrix<T, SIZE> {
    choose|m: Matrix<T, SIZE>| m@ == grid
}

/// The grid mirrored at its diagonal: entry `(i, j)` is entry `(j, i)` of `m`.
pub open spec fn spec_transpose<T>(m: Seq<Seq<T>>) -> Seq<Seq<T>> {
    Seq::new(m.len(), |i: int| Seq::new(m.len(), |j: int| m[j][i]))
}

/// The view of a matrix is a square grid that holds its entries.
pub proof fn lemma_view_square<T, const SIZE: usize>(m: Matrix<T, SIZE>)
    ensures
        is_square(m@, SIZE as nat),
        forall|i: int, j: int| 0 <= i < SIZE && 0 <= j < SIZE ==> m@[i][j] == m.at(i, j),
{
}

/// Matrices with the same view are the same matrix.
pub proof fn lemma_view_injective<T, const SIZE: usize>(a: Matrix<T, SIZE>, b: Matrix<T, SIZE>)
    requires
        a@ == b@,
    ensures
        a == b,
{
    assert forall|i: int| 0 <= i < SIZE implies a.data[i] == b.data[i] by {
        assert(a@[i] == b@[i]);
        assert(a.data[i]@ == b.data[i]@);
        assert(a.data[i] =~= b.data[i]);
    }
    assert(a.data =~= b.data);
}

/// The array that holds the first `k` entries of `entries` and, after them,
/// what `base` holds.
spec fn array_with<E, const N: usize>(base: [E; N], entries: Seq<E>, k: nat) -> [E; N]
    decreases k,
{
    if k == 0 {
        base
    } else {
        vstd::array::spec_array_update(
            array_with(base, entries, (k - 1) as nat),
            k - 1,
            entries[k - 1],
        )
    }
}

proof fn lemma_array_with<E, const N: usize>(base: [E; N], entries: Seq<E>, k: nat)
    requires
        k <= N,
    ensures
        forall|i: int| 0 <= i < k ==> array_with(base, entries, k)@[i] == entries[i],
    decreases k,
{
    broadcast use vstd::array::group_array_axioms;

    if k > 0 {
        lemma_array_with(base, entries, (k - 1) as nat);
    }
}

/// Every square grid of `SIZE` rows is the view of a matrix.
pub proof fn lemma_grid_has_matrix<T, const SIZE: usize>(like: Matrix<T, SIZE>, grid: Seq<Seq<T>>)
    requires
        is_square(grid, SIZE as nat),
    ensures
        from_grid::<T, SIZE>(grid)@ == grid,
{
    let rows: Seq<[T; SIZE]> = Seq::new(
        SIZE as nat,
        |i: int| array_with(like.data[0], grid[i], SIZE as nat),
    );
    let data = array_with(like.data, rows, SIZE as nat);
    let m = Matrix { data };
    lemma_array_with(like.data, rows, SIZE as nat);
    assert forall|i: int| 0 <= i < SIZE implies m@[i] == grid[i] by {
        lemma_array_with(like.data[0], grid[i], SIZE as nat);
        assert(m.data[i] == rows[i]);
        assert(m.data[i]@ =~= grid[i]);
    }
    assert(m@ =~= grid);
}

/// A matrix is the matrix with its own rows.
pub proof fn lemma_from_grid<T, const SIZE: usize>(m: Matrix<T, SIZE>)
    ensures
        from_grid::<T, SIZE>(m@) == m,
{
    lemma_view_injective(from_grid::<T, SIZE>(m@), m);
}

/// Transposing twice gives the grid back.
pub proof fn lemma_transpose_involution<T>(m: Seq<Seq<T>>, n: nat)
    requires
        is_square(m, n),
    ensures
        spec_transpose(spec_transpose(m)) == m,
{
    let tt = spec_transpose(spec_transpose(m));
    assert forall|i: int| 0 <= i < n implies tt[i] == m[i] by {
        assert(tt[i] =~= m[i]);
    }
    assert(tt =~= m);
}

/// The transpose of the transpose of a matrix is the matrix itself.
pub proof fn lemma_transpose_twice<T, const SIZE: usize>(
    m: Matrix<T, SIZE>,
    once: Matrix<T, SIZE>,
    twice: Matrix<T, SIZE>,
)
    requires
        once@ == spec_transpose(m@),
        twice@ == spec_transpose(once@),
    ensures
        twice == m,
{
    lemma_view_square(m);
    lemma_transpose_involution(m@, SIZE as nat);
    lemma_view_injective(twice, m);
}

/// A matrix with the given rows.
pub fn matrix<T, const SIZE: usize>(rows: [[T; SIZE]; SIZE]) -> (m: Matrix<T, SIZE>)
    ensures
        m.data == rows,
{
    Matrix { data: rows }
}

/// A matrix with every entry set to `value`.
pub fn matrix_of<T: Copy, const SIZE: usize>(value: T) -> (m: Matrix<T, SIZE>)
    ensures
        forall|i: int, j: int| 0 <= i < SIZE && 0 <= j < SIZE ==> m.at(i, j) == value,
{
    let row: [T; SIZE] = [value;SIZE];
    Matrix { data: [row;SIZE] }
}

/// The matrix of zeros.
pub fn matrix_empty<T: Scalar, const SIZE: usize>() -> (m: Matrix<T, SIZE>)
    ensures
        deterministic::<T>() ==> forall|i: int, j: int|
            0 <= i < SIZE && 0 <= j < SIZE ==> m.at(i, j) == spec_zero::<T>(),
{
    matrix_of(zero())
}

impl<T: Copy, const SIZE: usize> Matrix<T, SIZE> {
    /// The matrix mirrored at its diagonal.
    pub fn transpose(self) -> (t: Self)
        ensures
            t@ == spec_transpose(self@),
            forall|i: int, j: int| 0 <= i < SIZE && 0 <= j < SIZE ==> t.at(i, j) == self.at(j, i),
    {
        let mut rows = self.data;
        let mut i: usize = 0;
        while i < SIZE
            invariant
                i <= SIZE,
                forall|r: int, c: int|
                    0 <= r < i && 0 <= c < SIZE ==> rows[r][c] == self.data[c][r],
            decreases SIZE - i,
        {
            let mut j: usize = 0;
            while j < SIZE
                invariant
                    i < SIZE,
                    j <= SIZE,
                    forall|r: int, c: int|
                        0 <= r < i && 0 <= c < SIZE ==> rows[r][c] == self.data[c][r],
                    forall|c: int| 0 <= c < j ==> rows[i as int][c] == self.data[c][i as int],
                decreases SIZE - j,
            {
                rows[i][j] = self.data[j][i];
                j += 1;
            }
            i += 1;
        }
        let t = Matrix { data: rows };
        proof {
            let want = spec_transpose(self@);
            assert forall|r: int| 0 <= r < SIZE implies t@[r] == want[r] by {
                assert(t@[r] =~= want[r]);
            }
            assert(t@ =~= want);
        }
        t
    }
}


/// The index in the larger grid of index `i` of the grid that lacks row or
/// column `deleted`: indices before the gap stay, the others move up by one.
pub open spec fn spec_skip(i: int, deleted: int) -> int {
    if i < deleted {
        i
    } else {
        i + 1
    }
}

/// The grid `m` without row `row` and column `column`, the rest closed up.
pub open spec fn spec_submatrix<T>(m: Seq<Seq<T>>, row: int, column: int) -> Seq<Seq<T>> {
    Seq::new(
        (m.len() - 1) as nat,
        |i: int|
            Seq::new((m.len() - 1) as nat, |j: int| m[spec_skip(i, row)][spec_skip(j, column)]),
    )
}

fn skip(i: usize, deleted: usize) -> (k: usize)
    requires
        i < usize::MAX,
    ensures
        k == spec_skip(i as int, deleted as int),
{
    if i < deleted {
        i
    } else {
        i + 1
    }
}

fn remove_cross<T: Copy, const SIZE: usize, const LESS: usize>(
    grid: &[[T; SIZE]; SIZE],
    delete_row: usize,
    delete_column: usize,
) -> (rest: [[T; LESS]; LESS])
    requires
        SIZE == LESS + 1,
        delete_row < SIZE,
        delete_column < SIZE,
    ensures
        forall|i: int, j: int|
            0 <= i < LESS && 0 <= j < LESS ==> rest[i][j] == grid[spec_skip(
                i,
                delete_row as int,
            )][spec_skip(j, delete_column as int)],
{
    let filler: [T; LESS] = [grid[0][0];LESS];
    let mut rest: [[T; LESS]; LESS] = [filler;LESS];
    let mut i: usize = 0;
    while i < LESS
        invariant
            i <= LESS,
            SIZE == LESS + 1,
            forall|r: int, c: int|
                0 <= r < i && 0 <= c < LESS ==> rest[r][c] == grid[spec_skip(
                    r,
                    delete_row as int,
                )][spec_skip(c, delete_column as int)],
        decreases LESS - i,
    {
        let from_row = skip(i, delete_row);
        let mut j: usize = 0;
        while j < LESS
            invariant
                i < LESS,
                j <= LESS,
                SIZE == LESS + 1,
                from_row == spec_skip(i as int, delete_row as int),
                forall|r: int, c: int|
                    0 <= r < i && 0 <= c < LESS ==> rest[r][c] == grid[spec_skip(
                        r,
                        delete_row as int,
                    )][spec_skip(c, delete_column as int)],
                forall|c: int|
                    0 <= c < j ==> rest[i as int][c] == grid[from_row as int][spec_skip(
                        c,
                        delete_column as int,
                    )],
            decreases LESS - j,
        {
            rest[i][j] = grid[from_row][skip(j, delete_column)];
            j += 1;
        }
        i += 1;
    }
    rest
}

impl<T: Copy> Matrix<T, 4> {
    /// The matrix without one row and one column.
    pub fn submatrix(&self, delete_row: usize, delete_column: usize) -> (sub: Matrix<T, 3>)
        requires
            delete_row < 4,
            delete_column < 4,
        ensures
            sub@ == spec_submatrix(self@, delete_row as int, delete_column as int),
    {
        let sub = Matrix { data: remove_cross::<T, 4, 3>(&self.data, delete_row, delete_column) };
        proof {
            let want = spec_submatrix(self@, delete_row as int, delete_column as int);
            assert forall|i: int| 0 <= i < 3 implies sub@[i] == want[i] by {
                assert(sub@[i] =~= want[i]);
            }
            assert(sub@ =~= want);
        }
        sub
    }
}

impl<T: Copy> Matrix<T, 3> {
    /// The matrix without one row and one column.
    pub fn submatrix(&self, delete_row: usize, delete_column: usize) -> (sub: Matrix<T, 2>)
        requires
            delete_row < 3,
            delete_column < 3,
        ensures
            sub@ == spec_submatrix(self@, delete_row as int, delete_column as int),
    {
        let sub = Matrix { data: remove_cross::<T, 3, 2>(&self.data, delete_row, delete_column) };
        proof {
            let want = spec_submatrix(self@, delete_row as int, delete_column as int);
            assert forall|i: int| 0 <= i < 2 implies sub@[i] == want[i] by {
                assert(sub@[i] =~= want[i]);
            }
            assert(sub@ =~= want);
        }
        sub
    }
}


/// The identity matrix.
pub open spec fn spec_identity<T: Scalar>() -> Matrix<T, 4> {
    let o = spec_zero::<T>();
    let i = spec_one::<T>();
    Matrix { data: [[i, o, o, o], [o, i, o, o], [o, o, i, o], [o, o, o, i]] }
}

/// The translation by `(x, y, z)`: the identity with the first three
/// entries of the last column set to `x`, `y`, `z`.
pub open spec fn spec_translation<T: Scalar>(x: T, y: T, z: T) -> Matrix<T, 4> {
    let o = spec_zero::<T>();
    let i = spec_one::<T>();
    Matrix { data: [[i, o, o, x], [o, i, o, y], [o, o, i, z], [o, o, o, i]] }
}

/// The scaling by `(x, y, z)`: a diagonal of `x`, `y`, `z` and one.
pub open spec fn spec_scaling<T: Scalar>(x: T, y: T, z: T) -> Matrix<T, 4> {
    let o = spec_zero::<T>();
    let i = spec_one::<T>();
    Matrix { data: [[x, o, o, o], [o, y, o, o], [o, o, z, o], [o, o, o, i]] }
}

/// A shearing: the identity with the six entries set that couple two of
/// the first three axes. `x_y` moves x in proportion to y, and so on.
pub open spec fn spec_shearing<T: Scalar>(x_y: T, x_z: T, y_x: T, y_z: T, z_x: T, z_y: T) -> Matrix<
    T,
    4,
> {
    let o = spec_zero::<T>();
    let i = spec_one::<T>();
    Matrix { data: [[i, x_y, x_z, o], [y_x, i, y_z, o], [z_x, z_y, i, o], [o, o, o, i]] }
}

/// The right-handed rotation about the x axis by an angle in radians.
pub open spec fn spec_rotation_x<T: Scalar>(rotation: T) -> Matrix<T, 4> {
    let o = spec_zero::<T>();
    let i = spec_one::<T>();
    let c = spec_cosine(rotation);
    let s = spec_sine(rotation);
    let n = spec_negated(spec_sine(rotation));
    Matrix { data: [[i, o, o, o], [o, c, n, o], [o, s, c, o], [o, o, o, i]] }
}

/// The right-handed rotation about the y axis by an angle in radians.
pub open spec fn spec_rotation_y<T: Scalar>(rotation: T) -> Matrix<T, 4> {
    let o = spec_zero::<T>();
    let i = spec_one::<T>();
    let c = spec_cosine(rotation);
    let s = spec_sine(rotation);
    let n = spec_negated(spec_sine(rotation));
    Matrix { data: [[c, o, s, o], [o, i, o, o], [n, o, c, o], [o, o, o, i]] }
}

/// The right-handed rotation about the z axis by an angle in radians.
pub open spec fn spec_rotation_z<T: Scalar>(rotation: T) -> Matrix<T, 4> {
    let o = spec_zero::<T>();
    let i = spec_one::<T>();
    let c = spec_cosine(rotation);
    let s = spec_sine(rotation);
    let n = spec_negated(spec_sine(rotation));
    Matrix { data: [[c, n, o, o], [s, c, o, o], [o, o, i, o], [o, o, o, i]] }
}

pub(crate) proof fn lemma_rows_equal<T>(a: [[T; 4]; 4], b: [[T; 4]; 4])
    requires
        forall|i: int, j: int| 0 <= i < 4 && 0 <= j < 4 ==> a[i][j] == b[i][j],
    ensures
        a == b,
{
    assert forall|i: int| 0 <= i < 4 implies a[i] == b[i] by {
        assert(a[i] =~= b[i]);
    }
    assert(a =~= b);
}

pub fn identity<T: Scalar>() -> (m: Matrix<T, 4>)
    ensures
        deterministic::<T>() ==> m == spec_identity::<T>(),
{
    let o: T = zero();
    let i: T = one();
    let m = Matrix { data: [[i, o, o, o], [o, i, o, o], [o, o, i, o], [o, o, o, i]] };
    proof {
        if deterministic::<T>() {
            lemma_rows_equal(m.data, spec_identity::<T>().data);
        }
    }
    m
}

pub fn translation<T: Scalar>(x: T, y: T, z: T) -> (m: Matrix<T, 4>)
    ensures
        deterministic::<T>() ==> m == spec_translation(x, y, z),
{
    let o: T = zero();
    let i: T = one();
    let m = Matrix { data: [[i, o, o, x], [o, i, o, y], [o, o, i, z], [o, o, o, i]] };
    proof {
        if deterministic::<T>() {
            lemma_rows_equal(m.data, spec_translation(x, y, z).data);
        }
    }
    m
}

pub fn translation_i<T: Scalar>(x: i32, y: i32, z: i32) -> (m: Matrix<T, 4>)
    ensures
        deterministic::<T>() ==> m == spec_translation(
            spec_from_i32::<T>(x),
            spec_from_i32::<T>(y),
            spec_from_i32::<T>(z),
        ),
{
    translation(from_i32(x), from_i32(y), from_i32(z))
}

pub fn scaling<T: Scalar>(x: T, y: T, z: T) -> (m: Matrix<T, 4>)
    ensures
        deterministic::<T>() ==> m == spec_scaling(x, y, z),
{
    let o: T = zero();
    let i: T = one();
    let m = Matrix { data: [[x, o, o, o], [o, y, o, o], [o, o, z, o], [o, o, o, i]] };
    proof {
        if deterministic::<T>() {
            lemma_rows_equal(m.data, spec_scaling(x, y, z).data);
        }
    }
    m
}

pub fn scaling_i<T: Scalar>(x: i32, y: i32, z: i32) -> (m: Matrix<T, 4>)
    ensures
        deterministic::<T>() ==> m == spec_scaling(
            spec_from_i32::<T>(x),
            spec_from_i32::<T>(y),
            spec_from_i32::<T>(z),
        ),
{
    scaling(from_i32(x), from_i32(y), from_i32(z))
}

pub fn shearing<T: Scalar>(x_y: T, x_z: T, y_x: T, y_z: T, z_x: T, z_y: T) -> (m: Matrix<T, 4>)
    ensures
        deterministic::<T>() ==> m == spec_shearing(x_y, x_z, y_x, y_z, z_x, z_y),
{
    let o: T = zero();
    let i: T = one();
    let m = Matrix { data: [[i, x_y, x_z, o], [y_x, i, y_z, o], [z_x, z_y, i, o], [o, o, o, i]] };
    proof {
        if deterministic::<T>() {
            lemma_rows_equal(m.data, spec_shearing(x_y, x_z, y_x, y_z, z_x, z_y).data);
        }
    }
    m
}

pub fn shearing_i<T: Scalar>(x_y: i32, x_z: i32, y_x: i32, y_z: i32, z_x: i32, z_y: i32) -> (m:
    Matrix<T, 4>)
    ensures
        deterministic::<T>() ==> m == spec_shearing(
            spec_from_i32::<T>(x_y),
            spec_from_i32::<T>(x_z),
            spec_from_i32::<T>(y_x),
            spec_from_i32::<T>(y_z),
            spec_from_i32::<T>(z_x),
            spec_from_i32::<T>(z_y),
        ),
{
    shearing(
        from_i32(x_y),
        from_i32(x_z),
        from_i32(y_x),
        from_i32(y_z),
        from_i32(z_x),
        from_i32(z_y),
    )
}

pub fn rotation_x<T: Scalar>(rotation: T) -> (m: Matrix<T, 4>)
    ensures
        deterministic::<T>() ==> m == spec_rotation_x(rotation),
{
    let o: T = zero();
    let i: T = one();
    let c = cosine(rotation);
    let s = sine(rotation);
    let n = negated(sine(rotation));
    let m = Matrix { data: [[i, o, o, o], [o, c, n, o], [o, s, c, o], [o, o, o, i]] };
    proof {
        if deterministic::<T>() {
            lemma_rows_equal(m.data, spec_rotation_x(rotation).data);
        }
    }
    m
}

pub fn rotation_y<T: Scalar>(rotation: T) -> (m: Matrix<T, 4>)
    ensures
        deterministic::<T>() ==> m == spec_rotation_y(rotation),
{
    let o: T = zero();
    let i: T = one();
    let c = cosine(rotation);
    let s = sine(rotation);
    let n = negated(sine(rotation));
    let m = Matrix { data: [[c, o, s, o], [o, i, o, o], [n, o, c, o], [o, o, o, i]] };
    proof {
        if deterministic::<T>() {
            lemma_rows_equal(m.data, spec_rotation_y(rotation).data);
        }
    }
    m
}

pub fn rotation_z<T: Scalar>(rotation: T) -> (m: Matrix<T, 4>)
    ensures
        deterministic::<T>() ==> m == spec_rotation_z(rotation),
{
    let o: T = zero();
    let i: T = one();
    let c = cosine(rotation);
    let s = sine(rotation);
    let n = negated(sine(rotation));
    let m = Matrix { data: [[c, n, o, o], [s, c, o, o], [o, o, i, o], [o, o, o, i]] };
    proof {
        if deterministic::<T>() {
            lemma_rows_equal(m.data, spec_rotation_z(rotation).data);
        }
    }
    m
}


/// The sum of the first `k` products of entries of row `row` of `a` with
/// entries of column `column` of `b`, added up from zero, left to right.
pub open spec fn spec_row_by_column<T: Scalar>(
    a: Seq<Seq<T>>,
    b: Seq<Seq<T>>,
    row: int,
    column: int,
    k: nat,
) -> T
    decreases k,
{
    if k == 0 {
        spec_zero::<T>()
    } else {
        spec_plus(
            spec_row_by_column(a, b, row, column, (k - 1) as nat),
            spec_times(a[row][k - 1], b[k - 1][column]),
        )
    }
}

/// The product of two grids: rows of `a` by columns of `b`.
pub open spec fn spec_product<T: Scalar>(a: Seq<Seq<T>>, b: Seq<Seq<T>>) -> Seq<Seq<T>> {
    Seq::new(
        a.len(),
        |row: int| Seq::new(a.len(), |column: int| spec_row_by_column(a, b, row, column, a.len())),
    )
}

/// The sum of two grids, entry by entry.
pub open spec fn spec_sum<T: Scalar>(a: Seq<Seq<T>>, b: Seq<Seq<T>>) -> Seq<Seq<T>> {
    Seq::new(
        a.len(),
        |row: int| Seq::new(a.len(), |column: int| spec_plus(a[row][column], b[row][column])),
    )
}

/// Whether two grids count as equal: every entry within the tolerance.
pub open spec fn spec_matrix_eq<T: Scalar>(a: Seq<Seq<T>>, b: Seq<Seq<T>>) -> bool {
    forall|row: int, column: int|
        0 <= row < a.len() && 0 <= column < a.len() ==> spec_a_equal_b(
            #[trigger] a[row][column],
            #[trigger] b[row][column],
        )
}

/// Component `row` of the product of a grid of four rows with a tuple
/// taken as a column.
pub open spec fn spec_row_by_tuple<T: Scalar>(m: Seq<Seq<T>>, row: int, t: Tuple<T>) -> T {
    spec_plus(
        spec_plus(
            spec_plus(spec_times(m[row][0], t.x), spec_times(m[row][1], t.y)),
            spec_times(m[row][2], t.z),
        ),
        spec_times(m[row][3], t.w),
    )
}

/// The product of a grid of four rows with a tuple taken as a column.
pub open spec fn spec_apply<T: Scalar>(m: Seq<Seq<T>>, t: Tuple<T>) -> Tuple<T> {
    Tuple {
        x: spec_row_by_tuple(m, 0, t),
        y: spec_row_by_tuple(m, 1, t),
        z: spec_row_by_tuple(m, 2, t),
        w: spec_row_by_tuple(m, 3, t),
    }
}

impl<T: Scalar, const SIZE: usize> Matrix<T, SIZE> {
    fn row_by_column(&self, rhs: &Self, row: usize, column: usize) -> (r: T)
        requires
            row < SIZE,
            column < SIZE,
        ensures
            deterministic::<T>() ==> r == spec_row_by_column(
                self@,
                rhs@,
                row as int,
                column as int,
                SIZE as nat,
            ),
    {
        let mut acc: T = zero();
        let mut k: usize = 0;
        while k < SIZE
            invariant
                k <= SIZE,
                row < SIZE,
                column < SIZE,
                deterministic::<T>() ==> acc == spec_row_by_column(
                    self@,
                    rhs@,
                    row as int,
                    column as int,
                    k as nat,
                ),
            decreases SIZE - k,
        {
            acc = plus(acc, times(self.data[row][k], rhs.data[k][column]));
            k += 1;
        }
        acc
    }

    /// The product of the two matrices, rows of `self` by columns of `rhs`.
    pub fn product(&self, rhs: &Self) -> (m: Self)
        ensures
            deterministic::<T>() ==> m@ == spec_product(self@, rhs@),
    {
        let mut rows = self.data;
        let mut row: usize = 0;
        while row < SIZE
            invariant
                row <= SIZE,
                deterministic::<T>() ==> forall|r: int, c: int|
                    0 <= r < row && 0 <= c < SIZE ==> rows[r][c] == spec_row_by_column(
                        self@,
                        rhs@,
                        r,
                        c,
                        SIZE as nat,
                    ),
            decreases SIZE - row,
        {
            let mut column: usize = 0;
            while column < SIZE
                invariant
                    row < SIZE,
                    column <= SIZE,
                    deterministic::<T>() ==> forall|r: int, c: int|
                        0 <= r < row && 0 <= c < SIZE ==> rows[r][c] == spec_row_by_column(
                            self@,
                            rhs@,
                            r,
                            c,
                            SIZE as nat,
                        ),
                    deterministic::<T>() ==> forall|c: int|
                        0 <= c < column ==> rows[row as int][c] == spec_row_by_column(
                            self@,
                            rhs@,
                            row as int,
                            c,
                            SIZE as nat,
                        ),
                decreases SIZE - column,
            {
                rows[row][column] = self.row_by_column(rhs, row, column);
                column += 1;
            }
            row += 1;
        }
        let m = Matrix { data: rows };
        proof {
            if deterministic::<T>() {
                let want = spec_product(self@, rhs@);
                assert forall|r: int| 0 <= r < SIZE implies m@[r] == want[r] by {
                    assert(m@[r] =~= want[r]);
                }
                assert(m@ =~= want);
            }
        }
        m
    }

    /// The sum of the two matrices, entry by entry.
    pub fn sum(&self, rhs: &Self) -> (m: Self)
        ensures
            deterministic::<T>() ==> m@ == spec_sum(self@, rhs@),
    {
        let mut rows = self.data;
        let mut row: usize = 0;
        while row < SIZE
            invariant
                row <= SIZE,
                deterministic::<T>() ==> forall|r: int, c: int|
                    0 <= r < row && 0 <= c < SIZE ==> rows[r][c] == spec_plus(
                        self.data[r][c],
                        rhs.data[r][c],
                    ),
            decreases SIZE - row,
        {
            let mut column: usize = 0;
            while column < SIZE
                invariant
                    row < SIZE,
                    column <= SIZE,
                    deterministic::<T>() ==> forall|r: int, c: int|
                        0 <= r < row && 0 <= c < SIZE ==> rows[r][c] == spec_plus(
                            self.data[r][c],
                            rhs.data[r][c],
                        ),
                    deterministic::<T>() ==> forall|c: int|
                        0 <= c < column ==> rows[row as int][c] == spec_plus(
                            self.data[row as int][c],
                            rhs.data[row as int][c],
                        ),
                decreases SIZE - column,
            {
                rows[row][column] = plus(self.data[row][column], rhs.data[row][column]);
                column += 1;
            }
            row += 1;
        }
        let m = Matrix { data: rows };
        proof {
            if deterministic::<T>() {
                let want = spec_sum(self@, rhs@);
                assert forall|r: int| 0 <= r < SIZE implies m@[r] == want[r] by {
                    assert(m@[r] =~= want[r]);
                }
                assert(m@ =~= want);
            }
        }
        m
    }

    /// Whether the two matrices count as equal: every entry within the
    /// tolerance.
    pub fn close_to(&self, other: &Self) -> (same: bool)
        ensures
            deterministic::<T>() ==> same == spec_matrix_eq(self@, other@),
    {
        let mut row: usize = 0;
        while row < SIZE
            invariant
                row <= SIZE,
                deterministic::<T>() ==> forall|r: int, c: int|
                    0 <= r < row && 0 <= c < SIZE ==> spec_a_equal_b(
                        #[trigger] self@[r][c],
                        #[trigger] other@[r][c],
                    ),
            decreases SIZE - row,
        {
            let mut column: usize = 0;
            while column < SIZE
                invariant
                    row < SIZE,
                    column <= SIZE,
                    deterministic::<T>() ==> forall|r: int, c: int|
                        0 <= r < row && 0 <= c < SIZE ==> spec_a_equal_b(
                            #[trigger] self@[r][c],
                            #[trigger] other@[r][c],
                        ),
                    deterministic::<T>() ==> forall|c: int|
                        0 <= c < column ==> spec_a_equal_b(
                            #[trigger] self@[row as int][c],
                            #[trigger] other@[row as int][c],
                        ),
                decreases SIZE - column,
            {
                if !a_equal_b(self.data[row][column], other.data[row][column]) {
                    proof {
                        if deterministic::<T>() {
                            assert(!spec_a_equal_b(
                                self@[row as int][column as int],
                                other@[row as int][column as int],
                            ));
                        }
                    }
                    return false;
                }
                column += 1;
            }
            row += 1;
        }
        true
    }
}

impl<T: Scalar> Matrix<T, 4> {
    /// The tuple carried over by the matrix: the product of the matrix with
    /// the tuple taken as a column.
    pub fn apply(&self, rhs: Tuple<T>) -> (t: Tuple<T>)
        ensures
            deterministic::<T>() ==> t == spec_apply(self@, rhs),
    {
        let d = &self.data;
        Tuple {
            x: plus(
                plus(plus(times(d[0][0], rhs.x), times(d[0][1], rhs.y)), times(d[0][2], rhs.z)),
                times(d[0][3], rhs.w),
            ),
            y: plus(
                plus(plus(times(d[1][0], rhs.x), times(d[1][1], rhs.y)), times(d[1][2], rhs.z)),
                times(d[1][3], rhs.w),
            ),
            z: plus(
                plus(plus(times(d[2][0], rhs.x), times(d[2][1], rhs.y)), times(d[2][2], rhs.z)),
                times(d[2][3], rhs.w),
            ),
            w: plus(
                plus(plus(times(d[3][0], rhs.x), times(d[3][1], rhs.y)), times(d[3][2], rhs.z)),
                times(d[3][3], rhs.w),
            ),
        }
    }
}

impl<T: Scalar, const SIZE: usize> core::ops::Mul for Matrix<T, SIZE> {
    type Output = Self;

    fn mul(self, rhs: Self) -> (m: Self) {
        let m = self.product(&rhs);
        proof {
            if deterministic::<T>() {
                lemma_from_grid(m);
            }
        }
        m
    }
}

impl<T: Scalar, const SIZE: usize> vstd::std_specs::ops::MulSpecImpl for Matrix<T, SIZE> {
    open spec fn obeys_mul_spec() -> bool {
        deterministic::<T>()
    }

    open spec fn mul_req(self, rhs: Self) -> bool {
        true
    }

    open spec fn mul_spec(self, rhs: Self) -> Self {
        from_grid(spec_product(self@, rhs@))
    }
}

impl<T: Scalar> core::ops::Mul<Tuple<T>> for Matrix<T, 4> {
    type Output = Tuple<T>;

    fn mul(self, rhs: Tuple<T>) -> (t: Tuple<T>) {
        self.apply(rhs)
    }
}

impl<T: Scalar> vstd::std_specs::ops::MulSpecImpl<Tuple<T>> for Matrix<T, 4> {
    open spec fn obeys_mul_spec() -> bool {
        deterministic::<T>()
    }

    open spec fn mul_req(self, rhs: Tuple<T>) -> bool {
        true
    }

    open spec fn mul_spec(self, rhs: Tuple<T>) -> Tuple<T> {
        spec_apply(self@, rhs)
    }
}

impl<T: Scalar, const SIZE: usize> core::ops::Add for Matrix<T, SIZE> {
    type Output = Self;

    fn add(self, rhs: Self) -> (m: Self) {
        let m = self.sum(&rhs);
        proof {
            if deterministic::<T>() {
                lemma_from_grid(m);
            }
        }
        m
    }
}

impl<T: Scalar, const SIZE: usize> vstd::std_specs::ops::AddSpecImpl for Matrix<T, SIZE> {
    open spec fn obeys_add_spec() -> bool {
        deterministic::<T>()
    }

    open spec fn add_req(self, rhs: Self) -> bool {
        true
    }

    open spec fn add_spec(self, rhs: Self) -> Self {
        from_grid(spec_sum(self@, rhs@))
    }
}

impl<T: Scalar, const SIZE: usize> PartialEq for Matrix<T, SIZE> {
    fn eq(&self, other: &Self) -> (same: bool) {
        self.close_to(other)
    }
}

impl<T: Scalar, const SIZE: usize> vstd::std_specs::cmp::PartialEqSpecImpl for Matrix<T, SIZE> {
    open spec fn obeys_eq_spec() -> bool {
        deterministic::<T>()
    }

    open spec fn eq_spec(&self, other: &Self) -> bool {
        spec_matrix_eq(self@, other@)
    }
}


/// The determinant of a square grid.
///
/// For two rows it is the product of the diagonal less the product of the
/// other two entries. For more rows it is the expansion along the first
/// row. A grid of fewer than two rows is given zero.
pub open spec fn spec_determinant<T: Scalar>(m: Seq<Seq<T>>) -> T
    decreases m.len(), 2nat, 0nat,
{
    if m.len() == 2 {
        spec_minus(spec_times(m[0][0], m[1][1]), spec_times(m[0][1], m[1][0]))
    } else if m.len() > 2 {
        spec_expansion(m, m.len())
    } else {
        spec_zero::<T>()
    }
}

/// The expansion along the first row, up to column `k`: each entry of the
/// row times its cofactor, added up from zero, left to right.
pub open spec fn spec_expansion<T: Scalar>(m: Seq<Seq<T>>, k: nat) -> T
    decreases m.len(), 1nat, k,
{
    if k == 0 || m.len() <= 2 {
        spec_zero::<T>()
    } else {
        spec_plus(
            spec_expansion(m, (k - 1) as nat),
            spec_times(m[0][k - 1], spec_cofactor(m, 0, k - 1)),
        )
    }
}

/// The cofactor at a position: the minor there, with its sign changed
/// where the sum of row and column is odd.
pub open spec fn spec_cofactor<T: Scalar>(m: Seq<Seq<T>>, row: int, column: int) -> T
    decreases m.len(), 0nat, 1nat,
{
    if (row + column) % 2 == 0 {
        spec_minor(m, row, column)
    } else {
        spec_negated(spec_minor(m, row, column))
    }
}

/// The minor at a position: the determinant of the grid without that row
/// and that column.
pub open spec fn spec_minor<T: Scalar>(m: Seq<Seq<T>>, row: int, column: int) -> T
    decreases m.len(), 0nat, 0nat,
{
    if m.len() >= 1 {
        spec_determinant(spec_submatrix(m, row, column))
    } else {
        spec_zero::<T>()
    }
}

/// The inverse of a square grid, or nothing where the determinant compares
/// equal to zero. The entry in row `i` and column `j` of the inverse is the
/// cofactor in row `j` and column `i`, over the determinant.
pub open spec fn spec_invert<T: Scalar>(m: Seq<Seq<T>>) -> Option<Seq<Seq<T>>> {
    let determinant = spec_determinant(m);
    if spec_equal_to(determinant, spec_zero::<T>()) {
        None
    } else {
        Some(
            Seq::new(
                m.len(),
                |i: int| Seq::new(m.len(), |j: int| spec_over(spec_cofactor(m, j, i), determinant)),
            ),
        )
    }
}

impl<T: Scalar> Matrix<T, 2> {
    pub fn determinant(&self) -> (d: T)
        ensures
            deterministic::<T>() ==> d == spec_determinant(self@),
    {
        minus(times(self.data[0][0], self.data[1][1]), times(self.data[0][1], self.data[1][0]))
    }
}

impl<T: Scalar> Matrix<T, 3> {
    pub fn minor(&self, delete_row: usize, delete_column: usize) -> (d: T)
        requires
            delete_row < 3,
            delete_column < 3,
        ensures
            deterministic::<T>() ==> d == spec_minor(self@, delete_row as int, delete_column as int),
    {
        let submatrix = self.submatrix(delete_row, delete_column);
        submatrix.determinant()
    }

    pub fn cofactor(&self, delete_row: usize, delete_column: usize) -> (d: T)
        requires
            delete_row < 3,
            delete_column < 3,
        ensures
            deterministic::<T>() ==> d == spec_cofactor(
                self@,
                delete_row as int,
                delete_column as int,
            ),
    {
        let minor = self.minor(delete_row, delete_column);
        if (delete_column + delete_row) % 2 == 0 {
            minor
        } else {
            negated(minor)
        }
    }

    pub fn determinant(&self) -> (d: T)
        ensures
            deterministic::<T>() ==> d == spec_determinant(self@),
    {
        let mut determinant: T = zero();
        let mut column: usize = 0;
        while column < 3
            invariant
                column <= 3,
                deterministic::<T>() ==> determinant == spec_expansion(self@, column as nat),
            decreases 3 - column,
        {
            determinant = plus(determinant, times(self.data[0][column], self.cofactor(0, column)));
            column += 1;
        }
        determinant
    }

    /// The inverse of the matrix, or nothing where its determinant compares
    /// equal to zero.
    pub fn invert(&self) -> (inverse: Option<Matrix<T, 3>>)
        ensures
            deterministic::<T>() ==> (inverse is None <==> spec_equal_to(
                spec_determinant(self@),
                spec_zero::<T>(),
            )),
            deterministic::<T>() ==> match inverse {
                None => spec_invert(self@) is None,
                Some(m) => spec_invert(self@) == Some(m@),
            },
    {
        let determinant = self.determinant();
        if equal_to(determinant, zero()) {
            return None;
        }
        let mut inverted = self.data;
        let mut row: usize = 0;
        while row < 3
            invariant
                row <= 3,
                deterministic::<T>() ==> determinant == spec_determinant(self@),
                deterministic::<T>() ==> forall|r: int, c: int|
                    0 <= r < row && 0 <= c < 3 ==> inverted[c][r] == spec_over(
                        spec_cofactor(self@, r, c),
                        determinant,
                    ),
            decreases 3 - row,
        {
            let mut column: usize = 0;
            while column < 3
                invariant
                    row < 3,
                    column <= 3,
                    deterministic::<T>() ==> determinant == spec_determinant(self@),
                    deterministic::<T>() ==> forall|r: int, c: int|
                        0 <= r < row && 0 <= c < 3 ==> inverted[c][r] == spec_over(
                            spec_cofactor(self@, r, c),
                            determinant,
                        ),
                    deterministic::<T>() ==> forall|c: int|
                        0 <= c < column ==> inverted[c][row as int] == spec_over(
                            spec_cofactor(self@, row as int, c),
                            determinant,
                        ),
                decreases 3 - column,
            {
                let c = self.cofactor(row, column);
                inverted[column][row] = over(c, determinant);
                column += 1;
            }
            row += 1;
        }
        let m = Matrix { data: inverted };
        proof {
            if deterministic::<T>() {
                let want = spec_invert(self@)->Some_0;
                assert forall|i: int| 0 <= i < 3 implies m@[i] == want[i] by {
                    assert(m@[i] =~= want[i]);
                }
                assert(m@ =~= want);
            }
        }
        Some(m)
    }
}

impl<T: Scalar> Matrix<T, 4> {
    pub fn minor(&self, delete_row: usize, delete_column: usize) -> (d: T)
        requires
            delete_row < 4,
            delete_column < 4,
        ensures
            deterministic::<T>() ==> d == spec_minor(self@, delete_row as int, delete_column as int),
    {
        let submatrix = self.submatrix(delete_row, delete_column);
        submatrix.determinant()
    }

    pub fn cofactor(&self, delete_row: usize, delete_column: usize) -> (d: T)
        requires
            delete_row < 4,
            delete_column < 4,
        ensures
            deterministic::<T>() ==> d == spec_cofactor(
                self@,
                delete_row as int,
                delete_column as int,
            ),
    {
        let minor = self.minor(delete_row, delete_column);
        if (delete_column + delete_row) % 2 == 0 {
            minor
        } else {
            negated(minor)
        }
    }

    pub fn determinant(&self) -> (d: T)
        ensures
            deterministic::<T>() ==> d == spec_determinant(self@),
    {
        let mut determinant: T = zero();
        let mut column: usize = 0;
        while column < 4
            invariant
                column <= 4,
                deterministic::<T>() ==> determinant == spec_expansion(self@, column as nat),
            decreases 4 - column,
        {
            determinant = plus(determinant, times(self.data[0][column], self.cofactor(0, column)));
            column += 1;
        }
        determinant
    }

    /// The inverse of the matrix, or nothing where its determinant compares
    /// equal to zero.
    pub fn invert(&self) -> (inverse: Option<Matrix<T, 4>>)
        ensures
            deterministic::<T>() ==> (inverse is None <==> spec_equal_to(
                spec_determinant(self@),
                spec_zero::<T>(),
            )),
            deterministic::<T>() ==> match inverse {
                None => spec_invert(self@) is None,
                Some(m) => spec_invert(self@) == Some(m@),
            },
    {
        let determinant = self.determinant();
        if equal_to(determinant, zero()) {
            return None;
        }
        let mut inverted = self.data;
        let mut row: usize = 0;
        while row < 4
            invariant
                row <= 4,
                deterministic::<T>() ==> determinant == spec_determinant(self@),
                deterministic::<T>() ==> forall|r: int, c: int|
                    0 <= r < row && 0 <= c < 4 ==> inverted[c][r] == spec_over(
                        spec_cofactor(self@, r, c),
                        determinant,
                    ),
            decreases 4 - row,
        {
            let mut column: usize = 0;
            while column < 4
                invariant
                    row < 4,
                    column <= 4,
                    deterministic::<T>() ==> determinant == spec_determinant(self@),
                    deterministic::<T>() ==> forall|r: int, c: int|
                        0 <= r < row && 0 <= c < 4 ==> inverted[c][r] == spec_over(
                            spec_cofactor(self@, r, c),
                            determinant,
                        ),
                    deterministic::<T>() ==> forall|c: int|
                        0 <= c < column ==> inverted[c][row as int] == spec_over(
                            spec_cofactor(self@, row as int, c),
                            determinant,
                        ),
                decreases 4 - column,
            {
                let c = self.cofactor(row, column);
                inverted[column][row] = over(c, determinant);
                column += 1;
            }
            row += 1;
        }
        let m = Matrix { data: inverted };
        proof {
            if deterministic::<T>() {
                let want = spec_invert(self@)->Some_0;
                assert forall|i: int| 0 <= i < 4 implies m@[i] == want[i] by {
                    assert(m@[i] =~= want[i]);
                }
                assert(m@ =~= want);
            }
        }
        Some(m)
    }
}

impl<T: Scalar> Matrix<T, 4> {
    /// `self`, then a rotation about the x axis: the rotation times `self`.
    pub fn rotate_x(self, rotation: T) -> (m: Matrix<T, 4>)
        ensures
            deterministic::<T>() ==> m@ == spec_product(spec_rotation_x(rotation)@, self@),
    {
        let transform = rotation_x(rotation);
        transform.product(&self)
    }

    /// `self`, then a rotation about the y axis: the rotation times `self`.
    pub fn rotate_y(self, rotation: T) -> (m: Matrix<T, 4>)
        ensures
            deterministic::<T>() ==> m@ == spec_product(spec_rotation_y(rotation)@, self@),
    {
        let transform = rotation_y(rotation);
        transform.product(&self)
    }

    /// `self`, then a rotation about the z axis: the rotation times `self`.
    pub fn rotate_z(self, rotation: T) -> (m: Matrix<T, 4>)
        ensures
            deterministic::<T>() ==> m@ == spec_product(spec_rotation_z(rotation)@, self@),
    {
        let transform = rotation_z(rotation);
        transform.product(&self)
    }

    /// `self`, then a scaling: the scaling times `self`.
    pub fn scale(self, x: T, y: T, z: T) -> (m: Matrix<T, 4>)
        ensures
            deterministic::<T>() ==> m@ == spec_product(spec_scaling(x, y, z)@, self@),
    {
        let transform = scaling(x, y, z);
        transform.product(&self)
    }

    /// `self`, then a translation: the translation times `self`.
    pub fn translate(self, x: T, y: T, z: T) -> (m: Matrix<T, 4>)
        ensures
            deterministic::<T>() ==> m@ == spec_product(spec_translation(x, y, z)@, self@),
    {
        let transform = translation(x, y, z);
        transform.product(&self)
    }
}

} // verus!
