use vstd::prelude::*;
use crate::matrix::{
    lemma_rows_equal, lemma_view_square, Matrix, spec_apply, spec_identity, spec_product,
    spec_rotation_x, spec_row_by_column, spec_row_by_tuple, spec_scaling, spec_translation,
};
use crate::scalar::{
    Scalar, spec_cosine, spec_negated, spec_one, spec_plus, spec_sine, spec_times, spec_zero,
};
use crate::tuple::Tuple;

verus! {

/// Whether zero and one of the number type behave as such: one times a
/// number and a number times one are the number, zero times a number and a
/// number times zero are zero, and a number plus zero and zero plus a number
/// are the number.
#[verifier::opaque]
pub open spec fn zero_and_one_behave<T: Scalar>() -> bool {
    &&& forall|a: T| #[trigger] spec_times(spec_one::<T>(), a) == a
    &&& forall|a: T| #[trigger] spec_times(a, spec_one::<T>()) == a
    &&& forall|a: T| #[trigger] spec_times(spec_zero::<T>(), a) == spec_zero::<T>()
    &&& forall|a: T| #[trigger] spec_times(a, spec_zero::<T>()) == spec_zero::<T>()
    &&& forall|a: T| #[trigger] spec_plus(a, spec_zero::<T>()) == a
    &&& forall|a: T| #[trigger] spec_plus(spec_zero::<T>(), a) == a
}

/// A translation leaves a vector, whose `w` is zero, as it is.
pub proof fn lemma_translation_keeps_vectors<T: Scalar>(x: T, y: T, z: T, v: Tuple<T>)
    requires
        zero_and_one_behave::<T>(),
        v.w == spec_zero::<T>(),
    ensures
        spec_apply(spec_translation(x, y, z)@, v) == v,
{
    reveal(zero_and_one_behave);
    let m = spec_translation(x, y, z);
    lemma_view_square(m);
    assert(spec_row_by_tuple(m@, 0, v) == v.x);
    assert(spec_row_by_tuple(m@, 1, v) == v.y);
    assert(spec_row_by_tuple(m@, 2, v) == v.z);
    assert(spec_row_by_tuple(m@, 3, v) == v.w);
}

/// A translation moves a point, whose `w` is one, by its three distances.
pub proof fn lemma_translation_moves_points<T: Scalar>(x: T, y: T, z: T, p: Tuple<T>)
    requires
        zero_and_one_behave::<T>(),
        p.w == spec_one::<T>(),
    ensures
        spec_apply(spec_translation(x, y, z)@, p) == (Tuple {
            x: spec_plus(p.x, x),
            y: spec_plus(p.y, y),
            z: spec_plus(p.z, z),
            w: spec_one::<T>(),
        }),
{
    reveal(zero_and_one_behave);
    let m = spec_translation(x, y, z);
    lemma_view_square(m);
    assert(spec_row_by_tuple(m@, 0, p) == spec_plus(p.x, x));
    assert(spec_row_by_tuple(m@, 1, p) == spec_plus(p.y, y));
    assert(spec_row_by_tuple(m@, 2, p) == spec_plus(p.z, z));
    assert(spec_row_by_tuple(m@, 3, p) == spec_one::<T>());
}

/// A chain of a rotation, a scaling and a translation, begun at the
/// identity, is the product of the three with the last one on the left.
pub proof fn lemma_chain_is_product_in_reverse<T: Scalar>(
    rotation: T,
    scale: (T, T, T),
    shift: (T, T, T),
    rotated: Matrix<T, 4>,
    scaled: Matrix<T, 4>,
    shifted: Matrix<T, 4>,
)
    requires
        rotated@ == spec_product(spec_rotation_x(rotation)@, spec_identity::<T>()@),
        scaled@ == spec_product(spec_scaling(scale.0, scale.1, scale.2)@, rotated@),
        shifted@ == spec_product(spec_translation(shift.0, shift.1, shift.2)@, scaled@),
    ensures
        shifted@ == spec_product(
            spec_translation(shift.0, shift.1, shift.2)@,
            spec_product(
                spec_scaling(scale.0, scale.1, scale.2)@,
                spec_product(spec_rotation_x(rotation)@, spec_identity::<T>()@),
            ),
        ),
{
}



/// Whether products of the number type may be regrouped, and a product
/// with a sum is the sum of the products.
#[verifier::opaque]
pub open spec fn products_regroup<T: Scalar>() -> bool {
    &&& forall|a: T, b: T, c: T| #[trigger]
        spec_times(spec_times(a, b), c) == spec_times(a, spec_times(b, c))
    &&& forall|a: T, b: T, c: T| #[trigger]
        spec_times(a, spec_plus(b, c)) == spec_plus(spec_times(a, b), spec_times(a, c))
}

/// The four products that make up one entry of a product of matrices of
/// four rows, added up from zero.
pub open spec fn spec_entry<T: Scalar>(a: Matrix<T, 4>, b: Matrix<T, 4>, row: int, column: int) -> T {
    spec_plus(
        spec_plus(
            spec_plus(
                spec_plus(spec_zero::<T>(), spec_times(a.at(row, 0), b.at(0, column))),
                spec_times(a.at(row, 1), b.at(1, column)),
            ),
            spec_times(a.at(row, 2), b.at(2, column)),
        ),
        spec_times(a.at(row, 3), b.at(3, column)),
    )
}

/// Every entry of a product of matrices of four rows is the sum of its four
/// products.
pub proof fn lemma_product_entries<T: Scalar>(a: Matrix<T, 4>, b: Matrix<T, 4>, m: Matrix<T, 4>)
    requires
        m@ == spec_product(a@, b@),
    ensures
        forall|row: int, column: int|
            0 <= row < 4 && 0 <= column < 4 ==> #[trigger] m.at(row, column) == spec_entry(
                a,
                b,
                row,
                column,
            ),
{
    reveal_with_fuel(spec_row_by_column, 5);
    lemma_view_square(a);
    lemma_view_square(b);
    lemma_view_square(m);
    assert forall|row: int, column: int| 0 <= row < 4 && 0 <= column < 4 implies #[trigger] m.at(
        row,
        column,
    ) == spec_entry(a, b, row, column) by {
        assert(m@[row][column] == spec_row_by_column(a@, b@, row, column, 4));
    }
}

proof fn lemma_rotation_then_identity<T: Scalar>(rotation: T, m: Matrix<T, 4>)
    requires
        zero_and_one_behave::<T>(),
        m@ == spec_product(spec_rotation_x(rotation)@, spec_identity::<T>()@),
    ensures
        m == spec_rotation_x(rotation),
{
    reveal(zero_and_one_behave);
    let r = spec_rotation_x(rotation);
    let id = spec_identity::<T>();
    lemma_product_entries(r, id, m);
    assert forall|i: int, j: int| 0 <= i < 4 && 0 <= j < 4 implies m.data[i][j] == r.data[i][j] by {
        assert(m.at(i, j) == spec_entry(r, id, i, j));
    }
    lemma_rows_equal(m.data, r.data);
}

/// The scaling of a rotation about the x axis.
spec fn spec_scaled_rotation_x<T: Scalar>(rotation: T, scale: (T, T, T)) -> Matrix<T, 4> {
    let o = spec_zero::<T>();
    let i = spec_one::<T>();
    let c = spec_cosine(rotation);
    let s = spec_sine(rotation);
    let n = spec_negated(spec_sine(rotation));
    Matrix {
        data: [
            [scale.0, o, o, o],
            [o, spec_times(scale.1, c), spec_times(scale.1, n), o],
            [o, spec_times(scale.2, s), spec_times(scale.2, c), o],
            [o, o, o, i],
        ],
    }
}

proof fn lemma_scaling_then_rotation<T: Scalar>(rotation: T, scale: (T, T, T), m: Matrix<T, 4>)
    requires
        zero_and_one_behave::<T>(),
        m@ == spec_product(
            spec_scaling(scale.0, scale.1, scale.2)@,
            spec_rotation_x(rotation)@,
        ),
    ensures
        m == spec_scaled_rotation_x(rotation, scale),
{
    reveal(zero_and_one_behave);
    let r = spec_rotation_x(rotation);
    let sc = spec_scaling(scale.0, scale.1, scale.2);
    let want = spec_scaled_rotation_x(rotation, scale);
    lemma_product_entries(sc, r, m);
    assert forall|i: int, j: int| 0 <= i < 4 && 0 <= j < 4 implies m.data[i][j] == want.data[i][j] by {
        assert(m.at(i, j) == spec_entry(sc, r, i, j));
    }
    lemma_rows_equal(m.data, want.data);
}

/// The translation of the scaling of a rotation about the x axis.
spec fn spec_moved_scaled_rotation_x<T: Scalar>(
    rotation: T,
    scale: (T, T, T),
    shift: (T, T, T),
) -> Matrix<T, 4> {
    let o = spec_zero::<T>();
    let i = spec_one::<T>();
    let c = spec_cosine(rotation);
    let s = spec_sine(rotation);
    let n = spec_negated(spec_sine(rotation));
    Matrix {
        data: [
            [scale.0, o, o, shift.0],
            [o, spec_times(scale.1, c), spec_times(scale.1, n), shift.1],
            [o, spec_times(scale.2, s), spec_times(scale.2, c), shift.2],
            [o, o, o, i],
        ],
    }
}

proof fn lemma_translation_then_scaled_rotation<T: Scalar>(
    rotation: T,
    scale: (T, T, T),
    shift: (T, T, T),
    m: Matrix<T, 4>,
)
    requires
        zero_and_one_behave::<T>(),
        m@ == spec_product(
            spec_translation(shift.0, shift.1, shift.2)@,
            spec_scaled_rotation_x(rotation, scale)@,
        ),
    ensures
        m == spec_moved_scaled_rotation_x(rotation, scale, shift),
{
    reveal(zero_and_one_behave);
    let t = spec_translation(shift.0, shift.1, shift.2);
    let sr = spec_scaled_rotation_x(rotation, scale);
    let want = spec_moved_scaled_rotation_x(rotation, scale, shift);
    lemma_product_entries(t, sr, m);
    assert forall|i: int, j: int| 0 <= i < 4 && 0 <= j < 4 implies m.data[i][j] == want.data[i][j] by {
        assert(m.at(i, j) == spec_entry(t, sr, i, j));
    }
    lemma_rows_equal(m.data, want.data);
}


/// What the chain gives for a point, and what its three steps give one
/// after the other, each written out.
proof fn lemma_both_ways_written_out<T: Scalar>(
    rotation: T,
    scale: (T, T, T),
    shift: (T, T, T),
    p: Tuple<T>,
)
    requires
        zero_and_one_behave::<T>(),
        p.w == spec_one::<T>(),
    ensures
        spec_apply(spec_moved_scaled_rotation_x(rotation, scale, shift)@, p) == (Tuple {
            x: spec_plus(spec_times(scale.0, p.x), shift.0),
            y: spec_plus(
                spec_plus(
                    spec_times(spec_times(scale.1, spec_cosine(rotation)), p.y),
                    spec_times(spec_times(scale.1, spec_negated(spec_sine(rotation))), p.z),
                ),
                shift.1,
            ),
            z: spec_plus(
                spec_plus(
                    spec_times(spec_times(scale.2, spec_sine(rotation)), p.y),
                    spec_times(spec_times(scale.2, spec_cosine(rotation)), p.z),
                ),
                shift.2,
            ),
            w: spec_one::<T>(),
        }),
        spec_apply(
            spec_translation(shift.0, shift.1, shift.2)@,
            spec_apply(
                spec_scaling(scale.0, scale.1, scale.2)@,
                spec_apply(spec_rotation_x(rotation)@, p),
            ),
        ) == (Tuple {
            x: spec_plus(spec_times(scale.0, p.x), shift.0),
            y: spec_plus(
                spec_times(
                    scale.1,
                    spec_plus(
                        spec_times(spec_cosine(rotation), p.y),
                        spec_times(spec_negated(spec_sine(rotation)), p.z),
                    ),
                ),
                shift.1,
            ),
            z: spec_plus(
                spec_times(
                    scale.2,
                    spec_plus(
                        spec_times(spec_sine(rotation), p.y),
                        spec_times(spec_cosine(rotation), p.z),
                    ),
                ),
                shift.2,
            ),
            w: spec_one::<T>(),
        }),
{
    reveal(zero_and_one_behave);
    let c = spec_cosine(rotation);
    let s = spec_sine(rotation);
    let n = spec_negated(spec_sine(rotation));
    let r = spec_rotation_x(rotation);
    let sc = spec_scaling(scale.0, scale.1, scale.2);
    let t = spec_translation(shift.0, shift.1, shift.2);
    let all = spec_moved_scaled_rotation_x(rotation, scale, shift);
    lemma_view_square(r);
    lemma_view_square(sc);
    lemma_view_square(t);
    lemma_view_square(all);
    let turned = spec_apply(r@, p);
    assert(turned.x == p.x);
    assert(turned.y == spec_plus(spec_times(c, p.y), spec_times(n, p.z)));
    assert(turned.z == spec_plus(spec_times(s, p.y), spec_times(c, p.z)));
    assert(turned.w == spec_one::<T>());
    let sized = spec_apply(sc@, turned);
    assert(sized.x == spec_times(scale.0, turned.x));
    assert(sized.y == spec_times(scale.1, turned.y));
    assert(sized.z == spec_times(scale.2, turned.z));
    assert(sized.w == spec_one::<T>());
    let moved = spec_apply(t@, sized);
    assert(moved.x == spec_plus(sized.x, shift.0));
    assert(moved.y == spec_plus(sized.y, shift.1));
    assert(moved.z == spec_plus(sized.z, shift.2));
    assert(moved.w == spec_one::<T>());
    let direct = spec_apply(all@, p);
    assert(direct.x == spec_plus(spec_times(scale.0, p.x), shift.0));
    assert(direct.y == spec_plus(
        spec_plus(spec_times(spec_times(scale.1, c), p.y), spec_times(spec_times(scale.1, n), p.z)),
        shift.1,
    ));
    assert(direct.z == spec_plus(
        spec_plus(spec_times(spec_times(scale.2, s), p.y), spec_times(spec_times(scale.2, c), p.z)),
        shift.2,
    ));
    assert(direct.w == spec_one::<T>());
}

/// A factor goes into a sum of two products.
proof fn lemma_factor_into_products<T: Scalar>(k: T, a: T, x: T, b: T, y: T)
    requires
        products_regroup::<T>(),
    ensures
        spec_times(k, spec_plus(spec_times(a, x), spec_times(b, y))) == spec_plus(
            spec_times(spec_times(k, a), x),
            spec_times(spec_times(k, b), y),
        ),
{
    reveal(products_regroup);
    assert(spec_times(spec_times(k, a), x) == spec_times(k, spec_times(a, x)));
    assert(spec_times(spec_times(k, b), y) == spec_times(k, spec_times(b, y)));
}

/// A chain of a rotation about the x axis, a scaling and a translation,
/// begun at the identity, carries a point to where the three carry it one
/// after the other: first the rotation, then the scaling, then the
/// translation.
///
/// `rotated`, `scaled` and `shifted` are what the three steps of the chain
/// give. The law holds where zero and one behave as such and products may
/// be regrouped.
pub proof fn lemma_chain_applies_in_order<T: Scalar>(
    rotation: T,
    scale: (T, T, T),
    shift: (T, T, T),
    rotated: Matrix<T, 4>,
    scaled: Matrix<T, 4>,
    shifted: Matrix<T, 4>,
    p: Tuple<T>,
)
    requires
        zero_and_one_behave::<T>(),
        products_regroup::<T>(),
        p.w == spec_one::<T>(),
        rotated@ == spec_product(spec_rotation_x(rotation)@, spec_identity::<T>()@),
        scaled@ == spec_product(spec_scaling(scale.0, scale.1, scale.2)@, rotated@),
        shifted@ == spec_product(spec_translation(shift.0, shift.1, shift.2)@, scaled@),
    ensures
        spec_apply(shifted@, p) == spec_apply(
            spec_translation(shift.0, shift.1, shift.2)@,
            spec_apply(
                spec_scaling(scale.0, scale.1, scale.2)@,
                spec_apply(spec_rotation_x(rotation)@, p),
            ),
        ),
{
    lemma_rotation_then_identity(rotation, rotated);
    lemma_scaling_then_rotation(rotation, scale, scaled);
    lemma_translation_then_scaled_rotation(rotation, scale, shift, shifted);
    lemma_both_ways_written_out(rotation, scale, shift, p);
    lemma_factor_into_products(
        scale.1,
        spec_cosine(rotation),
        p.y,
        spec_negated(spec_sine(rotation)),
        p.z,
    );
    lemma_factor_into_products(
        scale.2,
        spec_sine(rotation),
        p.y,
        spec_cosine(rotation),
        p.z,
    );
}

} // verus!
