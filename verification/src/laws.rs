//! What holds of the operations together.
//!
//! Each law is a proof about the formulas by which the operations are
//! specified. Laws that need more of the scalar than its operators being
//! functions name what they need: a floating-point type multiplies
//! commutatively, but it does not add associatively, and it has values,
//! the infinities and the NaNs, that 0 does not absorb.
use crate::matrix::Mat4x4;
use crate::scalar::{minus, negated, one, plus, times, zero, Scalar};
use crate::vector::{Vec3, Vec4};
use vstd::prelude::*;

verus! {

/// Multiplication of scalars does not depend on the order of its operands.
pub open spec fn times_commutes<T: Scalar>() -> bool {
    forall|x: T, y: T| #[trigger] times(x, y) == times(y, x)
}

/// Exchanging the operands of a subtraction negates the difference.
pub open spec fn minus_antisymmetric<T: Scalar>() -> bool {
    forall|x: T, y: T| #[trigger] minus(x, y) == negated(minus(y, x))
}

/// `x` meets 0 and 1 as a number does: 1 times `x` is `x`, 0 times `x` is 0,
/// and adding 0 on either side leaves `x`.
pub open spec fn regular<T: Scalar>(x: T) -> bool {
    &&& times(one::<T>(), x) == x
    &&& times(zero::<T>(), x) == zero::<T>()
    &&& plus(x, zero::<T>()) == x
    &&& plus(zero::<T>(), x) == x
}

/// `value` reads the scalars as integers: the operators of `T` are those of
/// the integers, 0 reads as 0, and different scalars read differently. A
/// scalar that rounds, as a floating-point type does, cannot be read so.
pub open spec fn reads_as_integers<T: Scalar>(value: spec_fn(T) -> int) -> bool {
    &&& forall|x: T, y: T| value(#[trigger] plus(x, y)) == value(x) + value(y)
    &&& forall|x: T, y: T| value(#[trigger] minus(x, y)) == value(x) - value(y)
    &&& forall|x: T, y: T| value(#[trigger] times(x, y)) == value(x) * value(y)
    &&& forall|x: T| value(#[trigger] negated(x)) == -value(x)
    &&& value(zero::<T>()) == 0
    &&& forall|x: T, y: T| #[trigger] value(x) == #[trigger] value(y) ==> x == y
}

/// The vector with 1 in place `i` and 0 in the other three.
pub open spec fn unit4<T: Scalar>(i: int) -> Vec4<T> {
    Vec4(
        [
            if i == 0 {
                one::<T>()
            } else {
                zero::<T>()
            },
            if i == 1 {
                one::<T>()
            } else {
                zero::<T>()
            },
            if i == 2 {
                one::<T>()
            } else {
                zero::<T>()
            },
            if i == 3 {
                one::<T>()
            } else {
                zero::<T>()
            },
        ],
    )
}

/// Row `i` and column `i` of the identity are both the unit vector of place
/// `i`.
pub proof fn lemma_identity_rows_and_columns<T: Scalar>(i: int)
    requires
        0 <= i <= 3,
    ensures
        Mat4x4::<T>::identity_spec().row_spec(i) == unit4::<T>(i),
        Mat4x4::<T>::identity_spec().col_spec(i) == unit4::<T>(i),
{
    let m = Mat4x4::<T>::identity_spec();
    assert(m.row_spec(i).0 =~= unit4::<T>(i).0);
    assert(m.col_spec(i).0 =~= unit4::<T>(i).0);
}

/// The identity is its own transpose.
pub proof fn lemma_identity_transposed<T: Scalar>()
    ensures
        Mat4x4::<T>::identity_spec().transposed_spec() == Mat4x4::<T>::identity_spec(),
{
    let m = Mat4x4::<T>::identity_spec();
    assert(m.transposed_spec().0 =~= m.0);
}

/// Transposing twice gives the matrix back.
pub proof fn lemma_transposed_twice<T>(m: Mat4x4<T>)
    ensures
        m.transposed_spec().transposed_spec() == m,
{
    assert(m.transposed_spec().transposed_spec().0 =~= m.0);
}

/// The rows of the transpose are the columns of the matrix, and its columns
/// are the rows.
pub proof fn lemma_transposed_rows_and_columns<T>(m: Mat4x4<T>, i: int)
    requires
        0 <= i <= 3,
    ensures
        m.transposed_spec().row_spec(i) == m.col_spec(i),
        m.transposed_spec().col_spec(i) == m.row_spec(i),
{
    assert(m.transposed_spec().row_spec(i).0 =~= m.col_spec(i).0);
    assert(m.transposed_spec().col_spec(i).0 =~= m.row_spec(i).0);
}

/// The identity times a column vector is that vector, if each component of
/// the vector, and 0 itself, is regular.
pub proof fn lemma_identity_times_column<T: Scalar>(v: Vec4<T>)
    requires
        regular(zero::<T>()),
        forall|i: int| 0 <= i < 4 ==> regular(#[trigger] v.0[i]),
    ensures
        Mat4x4::<T>::identity_spec().times_column(v) == v,
{
    let m = Mat4x4::<T>::identity_spec();
    assert(regular(v.0[0]) && regular(v.0[1]) && regular(v.0[2]) && regular(v.0[3]));
    assert(m.times_column(v).0 =~= v.0);
}

/// The cross product changes its sign when its operands are exchanged, if
/// multiplication commutes and subtraction is antisymmetric.
pub proof fn lemma_cross_anticommutes<T: Scalar>(a: Vec3<T>, b: Vec3<T>)
    requires
        times_commutes::<T>(),
        minus_antisymmetric::<T>(),
    ensures
        Vec3::cross_spec(a, b) == Vec3::cross_spec(b, a).opposite(),
{
    assert(Vec3::cross_spec(a, b).0 =~= Vec3::cross_spec(b, a).opposite().0);
}

/// The cross product is orthogonal to both of its operands, for a scalar
/// that calculates as the integers do. With a scalar that rounds, the two dot
/// products are only close to 0.
pub proof fn lemma_cross_orthogonal<T: Scalar>(a: Vec3<T>, b: Vec3<T>, value: spec_fn(T) -> int)
    requires
        reads_as_integers(value),
    ensures
        Vec3::dot_spec(Vec3::cross_spec(a, b), a) == zero::<T>(),
        Vec3::dot_spec(Vec3::cross_spec(a, b), b) == zero::<T>(),
{
    let c = Vec3::cross_spec(a, b);
    let (a0, a1, a2) = (value(a.0[0]), value(a.0[1]), value(a.0[2]));
    let (b0, b1, b2) = (value(b.0[0]), value(b.0[1]), value(b.0[2]));
    let (c0, c1, c2) = (value(c.0[0]), value(c.0[1]), value(c.0[2]));
    assert(c0 == a1 * b2 - a2 * b1);
    assert(c1 == -(a0 * b2 - a2 * b0));
    assert(c2 == a0 * b1 - a1 * b0);
    assert(value(Vec3::dot_spec(c, a)) == c0 * a0 + c1 * a1 + c2 * a2);
    assert(value(Vec3::dot_spec(c, b)) == c0 * b0 + c1 * b1 + c2 * b2);
    assert((a1 * b2 - a2 * b1) * a0 + (-(a0 * b2 - a2 * b0)) * a1 + (a0 * b1 - a1 * b0) * a2 == 0)
        by (nonlinear_arith);
    assert((a1 * b2 - a2 * b1) * b0 + (-(a0 * b2 - a2 * b0)) * b1 + (a0 * b1 - a1 * b0) * b2 == 0)
        by (nonlinear_arith);
}

/// The dot product does not depend on the order of its operands, if
/// multiplication commutes.
pub proof fn lemma_dot_commutes<T: Scalar>(a: Vec4<T>, b: Vec4<T>)
    requires
        times_commutes::<T>(),
    ensures
        Vec4::dot_spec(a, b) == Vec4::dot_spec(b, a),
{
}

/// The transpose of a product is the product of the transposes in the other
/// order, if multiplication of scalars commutes.
pub proof fn lemma_product_transposed<T: Scalar>(a: Mat4x4<T>, b: Mat4x4<T>)
    requires
        times_commutes::<T>(),
    ensures
        a.product(b).transposed_spec() == b.transposed_spec().product(a.transposed_spec()),
{
    let left = a.product(b).transposed_spec();
    let right = b.transposed_spec().product(a.transposed_spec());
    assert forall|r: int, c: int| 0 <= r < 4 && 0 <= c < 4 implies left.at(r, c) == right.at(
        r,
        c,
    ) by {
        lemma_transposed_rows_and_columns(a, c);
        lemma_transposed_rows_and_columns(b, r);
        lemma_dot_commutes(a.row_spec(c), b.col_spec(r));
        assert(left.at(r, c) == a.product(b).at(c, r));
        assert(a.product(b).at(c, r) == Vec4::dot_spec(a.row_spec(c), b.col_spec(r)));
        assert(right.at(r, c) == Vec4::dot_spec(
            b.transposed_spec().row_spec(r),
            a.transposed_spec().col_spec(c),
        ));
    }
    Mat4x4::lemma_equal_by_elements(left, right);
}

} // verus!
