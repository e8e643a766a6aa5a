//! `*`: a vector by a scalar, a matrix by a column vector, a row vector by a matrix,
//! and a matrix by a matrix.
use crate::matrix::Mat4x4;
use crate::scalar::{deterministic, total, Scalar};
use crate::vector::{Vec2, Vec3, Vec4};
use core::ops::Mul;
use vstd::prelude::*;
use vstd::std_specs::ops::MulSpecImpl;

verus! {

/// A vector of four components with each component multiplied by `k`.
fn vec4_scaled<T: Scalar>(a: &Vec4<T>, k: T) -> (r: Vec4<T>)
    requires
        total::<T>(),
    ensures
        deterministic::<T>() ==> r == a.scaled(k),
{
    Vec4([a.0[0] * k, a.0[1] * k, a.0[2] * k, a.0[3] * k])
}

/// `v * k`: each of the four components of `v` multiplied by the scalar `k`.
impl<T: Scalar> Mul<T> for Vec4<T> {
    type Output = Vec4<T>;

    fn mul(self, other: T) -> (r: Vec4<T>) {
        vec4_scaled(&self, other)
    }
}

impl<T: Scalar> MulSpecImpl<T> for Vec4<T> {
    open spec fn obeys_mul_spec() -> bool {
        deterministic::<T>()
    }

    open spec fn mul_req(self, other: T) -> bool {
        total::<T>()
    }

    open spec fn mul_spec(self, other: T) -> Vec4<T> {
        self.scaled(other)
    }
}

/// `&v * k`: the same, with the left operand borrowed.
impl<'b, T: Scalar> Mul<T> for &'b Vec4<T> {
    type Output = Vec4<T>;

    fn mul(self, other: T) -> (r: Vec4<T>) {
        vec4_scaled(self, other)
    }
}

impl<'b, T: Scalar> MulSpecImpl<T> for &'b Vec4<T> {
    open spec fn obeys_mul_spec() -> bool {
        deterministic::<T>()
    }

    open spec fn mul_req(self, other: T) -> bool {
        total::<T>()
    }

    open spec fn mul_spec(self, other: T) -> Vec4<T> {
        (*self).scaled(other)
    }
}

/// `v * &k`: the same, with the right operand borrowed.
impl<'a, T: Scalar> Mul<&'a T> for Vec4<T> {
    type Output = Vec4<T>;

    fn mul(self, other: &'a T) -> (r: Vec4<T>) {
        vec4_scaled(&self, *other)
    }
}

impl<'a, T: Scalar> MulSpecImpl<&'a T> for Vec4<T> {
    open spec fn obeys_mul_spec() -> bool {
        deterministic::<T>()
    }

    open spec fn mul_req(self, other: &'a T) -> bool {
        total::<T>()
    }

    open spec fn mul_spec(self, other: &'a T) -> Vec4<T> {
        self.scaled(*other)
    }
}

/// `&v * &k`: the same, with both operands borrowed.
impl<'a, 'b, T: Scalar> Mul<&'a T> for &'b Vec4<T> {
    type Output = Vec4<T>;

    fn mul(self, other: &'a T) -> (r: Vec4<T>) {
        vec4_scaled(self, *other)
    }
}

impl<'a, 'b, T: Scalar> MulSpecImpl<&'a T> for &'b Vec4<T> {
    open spec fn obeys_mul_spec() -> bool {
        deterministic::<T>()
    }

    open spec fn mul_req(self, other: &'a T) -> bool {
        total::<T>()
    }

    open spec fn mul_spec(self, other: &'a T) -> Vec4<T> {
        (*self).scaled(*other)
    }
}

/// A vector of three components with each component multiplied by `k`.
fn vec3_scaled<T: Scalar>(a: &Vec3<T>, k: T) -> (r: Vec3<T>)
    requires
        total::<T>(),
    ensures
        deterministic::<T>() ==> r == a.scaled(k),
{
    Vec3([a.0[0] * k, a.0[1] * k, a.0[2] * k])
}

/// `v * k`: each of the three components of `v` multiplied by the scalar `k`.
impl<T: Scalar> Mul<T> for Vec3<T> {
    type Output = Vec3<T>;

    fn mul(self, other: T) -> (r: Vec3<T>) {
        vec3_scaled(&self, other)
    }
}

impl<T: Scalar> MulSpecImpl<T> for Vec3<T> {
    open spec fn obeys_mul_spec() -> bool {
        deterministic::<T>()
    }

    open spec fn mul_req(self, other: T) -> bool {
        total::<T>()
    }

    open spec fn mul_spec(self, other: T) -> Vec3<T> {
        self.scaled(other)
    }
}

/// `&v * k`: the same, with the left operand borrowed.
impl<'b, T: Scalar> Mul<T> for &'b Vec3<T> {
    type Output = Vec3<T>;

    fn mul(self, other: T) -> (r: Vec3<T>) {
        vec3_scaled(self, other)
    }
}

impl<'b, T: Scalar> MulSpecImpl<T> for &'b Vec3<T> {
    open spec fn obeys_mul_spec() -> bool {
        deterministic::<T>()
    }

    open spec fn mul_req(self, other: T) -> bool {
        total::<T>()
    }

    open spec fn mul_spec(self, other: T) -> Vec3<T> {
        (*self).scaled(other)
    }
}

/// `v * &k`: the same, with the right operand borrowed.
impl<'a, T: Scalar> Mul<&'a T> for Vec3<T> {
    type Output = Vec3<T>;

    fn mul(self, other: &'a T) -> (r: Vec3<T>) {
        vec3_scaled(&self, *other)
    }
}

impl<'a, T: Scalar> MulSpecImpl<&'a T> for Vec3<T> {
    open spec fn obeys_mul_spec() -> bool {
        deterministic::<T>()
    }

    open spec fn mul_req(self, other: &'a T) -> bool {
        total::<T>()
    }

    open spec fn mul_spec(self, other: &'a T) -> Vec3<T> {
        self.scaled(*other)
    }
}

/// `&v * &k`: the same, with both operands borrowed.
impl<'a, 'b, T: Scalar> Mul<&'a T> for &'b Vec3<T> {
    type Output = Vec3<T>;

    fn mul(self, other: &'a T) -> (r: Vec3<T>) {
        vec3_scaled(self, *other)
    }
}

impl<'a, 'b, T: Scalar> MulSpecImpl<&'a T> for &'b Vec3<T> {
    open spec fn obeys_mul_spec() -> bool {
        deterministic::<T>()
    }

    open spec fn mul_req(self, other: &'a T) -> bool {
        total::<T>()
    }

    open spec fn mul_spec(self, other: &'a T) -> Vec3<T> {
        (*self).scaled(*other)
    }
}

/// A vector of two components with each component multiplied by `k`.
fn vec2_scaled<T: Scalar>(a: &Vec2<T>, k: T) -> (r: Vec2<T>)
    requires
        total::<T>(),
    ensures
        deterministic::<T>() ==> r == a.scaled(k),
{
    Vec2([a.0[0] * k, a.0[1] * k])
}

/// `v * k`: each of the two components of `v` multiplied by the scalar `k`.
impl<T: Scalar> Mul<T> for Vec2<T> {
    type Output = Vec2<T>;

    fn mul(self, other: T) -> (r: Vec2<T>) {
        vec2_scaled(&self, other)
    }
}

impl<T: Scalar> MulSpecImpl<T> for Vec2<T> {
    open spec fn obeys_mul_spec() -> bool {
        deterministic::<T>()
    }

    open spec fn mul_req(self, other: T) -> bool {
        total::<T>()
    }

    open spec fn mul_spec(self, other: T) -> Vec2<T> {
        self.scaled(other)
    }
}

/// `&v * k`: the same, with the left operand borrowed.
impl<'b, T: Scalar> Mul<T> for &'b Vec2<T> {
    type Output = Vec2<T>;

    fn mul(self, other: T) -> (r: Vec2<T>) {
        vec2_scaled(self, other)
    }
}

impl<'b, T: Scalar> MulSpecImpl<T> for &'b Vec2<T> {
    open spec fn obeys_mul_spec() -> bool {
        deterministic::<T>()
    }

    open spec fn mul_req(self, other: T) -> bool {
        total::<T>()
    }

    open spec fn mul_spec(self, other: T) -> Vec2<T> {
        (*self).scaled(other)
    }
}

/// `v * &k`: the same, with the right operand borrowed.
impl<'a, T: Scalar> Mul<&'a T> for Vec2<T> {
    type Output = Vec2<T>;

    fn mul(self, other: &'a T) -> (r: Vec2<T>) {
        vec2_scaled(&self, *other)
    }
}

impl<'a, T: Scalar> MulSpecImpl<&'a T> for Vec2<T> {
    open spec fn obeys_mul_spec() -> bool {
        deterministic::<T>()
    }

    open spec fn mul_req(self, other: &'a T) -> bool {
        total::<T>()
    }

    open spec fn mul_spec(self, other: &'a T) -> Vec2<T> {
        self.scaled(*other)
    }
}

/// `&v * &k`: the same, with both operands borrowed.
impl<'a, 'b, T: Scalar> Mul<&'a T> for &'b Vec2<T> {
    type Output = Vec2<T>;

    fn mul(self, other: &'a T) -> (r: Vec2<T>) {
        vec2_scaled(self, *other)
    }
}

impl<'a, 'b, T: Scalar> MulSpecImpl<&'a T> for &'b Vec2<T> {
    open spec fn obeys_mul_spec() -> bool {
        deterministic::<T>()
    }

    open spec fn mul_req(self, other: &'a T) -> bool {
        total::<T>()
    }

    open spec fn mul_spec(self, other: &'a T) -> Vec2<T> {
        (*self).scaled(*other)
    }
}

/// The matrix `m` times the column vector `v`.
fn mat_times_column<T: Scalar>(m: &Mat4x4<T>, v: &Vec4<T>) -> (r: Vec4<T>)
    requires
        total::<T>(),
    ensures
        deterministic::<T>() ==> r == m.times_column(*v),
{
    Vec4(
        [
            Vec4::dot(&m.row(0), v),
            Vec4::dot(&m.row(1), v),
            Vec4::dot(&m.row(2), v),
            Vec4::dot(&m.row(3), v),
        ],
    )
}

/// `m * v`: the matrix times the column vector `v`. Component `i` of the result is
/// the dot product of row `i` of `m` and `v`.
impl<T: Scalar> Mul<Vec4<T>> for Mat4x4<T> {
    type Output = Vec4<T>;

    fn mul(self, other: Vec4<T>) -> (r: Vec4<T>) {
        mat_times_column(&self, &other)
    }
}

impl<T: Scalar> MulSpecImpl<Vec4<T>> for Mat4x4<T> {
    open spec fn obeys_mul_spec() -> bool {
        deterministic::<T>()
    }

    open spec fn mul_req(self, other: Vec4<T>) -> bool {
        total::<T>()
    }

    open spec fn mul_spec(self, other: Vec4<T>) -> Vec4<T> {
        self.times_column(other)
    }
}

/// `&m * v`: the same, with the left operand borrowed.
impl<'b, T: Scalar> Mul<Vec4<T>> for &'b Mat4x4<T> {
    type Output = Vec4<T>;

    fn mul(self, other: Vec4<T>) -> (r: Vec4<T>) {
        mat_times_column(self, &other)
    }
}

impl<'b, T: Scalar> MulSpecImpl<Vec4<T>> for &'b Mat4x4<T> {
    open spec fn obeys_mul_spec() -> bool {
        deterministic::<T>()
    }

    open spec fn mul_req(self, other: Vec4<T>) -> bool {
        total::<T>()
    }

    open spec fn mul_spec(self, other: Vec4<T>) -> Vec4<T> {
        (*self).times_column(other)
    }
}

/// `m * &v`: the same, with the right operand borrowed.
impl<'a, T: Scalar> Mul<&'a Vec4<T>> for Mat4x4<T> {
    type Output = Vec4<T>;

    fn mul(self, other: &'a Vec4<T>) -> (r: Vec4<T>) {
        mat_times_column(&self, other)
    }
}

impl<'a, T: Scalar> MulSpecImpl<&'a Vec4<T>> for Mat4x4<T> {
    open spec fn obeys_mul_spec() -> bool {
        deterministic::<T>()
    }

    open spec fn mul_req(self, other: &'a Vec4<T>) -> bool {
        total::<T>()
    }

    open spec fn mul_spec(self, other: &'a Vec4<T>) -> Vec4<T> {
        self.times_column(*other)
    }
}

/// `&m * &v`: the same, with both operands borrowed.
impl<'a, 'b, T: Scalar> Mul<&'a Vec4<T>> for &'b Mat4x4<T> {
    type Output = Vec4<T>;

    fn mul(self, other: &'a Vec4<T>) -> (r: Vec4<T>) {
        mat_times_column(self, other)
    }
}

impl<'a, 'b, T: Scalar> MulSpecImpl<&'a Vec4<T>> for &'b Mat4x4<T> {
    open spec fn obeys_mul_spec() -> bool {
        deterministic::<T>()
    }

    open spec fn mul_req(self, other: &'a Vec4<T>) -> bool {
        total::<T>()
    }

    open spec fn mul_spec(self, other: &'a Vec4<T>) -> Vec4<T> {
        (*self).times_column(*other)
    }
}

/// The row vector `v` times the matrix `m`.
fn row_times_mat<T: Scalar>(v: &Vec4<T>, m: &Mat4x4<T>) -> (r: Vec4<T>)
    requires
        total::<T>(),
    ensures
        deterministic::<T>() ==> r == Mat4x4::row_times(*v, *m),
{
    Vec4(
        [
            Vec4::dot(v, &m.col(0)),
            Vec4::dot(v, &m.col(1)),
            Vec4::dot(v, &m.col(2)),
            Vec4::dot(v, &m.col(3)),
        ],
    )
}

/// `v * m`: the row vector `v` times the matrix. Component `i` of the result is
/// the dot product of `v` and column `i` of `m`.
impl<T: Scalar> Mul<Mat4x4<T>> for Vec4<T> {
    type Output = Vec4<T>;

    fn mul(self, other: Mat4x4<T>) -> (r: Vec4<T>) {
        row_times_mat(&self, &other)
    }
}

impl<T: Scalar> MulSpecImpl<Mat4x4<T>> for Vec4<T> {
    open spec fn obeys_mul_spec() -> bool {
        deterministic::<T>()
    }

    open spec fn mul_req(self, other: Mat4x4<T>) -> bool {
        total::<T>()
    }

    open spec fn mul_spec(self, other: Mat4x4<T>) -> Vec4<T> {
        Mat4x4::row_times(self, other)
    }
}

/// `&v * m`: the same, with the left operand borrowed.
impl<'b, T: Scalar> Mul<Mat4x4<T>> for &'b Vec4<T> {
    type Output = Vec4<T>;

    fn mul(self, other: Mat4x4<T>) -> (r: Vec4<T>) {
        row_times_mat(self, &other)
    }
}

impl<'b, T: Scalar> MulSpecImpl<Mat4x4<T>> for &'b Vec4<T> {
    open spec fn obeys_mul_spec() -> bool {
        deterministic::<T>()
    }

    open spec fn mul_req(self, other: Mat4x4<T>) -> bool {
        total::<T>()
    }

    open spec fn mul_spec(self, other: Mat4x4<T>) -> Vec4<T> {
        Mat4x4::row_times(*self, other)
    }
}

/// `v * &m`: the same, with the right operand borrowed.
impl<'a, T: Scalar> Mul<&'a Mat4x4<T>> for Vec4<T> {
    type Output = Vec4<T>;

    fn mul(self, other: &'a Mat4x4<T>) -> (r: Vec4<T>) {
        row_times_mat(&self, other)
    }
}

impl<'a, T: Scalar> MulSpecImpl<&'a Mat4x4<T>> for Vec4<T> {
    open spec fn obeys_mul_spec() -> bool {
        deterministic::<T>()
    }

    open spec fn mul_req(self, other: &'a Mat4x4<T>) -> bool {
        total::<T>()
    }

    open spec fn mul_spec(self, other: &'a Mat4x4<T>) -> Vec4<T> {
        Mat4x4::row_times(self, *other)
    }
}

/// `&v * &m`: the same, with both operands borrowed.
impl<'a, 'b, T: Scalar> Mul<&'a Mat4x4<T>> for &'b Vec4<T> {
    type Output = Vec4<T>;

    fn mul(self, other: &'a Mat4x4<T>) -> (r: Vec4<T>) {
        row_times_mat(self, other)
    }
}

impl<'a, 'b, T: Scalar> MulSpecImpl<&'a Mat4x4<T>> for &'b Vec4<T> {
    open spec fn obeys_mul_spec() -> bool {
        deterministic::<T>()
    }

    open spec fn mul_req(self, other: &'a Mat4x4<T>) -> bool {
        total::<T>()
    }

    open spec fn mul_spec(self, other: &'a Mat4x4<T>) -> Vec4<T> {
        Mat4x4::row_times(*self, *other)
    }
}

/// The product of two matrices: element `4 * y + x` is the dot product of row
/// `y` of `a` and column `x` of `b`.
fn mat_product<T: Scalar>(a: &Mat4x4<T>, b: &Mat4x4<T>) -> (r: Mat4x4<T>)
    requires
        total::<T>(),
    ensures
        deterministic::<T>() ==> r == a.product(*b),
{
    let mut out: [T; 16] = a.0;
    let mut i: usize = 0;
    while i < 16
        invariant
            i <= 16,
            total::<T>(),
            deterministic::<T>() ==> forall|k: int|
                0 <= k < i ==> out[k] == Vec4::dot_spec(a.row_spec(k / 4), b.col_spec(k % 4)),
        decreases 16 - i,
    {
        let (y, x) = (i / 4, i % 4);
        out[i] = Vec4::dot(&a.row(y as i32), &b.col(x as i32));
        i += 1;
    }
    let r = Mat4x4(out);
    proof {
        if deterministic::<T>() {
            assert forall|y: int, x: int| 0 <= y < 4 && 0 <= x < 4 implies r.at(y, x) == a.product(
                *b,
            ).at(y, x) by {
                let k = 4 * y + x;
                assert(k / 4 == y && k % 4 == x);
                assert(out[k] == Vec4::dot_spec(a.row_spec(k / 4), b.col_spec(k % 4)));
            }
            Mat4x4::lemma_equal_by_elements(r, a.product(*b));
        }
    }
    r
}

/// `a * b`: the matrix product. Its element in row `y` and column `x` is the dot
/// product of row `y` of `a` and column `x` of `b`.
impl<T: Scalar> Mul<Mat4x4<T>> for Mat4x4<T> {
    type Output = Mat4x4<T>;

    fn mul(self, other: Mat4x4<T>) -> (r: Mat4x4<T>) {
        mat_product(&self, &other)
    }
}

impl<T: Scalar> MulSpecImpl<Mat4x4<T>> for Mat4x4<T> {
    open spec fn obeys_mul_spec() -> bool {
        deterministic::<T>()
    }

    open spec fn mul_req(self, other: Mat4x4<T>) -> bool {
        total::<T>()
    }

    open spec fn mul_spec(self, other: Mat4x4<T>) -> Mat4x4<T> {
        self.product(other)
    }
}

/// `&a * b`: the same, with the left operand borrowed.
impl<'b, T: Scalar> Mul<Mat4x4<T>> for &'b Mat4x4<T> {
    type Output = Mat4x4<T>;

    fn mul(self, other: Mat4x4<T>) -> (r: Mat4x4<T>) {
        mat_product(self, &other)
    }
}

impl<'b, T: Scalar> MulSpecImpl<Mat4x4<T>> for &'b Mat4x4<T> {
    open spec fn obeys_mul_spec() -> bool {
        deterministic::<T>()
    }

    open spec fn mul_req(self, other: Mat4x4<T>) -> bool {
        total::<T>()
    }

    open spec fn mul_spec(self, other: Mat4x4<T>) -> Mat4x4<T> {
        (*self).product(other)
    }
}

/// `a * &b`: the same, with the right operand borrowed.
impl<'a, T: Scalar> Mul<&'a Mat4x4<T>> for Mat4x4<T> {
    type Output = Mat4x4<T>;

    fn mul(self, other: &'a Mat4x4<T>) -> (r: Mat4x4<T>) {
        mat_product(&self, other)
    }
}

impl<'a, T: Scalar> MulSpecImpl<&'a Mat4x4<T>> for Mat4x4<T> {
    open spec fn obeys_mul_spec() -> bool {
        deterministic::<T>()
    }

    open spec fn mul_req(self, other: &'a Mat4x4<T>) -> bool {
        total::<T>()
    }

    open spec fn mul_spec(self, other: &'a Mat4x4<T>) -> Mat4x4<T> {
        self.product(*other)
    }
}

/// `&a * &b`: the same, with both operands borrowed.
impl<'a, 'b, T: Scalar> Mul<&'a Mat4x4<T>> for &'b Mat4x4<T> {
    type Output = Mat4x4<T>;

    fn mul(self, other: &'a Mat4x4<T>) -> (r: Mat4x4<T>) {
        mat_product(self, other)
    }
}

impl<'a, 'b, T: Scalar> MulSpecImpl<&'a Mat4x4<T>> for &'b Mat4x4<T> {
    open spec fn obeys_mul_spec() -> bool {
        deterministic::<T>()
    }

    open spec fn mul_req(self, other: &'a Mat4x4<T>) -> bool {
        total::<T>()
    }

    open spec fn mul_spec(self, other: &'a Mat4x4<T>) -> Mat4x4<T> {
        (*self).product(*other)
    }
}

} // verus!
