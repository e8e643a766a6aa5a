//! The 2x2 matrix with its determinant, and the 4x4 matrix with its
//! constructors and accessors.
//!
//! A 4x4 matrix is stored row by row. Both vector conventions are served:
//! `row` and `col` hand out either, and the products in `ops` multiply a
//! matrix by a column vector on its right or by a row vector on its left.
use crate::scalar::{
    constant, deterministic, minus, negated, one, over, plus, times, total, two, zero, Scalar,
};
use crate::vector::{Vec3, Vec4};
use core::ops::Neg;
use vstd::pervasive::unreached;
use vstd::prelude::*;
use vstd::std_specs::iter::IteratorSpec;

verus! {

/// A 2x2 matrix in row-major order: `[m00, m01, m10, m11]`.
#[derive(PartialEq, Debug)]
pub struct Mat2x2<T>(pub [T; 4]);

/// A 4x4 matrix in row-major order: row `i` holds the elements `4 * i` to
/// `4 * i + 3`.
#[derive(PartialEq, Debug)]
pub struct Mat4x4<T>(pub [T; 16]);

impl<T> View for Mat2x2<T> {
    type V = Seq<T>;

    /// The four elements, row by row.
    open spec fn view(&self) -> Seq<T> {
        self.0@
    }
}

impl<T> View for Mat4x4<T> {
    type V = Seq<T>;

    /// The sixteen elements, row by row.
    open spec fn view(&self) -> Seq<T> {
        self.0@
    }
}

impl<T: Copy> Clone for Mat2x2<T> {
    fn clone(&self) -> (r: Self)
        ensures
            r == *self,
    {
        *self
    }
}

impl<T: Copy> Copy for Mat2x2<T> {

}

impl<T: Copy> Clone for Mat4x4<T> {
    fn clone(&self) -> (r: Self)
        ensures
            r == *self,
    {
        Mat4x4(self.0)
    }
}

impl<T: Scalar> Mat2x2<T> {
    /// The determinant: the product of the main diagonal less the product of
    /// the other one.
    pub open spec fn det_spec(self) -> T {
        minus(times(self.0[0], self.0[3]), times(self.0[1], self.0[2]))
    }

    /// The determinant of the matrix.
    pub fn det(&self) -> (r: T)
        requires
            total::<T>(),
        ensures
            deterministic::<T>() ==> r == self.det_spec(),
    {
        self.0[0] * self.0[3] - self.0[1] * self.0[2]
    }
}

impl<T> Mat4x4<T> {
    /// The element in row `row` and column `col`, both counted from 0.
    pub open spec fn at(self, row: int, col: int) -> T {
        self.0[4 * row + col]
    }

    /// The matrix whose element in row `r` and column `c` is `f(r, c)`.
    pub open spec fn tabulate(f: spec_fn(int, int) -> T) -> Mat4x4<T> {
        Mat4x4(
            [
                f(0, 0),
                f(0, 1),
                f(0, 2),
                f(0, 3),
                f(1, 0),
                f(1, 1),
                f(1, 2),
                f(1, 3),
                f(2, 0),
                f(2, 1),
                f(2, 2),
                f(2, 3),
                f(3, 0),
                f(3, 1),
                f(3, 2),
                f(3, 3),
            ],
        )
    }

    /// Row `i` as a vector.
    pub open spec fn row_spec(self, i: int) -> Vec4<T> {
        Vec4([self.at(i, 0), self.at(i, 1), self.at(i, 2), self.at(i, 3)])
    }

    /// Column `i` as a vector.
    pub open spec fn col_spec(self, i: int) -> Vec4<T> {
        Vec4([self.at(0, i), self.at(1, i), self.at(2, i), self.at(3, i)])
    }

    /// The transpose: rows and columns exchanged.
    pub open spec fn transposed_spec(self) -> Mat4x4<T> {
        Self::tabulate(|r: int, c: int| self.at(c, r))
    }

    /// A tabulated matrix holds `f(r, c)` in row `r` and column `c`.
    pub proof fn lemma_tabulate_at(f: spec_fn(int, int) -> T, r: int, c: int)
        requires
            0 <= r < 4,
            0 <= c < 4,
        ensures
            Self::tabulate(f).at(r, c) == f(r, c),
    {
    }

    /// Two matrices with the same sixteen elements are the same matrix.
    pub proof fn lemma_equal_by_elements(a: Mat4x4<T>, b: Mat4x4<T>)
        requires
            forall|r: int, c: int| 0 <= r < 4 && 0 <= c < 4 ==> a.at(r, c) == b.at(r, c),
        ensures
            a == b,
    {
        assert forall|k: int| 0 <= k < 16 implies a.0[k] == b.0[k] by {
            assert(a.at(k / 4, k % 4) == b.at(k / 4, k % 4));
        }
        assert(a.0 =~= b.0);
    }
}

impl<T: Copy> Mat4x4<T> {
    /// Row `i` of the matrix, for `i` from 0 to 3. No other index is ever
    /// clamped or wrapped: a caller outside the verifier's sight that passes
    /// one gets a panic, not a row.
    pub fn row(&self, i: i32) -> (r: Vec4<T>)
        requires
            0 <= i <= 3,
        ensures
            r == self.row_spec(i as int),
    {
        match i {
            0 => Vec4([self.0[0], self.0[1], self.0[2], self.0[3]]),
            1 => Vec4([self.0[4], self.0[5], self.0[6], self.0[7]]),
            2 => Vec4([self.0[8], self.0[9], self.0[10], self.0[11]]),
            3 => Vec4([self.0[12], self.0[13], self.0[14], self.0[15]]),
            _ => unreached(),
        }
    }

    /// Column `i` of the matrix, for `i` from 0 to 3: every fourth element,
    /// starting at element `i`. As with `row`, another index ends in a panic.
    pub fn col(&self, i: i32) -> (r: Vec4<T>)
        requires
            0 <= i <= 3,
        ensures
            r == self.col_spec(i as int),
    {
        match i {
            0 => Vec4([self.0[0], self.0[4], self.0[8], self.0[12]]),
            1 => Vec4([self.0[1], self.0[5], self.0[9], self.0[13]]),
            2 => Vec4([self.0[2], self.0[6], self.0[10], self.0[14]]),
            3 => Vec4([self.0[3], self.0[7], self.0[11], self.0[15]]),
            _ => unreached(),
        }
    }

    /// The first basis vector: row 0 without its last element.
    pub fn x(&self) -> (r: Vec3<T>)
        ensures
            r == self.row_spec(0).xyz_spec(),
    {
        self.row(0).xyz()
    }

    /// The second basis vector: row 1 without its last element.
    pub fn y(&self) -> (r: Vec3<T>)
        ensures
            r == self.row_spec(1).xyz_spec(),
    {
        self.row(1).xyz()
    }

    /// The third basis vector: row 2 without its last element.
    pub fn z(&self) -> (r: Vec3<T>)
        ensures
            r == self.row_spec(2).xyz_spec(),
    {
        self.row(2).xyz()
    }

    /// The transpose of the matrix: its element in row `r` and column `c` is
    /// the element of `self` in row `c` and column `r`.
    pub fn transposed(&self) -> (t: Mat4x4<T>)
        ensures
            t == self.transposed_spec(),
    {
        let mut out: [T; 16] = self.0;
        let mut i: usize = 0;
        while i < 16
            invariant
                i <= 16,
                forall|k: int| 0 <= k < i ==> out[k] == self.at(k % 4, k / 4),
            decreases 16 - i,
        {
            let (y, x) = (i / 4, i % 4);
            out[i] = self.0[x * 4 + y];
            i += 1;
        }
        let t = Mat4x4(out);
        proof {
            assert forall|r: int, c: int| 0 <= r < 4 && 0 <= c < 4 implies t.at(r, c)
                == self.transposed_spec().at(r, c) by {
                assert(out[4 * r + c] == self.at((4 * r + c) % 4, (4 * r + c) / 4));
            }
            Self::lemma_equal_by_elements(t, self.transposed_spec());
        }
        t
    }
}

impl<T: Scalar> Mat4x4<T> {
    /// The identity: 1 on the diagonal, 0 elsewhere.
    pub open spec fn identity_spec() -> Mat4x4<T> {
        Self::tabulate(
            |r: int, c: int|
                if r == c {
                    one::<T>()
                } else {
                    zero::<T>()
                },
        )
    }

    /// The uniform scale by `s`: `s` on the first three places of the
    /// diagonal, 1 on the last, 0 elsewhere.
    pub open spec fn scale_spec(s: T) -> Mat4x4<T> {
        Self::tabulate(
            |r: int, c: int|
                if r != c {
                    zero::<T>()
                } else if r < 3 {
                    s
                } else {
                    one::<T>()
                },
        )
    }

    /// The rotation about the x axis by the angle of cosine `c` and sine `s`.
    pub open spec fn rot_x_spec(c: T, s: T) -> Mat4x4<T> {
        let o = one::<T>();
        let z = zero::<T>();
        Mat4x4([o, z, z, z, z, c, s, z, z, negated(s), c, z, z, z, z, o])
    }

    /// The rotation about the y axis by the angle of cosine `c` and sine `s`.
    pub open spec fn rot_y_spec(c: T, s: T) -> Mat4x4<T> {
        let o = one::<T>();
        let z = zero::<T>();
        Mat4x4([c, z, negated(s), z, z, o, z, z, s, z, c, z, z, z, z, o])
    }

    /// The rotation about the z axis by the angle of cosine `c` and sine `s`.
    pub open spec fn rot_z_spec(c: T, s: T) -> Mat4x4<T> {
        let o = one::<T>();
        let z = zero::<T>();
        Mat4x4([c, s, z, z, negated(s), c, z, z, z, z, o, z, z, z, z, o])
    }

    /// The translation by `t`: the identity with the components of `t` in the
    /// first three places of the last row.
    pub open spec fn translate_spec(t: Vec3<T>) -> Mat4x4<T> {
        Self::tabulate(
            |r: int, c: int|
                if r == c {
                    one::<T>()
                } else if r == 3 {
                    t.0[c]
                } else {
                    zero::<T>()
                },
        )
    }

    /// The perspective projection for the aspect ratio `aspect`, the tangent
    /// `tan_half_fov` of half the vertical field of view, and the two clip
    /// distances. With `f = 1 / tan_half_fov`, the diagonal holds `f / aspect`,
    /// `f`, `(far + near) / (near - far)` and 0; row 2 holds -1 in column 3,
    /// row 3 holds `2 * (far * near) / (near - far)` in column 2.
    pub open spec fn proj_perspective_spec(
        aspect: T,
        tan_half_fov: T,
        z_near: T,
        z_far: T,
    ) -> Mat4x4<T> {
        let o = zero::<T>();
        let f = over(one::<T>(), tan_half_fov);
        let a = over(f, aspect);
        let c = over(plus(z_far, z_near), minus(z_near, z_far));
        let d = over(times(two::<T>(), times(z_far, z_near)), minus(z_near, z_far));
        Mat4x4([a, o, o, o, o, f, o, o, o, o, c, negated(one::<T>()), o, o, d, o])
    }

    /// Half of an angle of `degrees` degrees, in radians, where `pi` is the
    /// scalar for the half turn: `degrees / 180 * pi * (1 / 2)`.
    pub open spec fn half_angle_spec(degrees: T, pi: T) -> T {
        times(times(over(degrees, constant::<T>(180)), pi), over(one::<T>(), two::<T>()))
    }

    /// The element-wise sum.
    pub open spec fn sum(self, other: Mat4x4<T>) -> Mat4x4<T> {
        Self::tabulate(|r: int, c: int| plus(self.at(r, c), other.at(r, c)))
    }

    /// The element-wise difference.
    pub open spec fn difference(self, other: Mat4x4<T>) -> Mat4x4<T> {
        Self::tabulate(|r: int, c: int| minus(self.at(r, c), other.at(r, c)))
    }

    /// The matrix product: the element in row `r` and column `c` is the dot
    /// product of row `r` of `self` and column `c` of `other`.
    pub open spec fn product(self, other: Mat4x4<T>) -> Mat4x4<T> {
        Self::tabulate(|r: int, c: int| Vec4::dot_spec(self.row_spec(r), other.col_spec(c)))
    }

    /// The matrix times the column vector `v`: component `i` is the dot product
    /// of row `i` and `v`.
    pub open spec fn times_column(self, v: Vec4<T>) -> Vec4<T> {
        Vec4(
            [
                Vec4::dot_spec(self.row_spec(0), v),
                Vec4::dot_spec(self.row_spec(1), v),
                Vec4::dot_spec(self.row_spec(2), v),
                Vec4::dot_spec(self.row_spec(3), v),
            ],
        )
    }

    /// The row vector `v` times the matrix: component `i` is the dot product of
    /// `v` and column `i`.
    pub open spec fn row_times(v: Vec4<T>, m: Mat4x4<T>) -> Vec4<T> {
        Vec4(
            [
                Vec4::dot_spec(v, m.col_spec(0)),
                Vec4::dot_spec(v, m.col_spec(1)),
                Vec4::dot_spec(v, m.col_spec(2)),
                Vec4::dot_spec(v, m.col_spec(3)),
            ],
        )
    }

    /// The identity matrix.
    pub fn identity() -> (m: Mat4x4<T>)
        ensures
            deterministic::<T>() ==> m == Self::identity_spec(),
    {
        let o = T::from(1u8);
        let z = T::from(0u8);
        let m = Mat4x4([o, z, z, z, z, o, z, z, z, z, o, z, z, z, z, o]);
        proof {
            if deterministic::<T>() {
                assert(m.0 =~= Self::identity_spec().0);
            }
        }
        m
    }

    /// The matrix that scales x, y and z by `s` and leaves w as it is.
    pub fn scale(s: T) -> (m: Mat4x4<T>)
        ensures
            deterministic::<T>() ==> m == Self::scale_spec(s),
            m.at(0, 0) == s && m.at(1, 1) == s && m.at(2, 2) == s,
    {
        let o = T::from(1u8);
        let z = T::from(0u8);
        let m = Mat4x4([s, z, z, z, z, s, z, z, z, z, s, z, z, z, z, o]);
        proof {
            if deterministic::<T>() {
                assert(m.0 =~= Self::scale_spec(s).0);
            }
        }
        m
    }

    /// The rotation about the x axis by the angle whose cosine is `c` and
    /// whose sine is `s`.
    pub fn rot_x(c: T, s: T) -> (m: Mat4x4<T>)
        requires
            total::<T>(),
        ensures
            deterministic::<T>() ==> m == Self::rot_x_spec(c, s),
            m.at(1, 1) == c && m.at(1, 2) == s && m.at(2, 2) == c,
    {
        let o = T::from(1u8);
        let z = T::from(0u8);
        Mat4x4([o, z, z, z, z, c, s, z, z, s.neg(), c, z, z, z, z, o])
    }

    /// The rotation about the y axis by the angle whose cosine is `c` and
    /// whose sine is `s`.
    pub fn rot_y(c: T, s: T) -> (m: Mat4x4<T>)
        requires
            total::<T>(),
        ensures
            deterministic::<T>() ==> m == Self::rot_y_spec(c, s),
            m.at(0, 0) == c && m.at(2, 0) == s && m.at(2, 2) == c,
    {
        let o = T::from(1u8);
        let z = T::from(0u8);
        Mat4x4([c, z, s.neg(), z, z, o, z, z, s, z, c, z, z, z, z, o])
    }

    /// The rotation about the z axis by the angle whose cosine is `c` and
    /// whose sine is `s`.
    pub fn rot_z(c: T, s: T) -> (m: Mat4x4<T>)
        requires
            total::<T>(),
        ensures
            deterministic::<T>() ==> m == Self::rot_z_spec(c, s),
            m.at(0, 0) == c && m.at(0, 1) == s && m.at(1, 1) == c,
    {
        let o = T::from(1u8);
        let z = T::from(0u8);
        Mat4x4([c, s, z, z, s.neg(), c, z, z, z, z, o, z, z, z, z, o])
    }

    /// The translation by `t`, for row vectors multiplied on the left.
    pub fn translate(t: &Vec3<T>) -> (m: Mat4x4<T>)
        ensures
            deterministic::<T>() ==> m == Self::translate_spec(*t),
            m.row_spec(3).xyz_spec() == *t,
    {
        let o = T::from(1u8);
        let z = T::from(0u8);
        let m = Mat4x4([o, z, z, z, z, o, z, z, z, z, o, z, t.0[0], t.0[1], t.0[2], o]);
        proof {
            assert(m.row_spec(3).xyz_spec().0 =~= t.0);
            if deterministic::<T>() {
                assert(m.0 =~= Self::translate_spec(*t).0);
            }
        }
        m
    }

    /// Half of the field of view `fov_y_degrees`, converted from degrees to
    /// radians with `pi` for the half turn. Its tangent is what
    /// `proj_perspective` takes.
    pub fn half_angle(fov_y_degrees: T, pi: T) -> (r: T)
        requires
            total::<T>(),
        ensures
            deterministic::<T>() ==> r == Self::half_angle_spec(fov_y_degrees, pi),
    {
        let fov_y = fov_y_degrees / T::from(180u8) * pi;
        fov_y * (T::from(1u8) / T::from(2u8))
    }

    /// The perspective projection for the aspect ratio `aspect`, the tangent
    /// `tan_half_fov` of half the vertical field of view, and the clip
    /// distances `z_near` and `z_far`. Nothing is checked: equal clip
    /// distances or a zero aspect ratio give what the scalar's division gives.
    pub fn proj_perspective(aspect: T, tan_half_fov: T, z_near: T, z_far: T) -> (m: Mat4x4<T>)
        requires
            total::<T>(),
        ensures
            deterministic::<T>() ==> m == Self::proj_perspective_spec(
                aspect,
                tan_half_fov,
                z_near,
                z_far,
            ),
    {
        let o = T::from(0u8);
        let f = T::from(1u8) / tan_half_fov;
        let a = f / aspect;
        let b = f;
        let c = (z_far + z_near) / (z_near - z_far);
        let d = T::from(2u8) * (z_far * z_near) / (z_near - z_far);
        Mat4x4([a, o, o, o, o, b, o, o, o, o, c, T::from(1u8).neg(), o, o, d, o])
    }
}

/// Builds a matrix from the next sixteen items of `i`, in row-major order, and
/// leaves the rest in `i`. The iterator must have sixteen items to give.
pub fn collect_mat<T, I>(i: &mut I) -> (m: Mat4x4<T>) where I: Iterator<Item = T>
    requires
        (*old(i)).obeys_prophetic_iter_laws(),
        (*old(i)).remaining().len() >= 16,
    ensures
        m@ == (*old(i)).remaining().take(16),
        (*final(i)).remaining() == (*old(i)).remaining().skip(16),
{
    let m00 = i.next().unwrap();
    let m01 = i.next().unwrap();
    let m02 = i.next().unwrap();
    let m03 = i.next().unwrap();
    let m10 = i.next().unwrap();
    let m11 = i.next().unwrap();
    let m12 = i.next().unwrap();
    let m13 = i.next().unwrap();
    let m20 = i.next().unwrap();
    let m21 = i.next().unwrap();
    let m22 = i.next().unwrap();
    let m23 = i.next().unwrap();
    let m30 = i.next().unwrap();
    let m31 = i.next().unwrap();
    let m32 = i.next().unwrap();
    let m33 = i.next().unwrap();
    Mat4x4([m00, m01, m02, m03, m10, m11, m12, m13, m20, m21, m22, m23, m30, m31, m32, m33])
}

} // verus!
