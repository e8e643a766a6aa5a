//! `+` on vectors of equal length and on 4x4 matrices: the sum, element by element.
use crate::matrix::Mat4x4;
use crate::scalar::{deterministic, total, plus, Scalar};
use crate::vector::{Vec2, Vec3, Vec4};
use core::ops::Add;
use vstd::prelude::*;
use vstd::std_specs::ops::AddSpecImpl;

verus! {

/// The sum of two vectors of four components.
fn vec4_sum<T: Scalar>(a: &Vec4<T>, b: &Vec4<T>) -> (r: Vec4<T>)
    requires
        total::<T>(),
    ensures
        deterministic::<T>() ==> r == a.sum(*b),
{
    Vec4([a.0[0] + b.0[0], a.0[1] + b.0[1], a.0[2] + b.0[2], a.0[3] + b.0[3]])
}

/// `a + b`: the component-wise sum of two vectors of four components.
impl<T: Scalar> Add<Vec4<T>> for Vec4<T> {
    type Output = Vec4<T>;

    fn add(self, other: Vec4<T>) -> (r: Vec4<T>) {
        vec4_sum(&self, &other)
    }
}

impl<T: Scalar> AddSpecImpl<Vec4<T>> for Vec4<T> {
    open spec fn obeys_add_spec() -> bool {
        deterministic::<T>()
    }

    open spec fn add_req(self, other: Vec4<T>) -> bool {
        total::<T>()
    }

    open spec fn add_spec(self, other: Vec4<T>) -> Vec4<T> {
        self.sum(other)
    }
}

/// `&a + b`: the same, with the left operand borrowed.
impl<'b, T: Scalar> Add<Vec4<T>> for &'b Vec4<T> {
    type Output = Vec4<T>;

    fn add(self, other: Vec4<T>) -> (r: Vec4<T>) {
        vec4_sum(self, &other)
    }
}

impl<'b, T: Scalar> AddSpecImpl<Vec4<T>> for &'b Vec4<T> {
    open spec fn obeys_add_spec() -> bool {
        deterministic::<T>()
    }

    open spec fn add_req(self, other: Vec4<T>) -> bool {
        total::<T>()
    }

    open spec fn add_spec(self, other: Vec4<T>) -> Vec4<T> {
        (*self).sum(other)
    }
}

/// `a + &b`: the same, with the right operand borrowed.
impl<'a, T: Scalar> Add<&'a Vec4<T>> for Vec4<T> {
    type Output = Vec4<T>;

    fn add(self, other: &'a Vec4<T>) -> (r: Vec4<T>) {
        vec4_sum(&self, other)
    }
}

impl<'a, T: Scalar> AddSpecImpl<&'a Vec4<T>> for Vec4<T> {
    open spec fn obeys_add_spec() -> bool {
        deterministic::<T>()
    }

    open spec fn add_req(self, other: &'a Vec4<T>) -> bool {
        total::<T>()
    }

    open spec fn add_spec(self, other: &'a Vec4<T>) -> Vec4<T> {
        self.sum(*other)
    }
}

/// `&a + &b`: the same, with both operands borrowed.
impl<'a, 'b, T: Scalar> Add<&'a Vec4<T>> for &'b Vec4<T> {
    type Output = Vec4<T>;

    fn add(self, other: &'a Vec4<T>) -> (r: Vec4<T>) {
        vec4_sum(self, other)
    }
}

impl<'a, 'b, T: Scalar> AddSpecImpl<&'a Vec4<T>> for &'b Vec4<T> {
    open spec fn obeys_add_spec() -> bool {
        deterministic::<T>()
    }

    open spec fn add_req(self, other: &'a Vec4<T>) -> bool {
        total::<T>()
    }

    open spec fn add_spec(self, other: &'a Vec4<T>) -> Vec4<T> {
        (*self).sum(*other)
    }
}

/// The sum of two vectors of three components.
fn vec3_sum<T: Scalar>(a: &Vec3<T>, b: &Vec3<T>) -> (r: Vec3<T>)
    requires
        total::<T>(),
    ensures
        deterministic::<T>() ==> r == a.sum(*b),
{
    Vec3([a.0[0] + b.0[0], a.0[1] + b.0[1], a.0[2] + b.0[2]])
}

/// `a + b`: the component-wise sum of two vectors of three components.
impl<T: Scalar> Add<Vec3<T>> for Vec3<T> {
    type Output = Vec3<T>;

    fn add(self, other: Vec3<T>) -> (r: Vec3<T>) {
        vec3_sum(&self, &other)
    }
}

impl<T: Scalar> AddSpecImpl<Vec3<T>> for Vec3<T> {
    open spec fn obeys_add_spec() -> bool {
        deterministic::<T>()
    }

    open spec fn add_req(self, other: Vec3<T>) -> bool {
        total::<T>()
    }

    open spec fn add_spec(self, other: Vec3<T>) -> Vec3<T> {
        self.sum(other)
    }
}

/// `&a + b`: the same, with the left operand borrowed.
impl<'b, T: Scalar> Add<Vec3<T>> for &'b Vec3<T> {
    type Output = Vec3<T>;

    fn add(self, other: Vec3<T>) -> (r: Vec3<T>) {
        vec3_sum(self, &other)
    }
}

impl<'b, T: Scalar> AddSpecImpl<Vec3<T>> for &'b Vec3<T> {
    open spec fn obeys_add_spec() -> bool {
        deterministic::<T>()
    }

    open spec fn add_req(self, other: Vec3<T>) -> bool {
        total::<T>()
    }

    open spec fn add_spec(self, other: Vec3<T>) -> Vec3<T> {
        (*self).sum(other)
    }
}

/// `a + &b`: the same, with the right operand borrowed.
impl<'a, T: Scalar> Add<&'a Vec3<T>> for Vec3<T> {
    type Output = Vec3<T>;

    fn add(self, other: &'a Vec3<T>) -> (r: Vec3<T>) {
        vec3_sum(&self, other)
    }
}

impl<'a, T: Scalar> AddSpecImpl<&'a Vec3<T>> for Vec3<T> {
    open spec fn obeys_add_spec() -> bool {
        deterministic::<T>()
    }

    open spec fn add_req(self, other: &'a Vec3<T>) -> bool {
        total::<T>()
    }

    open spec fn add_spec(self, other: &'a Vec3<T>) -> Vec3<T> {
        self.sum(*other)
    }
}

/// `&a + &b`: the same, with both operands borrowed.
impl<'a, 'b, T: Scalar> Add<&'a Vec3<T>> for &'b Vec3<T> {
    type Output = Vec3<T>;

    fn add(self, other: &'a Vec3<T>) -> (r: Vec3<T>) {
        vec3_sum(self, other)
    }
}

impl<'a, 'b, T: Scalar> AddSpecImpl<&'a Vec3<T>> for &'b Vec3<T> {
    open spec fn obeys_add_spec() -> bool {
        deterministic::<T>()
    }

    open spec fn add_req(self, other: &'a Vec3<T>) -> bool {
        total::<T>()
    }

    open spec fn add_spec(self, other: &'a Vec3<T>) -> Vec3<T> {
        (*self).sum(*other)
    }
}

/// The sum of two vectors of two components.
fn vec2_sum<T: Scalar>(a: &Vec2<T>, b: &Vec2<T>) -> (r: Vec2<T>)
    requires
        total::<T>(),
    ensures
        deterministic::<T>() ==> r == a.sum(*b),
{
    Vec2([a.0[0] + b.0[0], a.0[1] + b.0[1]])
}

/// `a + b`: the component-wise sum of two vectors of two components.
impl<T: Scalar> Add<Vec2<T>> for Vec2<T> {
    type Output = Vec2<T>;

    fn add(self, other: Vec2<T>) -> (r: Vec2<T>) {
        vec2_sum(&self, &other)
    }
}

impl<T: Scalar> AddSpecImpl<Vec2<T>> for Vec2<T> {
    open spec fn obeys_add_spec() -> bool {
        deterministic::<T>()
    }

    open spec fn add_req(self, other: Vec2<T>) -> bool {
        total::<T>()
    }

    open spec fn add_spec(self, other: Vec2<T>) -> Vec2<T> {
        self.sum(other)
    }
}

/// `&a + b`: the same, with the left operand borrowed.
impl<'b, T: Scalar> Add<Vec2<T>> for &'b Vec2<T> {
    type Output = Vec2<T>;

    fn add(self, other: Vec2<T>) -> (r: Vec2<T>) {
        vec2_sum(self, &other)
    }
}

impl<'b, T: Scalar> AddSpecImpl<Vec2<T>> for &'b Vec2<T> {
    open spec fn obeys_add_spec() -> bool {
        deterministic::<T>()
    }

    open spec fn add_req(self, other: Vec2<T>) -> bool {
        total::<T>()
    }

    open spec fn add_spec(self, other: Vec2<T>) -> Vec2<T> {
        (*self).sum(other)
    }
}

/// `a + &b`: the same, with the right operand borrowed.
impl<'a, T: Scalar> Add<&'a Vec2<T>> for Vec2<T> {
    type Output = Vec2<T>;

    fn add(self, other: &'a Vec2<T>) -> (r: Vec2<T>) {
        vec2_sum(&self, other)
    }
}

impl<'a, T: Scalar> AddSpecImpl<&'a Vec2<T>> for Vec2<T> {
    open spec fn obeys_add_spec() -> bool {
        deterministic::<T>()
    }

    open spec fn add_req(self, other: &'a Vec2<T>) -> bool {
        total::<T>()
    }

    open spec fn add_spec(self, other: &'a Vec2<T>) -> Vec2<T> {
        self.sum(*other)
    }
}

/// `&a + &b`: the same, with both operands borrowed.
impl<'a, 'b, T: Scalar> Add<&'a Vec2<T>> for &'b Vec2<T> {
    type Output = Vec2<T>;

    fn add(self, other: &'a Vec2<T>) -> (r: Vec2<T>) {
        vec2_sum(self, other)
    }
}

impl<'a, 'b, T: Scalar> AddSpecImpl<&'a Vec2<T>> for &'b Vec2<T> {
    open spec fn obeys_add_spec() -> bool {
        deterministic::<T>()
    }

    open spec fn add_req(self, other: &'a Vec2<T>) -> bool {
        total::<T>()
    }

    open spec fn add_spec(self, other: &'a Vec2<T>) -> Vec2<T> {
        (*self).sum(*other)
    }
}

/// The sum of two matrices, element by element.
fn mat_sum<T: Scalar>(a: &Mat4x4<T>, b: &Mat4x4<T>) -> (r: Mat4x4<T>)
    requires
        total::<T>(),
    ensures
        deterministic::<T>() ==> r == a.sum(*b),
{
    let mut out: [T; 16] = a.0;
    let mut i: usize = 0;
    while i < 16
        invariant
            i <= 16,
            total::<T>(),
            deterministic::<T>() ==> forall|k: int|
                0 <= k < i ==> out[k] == plus(a.0[k], b.0[k]),
            forall|k: int| i <= k < 16 ==> out[k] == a.0[k],
        decreases 16 - i,
    {
        out[i] = a.0[i] + b.0[i];
        i += 1;
    }
    let r = Mat4x4(out);
    proof {
        if deterministic::<T>() {
            assert forall|y: int, x: int| 0 <= y < 4 && 0 <= x < 4 implies r.at(y, x) == a.sum(
                *b,
            ).at(y, x) by {
                assert(out[4 * y + x] == plus(a.0[4 * y + x], b.0[4 * y + x]));
            }
            Mat4x4::lemma_equal_by_elements(r, a.sum(*b));
        }
    }
    r
}

/// `a + b`: the element-wise sum of two matrices.
impl<T: Scalar> Add<Mat4x4<T>> for Mat4x4<T> {
    type Output = Mat4x4<T>;

    fn add(self, other: Mat4x4<T>) -> (r: Mat4x4<T>) {
        mat_sum(&self, &other)
    }
}

impl<T: Scalar> AddSpecImpl<Mat4x4<T>> for Mat4x4<T> {
    open spec fn obeys_add_spec() -> bool {
        deterministic::<T>()
    }

    open spec fn add_req(self, other: Mat4x4<T>) -> bool {
        total::<T>()
    }

    open spec fn add_spec(self, other: Mat4x4<T>) -> Mat4x4<T> {
        self.sum(other)
    }
}

/// `&a + b`: the same, with the left operand borrowed.
impl<'b, T: Scalar> Add<Mat4x4<T>> for &'b Mat4x4<T> {
    type Output = Mat4x4<T>;

    fn add(self, other: Mat4x4<T>) -> (r: Mat4x4<T>) {
        mat_sum(self, &other)
    }
}

impl<'b, T: Scalar> AddSpecImpl<Mat4x4<T>> for &'b Mat4x4<T> {
    open spec fn obeys_add_spec() -> bool {
        deterministic::<T>()
    }

    open spec fn add_req(self, other: Mat4x4<T>) -> bool {
        total::<T>()
    }

    open spec fn add_spec(self, other: Mat4x4<T>) -> Mat4x4<T> {
        (*self).sum(other)
    }
}

/// `a + &b`: the same, with the right operand borrowed.
impl<'a, T: Scalar> Add<&'a Mat4x4<T>> for Mat4x4<T> {
    type Output = Mat4x4<T>;

    fn add(self, other: &'a Mat4x4<T>) -> (r: Mat4x4<T>) {
        mat_sum(&self, other)
    }
}

impl<'a, T: Scalar> AddSpecImpl<&'a Mat4x4<T>> for Mat4x4<T> {
    open spec fn obeys_add_spec() -> bool {
        deterministic::<T>()
    }

    open spec fn add_req(self, other: &'a Mat4x4<T>) -> bool {
        total::<T>()
    }

    open spec fn add_spec(self, other: &'a Mat4x4<T>) -> Mat4x4<T> {
        self.sum(*other)
    }
}

/// `&a + &b`: the same, with both operands borrowed.
impl<'a, 'b, T: Scalar> Add<&'a Mat4x4<T>> for &'b Mat4x4<T> {
    type Output = Mat4x4<T>;

    fn add(self, other: &'a Mat4x4<T>) -> (r: Mat4x4<T>) {
        mat_sum(self, other)
    }
}

impl<'a, 'b, T: Scalar> AddSpecImpl<&'a Mat4x4<T>> for &'b Mat4x4<T> {
    open spec fn obeys_add_spec() -> bool {
        deterministic::<T>()
    }

    open spec fn add_req(self, other: &'a Mat4x4<T>) -> bool {
        total::<T>()
    }

    open spec fn add_spec(self, other: &'a Mat4x4<T>) -> Mat4x4<T> {
        (*self).sum(*other)
    }
}

} // verus!
