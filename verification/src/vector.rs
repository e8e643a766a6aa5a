//! Vectors of two, three and four components.
//!
//! A vector is a plain value: its components in a fixed order, x first. Any
//! array of the right length is a valid vector.
use crate::matrix::Mat2x2;
use core::ops::Neg;
use crate::scalar::{deterministic, minus, negated, over, plus, times, total, Scalar};
use vstd::prelude::*;
use vstd::std_specs::convert::FromSpecImpl;

verus! {

/// A vector of two components, in the order x, y.
#[derive(PartialEq, Debug)]
pub struct Vec2<T>(pub [T; 2]);

/// A vector of three components, in the order x, y, z.
#[derive(PartialEq, Debug)]
pub struct Vec3<T>(pub [T; 3]);

/// A vector of four components, in the order x, y, z, w.
#[derive(PartialEq, Debug)]
pub struct Vec4<T>(pub [T; 4]);

impl<T> View for Vec2<T> {
    type V = Seq<T>;

    /// The components, x first.
    open spec fn view(&self) -> Seq<T> {
        self.0@
    }
}

impl<T> View for Vec3<T> {
    type V = Seq<T>;

    /// The components, x first.
    open spec fn view(&self) -> Seq<T> {
        self.0@
    }
}

impl<T> View for Vec4<T> {
    type V = Seq<T>;

    /// The components, x first.
    open spec fn view(&self) -> Seq<T> {
        self.0@
    }
}

impl<T: Copy> Clone for Vec2<T> {
    fn clone(&self) -> (r: Self)
        ensures
            r == *self,
    {
        *self
    }
}

impl<T: Copy> Copy for Vec2<T> {

}

impl<T: Copy> Clone for Vec3<T> {
    fn clone(&self) -> (r: Self)
        ensures
            r == *self,
    {
        *self
    }
}

impl<T: Copy> Copy for Vec3<T> {

}

impl<T: Copy> Clone for Vec4<T> {
    fn clone(&self) -> (r: Self)
        ensures
            r == *self,
    {
        *self
    }
}

impl<T: Copy> Copy for Vec4<T> {

}

impl<T> From<[T; 2]> for Vec2<T> {
    /// Wraps the two components as they are.
    fn from(a: [T; 2]) -> (r: Self) {
        Vec2(a)
    }
}

impl<T> FromSpecImpl<[T; 2]> for Vec2<T> {
    open spec fn obeys_from_spec() -> bool {
        true
    }

    open spec fn from_spec(a: [T; 2]) -> Self {
        Vec2(a)
    }
}

impl<T> From<[T; 3]> for Vec3<T> {
    /// Wraps the three components as they are.
    fn from(a: [T; 3]) -> (r: Self) {
        Vec3(a)
    }
}

impl<T> FromSpecImpl<[T; 3]> for Vec3<T> {
    open spec fn obeys_from_spec() -> bool {
        true
    }

    open spec fn from_spec(a: [T; 3]) -> Self {
        Vec3(a)
    }
}

impl<T> From<[T; 4]> for Vec4<T> {
    /// Wraps the four components as they are.
    fn from(a: [T; 4]) -> (r: Self) {
        Vec4(a)
    }
}

impl<T> FromSpecImpl<[T; 4]> for Vec4<T> {
    open spec fn obeys_from_spec() -> bool {
        true
    }

    open spec fn from_spec(a: [T; 4]) -> Self {
        Vec4(a)
    }
}

impl<T: Copy> Vec2<T> {
    /// The first component.
    pub fn x(&self) -> (r: T)
        ensures
            r == self.0[0],
    {
        self.0[0]
    }

    /// The second component.
    pub fn y(&self) -> (r: T)
        ensures
            r == self.0[1],
    {
        self.0[1]
    }
}

impl<T: Scalar> Vec2<T> {
    /// The dot product: the products of the components of equal index, summed
    /// from the first to the last.
    pub open spec fn dot_spec(a: Vec2<T>, b: Vec2<T>) -> T {
        plus(times(a.0[0], b.0[0]), times(a.0[1], b.0[1]))
    }

    /// The component-wise sum.
    pub open spec fn sum(self, other: Vec2<T>) -> Vec2<T> {
        Vec2([plus(self.0[0], other.0[0]), plus(self.0[1], other.0[1])])
    }

    /// The component-wise difference.
    pub open spec fn difference(self, other: Vec2<T>) -> Vec2<T> {
        Vec2([minus(self.0[0], other.0[0]), minus(self.0[1], other.0[1])])
    }

    /// Each component multiplied by `k`.
    pub open spec fn scaled(self, k: T) -> Vec2<T> {
        Vec2([times(self.0[0], k), times(self.0[1], k)])
    }

    /// Each component divided by `k`.
    pub open spec fn divided(self, k: T) -> Vec2<T> {
        Vec2([over(self.0[0], k), over(self.0[1], k)])
    }

    /// The dot product of `a` and `b`.
    pub fn dot(a: &Vec2<T>, b: &Vec2<T>) -> (r: T)
        requires
            total::<T>(),
        ensures
            deterministic::<T>() ==> r == Self::dot_spec(*a, *b),
    {
        a.0[0] * b.0[0] + a.0[1] * b.0[1]
    }

    /// The squared length: the dot product of the vector with itself.
    pub fn len_sq(&self) -> (r: T)
        requires
            total::<T>(),
        ensures
            deterministic::<T>() ==> r == Self::dot_spec(*self, *self),
    {
        let v = self.0;
        v[0] * v[0] + v[1] * v[1]
    }
}

impl<T: Copy> Vec3<T> {
    /// The first component.
    pub fn x(&self) -> (r: T)
        ensures
            r == self.0[0],
    {
        self.0[0]
    }

    /// The second component.
    pub fn y(&self) -> (r: T)
        ensures
            r == self.0[1],
    {
        self.0[1]
    }

    /// The third component.
    pub fn z(&self) -> (r: T)
        ensures
            r == self.0[2],
    {
        self.0[2]
    }

    /// The components x and y, in this order.
    pub fn xy(&self) -> (r: Vec2<T>)
        ensures
            r == Vec2([self.0[0], self.0[1]]),
    {
        Vec2([self.x(), self.y()])
    }

    /// The components y and z, in this order.
    pub fn yz(&self) -> (r: Vec2<T>)
        ensures
            r == Vec2([self.0[1], self.0[2]]),
    {
        Vec2([self.y(), self.z()])
    }

    /// The components x and z, in this order.
    pub fn xz(&self) -> (r: Vec2<T>)
        ensures
            r == Vec2([self.0[0], self.0[2]]),
    {
        Vec2([self.x(), self.z()])
    }

    /// The components y and x, in this order.
    pub fn yx(&self) -> (r: Vec2<T>)
        ensures
            r == Vec2([self.0[1], self.0[0]]),
    {
        Vec2([self.y(), self.x()])
    }

    /// The components z and y, in this order.
    pub fn zy(&self) -> (r: Vec2<T>)
        ensures
            r == Vec2([self.0[2], self.0[1]]),
    {
        Vec2([self.z(), self.y()])
    }

    /// The components z and x, in this order.
    pub fn zx(&self) -> (r: Vec2<T>)
        ensures
            r == Vec2([self.0[2], self.0[0]]),
    {
        Vec2([self.z(), self.x()])
    }
}

impl<T: Scalar> Vec3<T> {
    /// The dot product: the products of the components of equal index, summed
    /// from the first to the last.
    pub open spec fn dot_spec(a: Vec3<T>, b: Vec3<T>) -> T {
        plus(plus(times(a.0[0], b.0[0]), times(a.0[1], b.0[1])), times(a.0[2], b.0[2]))
    }

    /// The cross product. Its middle component is the negated difference
    /// `-(a.x * b.z - a.z * b.x)`, not the difference with its terms swapped.
    pub open spec fn cross_spec(a: Vec3<T>, b: Vec3<T>) -> Vec3<T> {
        Vec3(
            [
                minus(times(a.0[1], b.0[2]), times(a.0[2], b.0[1])),
                negated(minus(times(a.0[0], b.0[2]), times(a.0[2], b.0[0]))),
                minus(times(a.0[0], b.0[1]), times(a.0[1], b.0[0])),
            ],
        )
    }

    /// The component-wise sum.
    pub open spec fn sum(self, other: Vec3<T>) -> Vec3<T> {
        Vec3(
            [
                plus(self.0[0], other.0[0]),
                plus(self.0[1], other.0[1]),
                plus(self.0[2], other.0[2]),
            ],
        )
    }

    /// The component-wise difference.
    pub open spec fn difference(self, other: Vec3<T>) -> Vec3<T> {
        Vec3(
            [
                minus(self.0[0], other.0[0]),
                minus(self.0[1], other.0[1]),
                minus(self.0[2], other.0[2]),
            ],
        )
    }

    /// Each component multiplied by `k`.
    pub open spec fn scaled(self, k: T) -> Vec3<T> {
        Vec3([times(self.0[0], k), times(self.0[1], k), times(self.0[2], k)])
    }

    /// Each component divided by `k`.
    pub open spec fn divided(self, k: T) -> Vec3<T> {
        Vec3([over(self.0[0], k), over(self.0[1], k), over(self.0[2], k)])
    }

    /// Each component negated.
    pub open spec fn opposite(self) -> Vec3<T> {
        Vec3([negated(self.0[0]), negated(self.0[1]), negated(self.0[2])])
    }

    /// The dot product of `a` and `b`.
    pub fn dot(a: &Vec3<T>, b: &Vec3<T>) -> (r: T)
        requires
            total::<T>(),
        ensures
            deterministic::<T>() ==> r == Self::dot_spec(*a, *b),
    {
        a.0[0] * b.0[0] + a.0[1] * b.0[1] + a.0[2] * b.0[2]
    }

    /// The cross product of `a` and `b`, each component computed as the
    /// determinant of the 2x2 matrix of the other two components of `a` over
    /// those of `b`, the middle one negated.
    pub fn cross(a: &Vec3<T>, b: &Vec3<T>) -> (r: Vec3<T>)
        requires
            total::<T>(),
        ensures
            deterministic::<T>() ==> r == Self::cross_spec(*a, *b),
    {
        Vec3(
            [
                Mat2x2([a.y(), a.z(), b.y(), b.z()]).det(),
                Mat2x2([a.x(), a.z(), b.x(), b.z()]).det().neg(),
                Mat2x2([a.x(), a.y(), b.x(), b.y()]).det(),
            ],
        )
    }

    /// The squared length: the dot product of the vector with itself.
    pub fn len_sq(&self) -> (r: T)
        requires
            total::<T>(),
        ensures
            deterministic::<T>() ==> r == Self::dot_spec(*self, *self),
    {
        let v = self.0;
        v[0] * v[0] + v[1] * v[1] + v[2] * v[2]
    }
}

impl<T: Copy> Vec4<T> {
    /// The first three components.
    pub open spec fn xyz_spec(self) -> Vec3<T> {
        Vec3([self.0[0], self.0[1], self.0[2]])
    }

    /// The first component.
    pub fn x(&self) -> (r: T)
        ensures
            r == self.0[0],
    {
        self.0[0]
    }

    /// The second component.
    pub fn y(&self) -> (r: T)
        ensures
            r == self.0[1],
    {
        self.0[1]
    }

    /// The third component.
    pub fn z(&self) -> (r: T)
        ensures
            r == self.0[2],
    {
        self.0[2]
    }

    /// The fourth component.
    pub fn w(&self) -> (r: T)
        ensures
            r == self.0[3],
    {
        self.0[3]
    }

    /// The components x, y and z, in this order: the vector without its w.
    pub fn xyz(&self) -> (r: Vec3<T>)
        ensures
            r == self.xyz_spec(),
    {
        Vec3([self.0[0], self.0[1], self.0[2]])
    }
}

impl<T: Scalar> Vec4<T> {
    /// The dot product: the products of the components of equal index, summed
    /// from the first to the last.
    pub open spec fn dot_spec(a: Vec4<T>, b: Vec4<T>) -> T {
        plus(
            plus(plus(times(a.0[0], b.0[0]), times(a.0[1], b.0[1])), times(a.0[2], b.0[2])),
            times(a.0[3], b.0[3]),
        )
    }

    /// The component-wise sum.
    pub open spec fn sum(self, other: Vec4<T>) -> Vec4<T> {
        Vec4(
            [
                plus(self.0[0], other.0[0]),
                plus(self.0[1], other.0[1]),
                plus(self.0[2], other.0[2]),
                plus(self.0[3], other.0[3]),
            ],
        )
    }

    /// The component-wise difference.
    pub open spec fn difference(self, other: Vec4<T>) -> Vec4<T> {
        Vec4(
            [
                minus(self.0[0], other.0[0]),
                minus(self.0[1], other.0[1]),
                minus(self.0[2], other.0[2]),
                minus(self.0[3], other.0[3]),
            ],
        )
    }

    /// Each component multiplied by `k`.
    pub open spec fn scaled(self, k: T) -> Vec4<T> {
        Vec4(
            [times(self.0[0], k), times(self.0[1], k), times(self.0[2], k), times(self.0[3], k)],
        )
    }

    /// Each component divided by `k`.
    pub open spec fn divided(self, k: T) -> Vec4<T> {
        Vec4([over(self.0[0], k), over(self.0[1], k), over(self.0[2], k), over(self.0[3], k)])
    }

    /// The dot product of `a` and `b`.
    pub fn dot(a: &Vec4<T>, b: &Vec4<T>) -> (r: T)
        requires
            total::<T>(),
        ensures
            deterministic::<T>() ==> r == Self::dot_spec(*a, *b),
    {
        a.0[0] * b.0[0] + a.0[1] * b.0[1] + a.0[2] * b.0[2] + a.0[3] * b.0[3]
    }

    /// The squared length: the dot product of the vector with itself.
    pub fn len_sq(&self) -> (r: T)
        requires
            total::<T>(),
        ensures
            deterministic::<T>() ==> r == Self::dot_spec(*self, *self),
    {
        let v = self.0;
        v[0] * v[0] + v[1] * v[1] + v[2] * v[2] + v[3] * v[3]
    }
}

} // verus!
