//! `/` of a vector by a scalar: each component divided, with no test for zero.
use crate::scalar::{deterministic, total, Scalar};
use crate::vector::{Vec2, Vec3, Vec4};
use core::ops::Div;
use vstd::prelude::*;
use vstd::std_specs::ops::DivSpecImpl;

verus! {

/// A vector of four components with each component divided by `k`.
fn vec4_divided<T: Scalar>(a: &Vec4<T>, k: T) -> (r: Vec4<T>)
    requires
        total::<T>(),
    ensures
        deterministic::<T>() ==> r == a.divided(k),
{
    Vec4([a.0[0] / k, a.0[1] / k, a.0[2] / k, a.0[3] / k])
}

/// `v / k`: each of the four components of `v` divided by the scalar `k`.
impl<T: Scalar> Div<T> for Vec4<T> {
    type Output = Vec4<T>;

    fn div(self, other: T) -> (r: Vec4<T>) {
        vec4_divided(&self, other)
    }
}

impl<T: Scalar> DivSpecImpl<T> for Vec4<T> {
    open spec fn obeys_div_spec() -> bool {
        deterministic::<T>()
    }

    open spec fn div_req(self, other: T) -> bool {
        total::<T>()
    }

    open spec fn div_spec(self, other: T) -> Vec4<T> {
        self.divided(other)
    }
}

/// `&v / k`: the same, with the left operand borrowed.
impl<'b, T: Scalar> Div<T> for &'b Vec4<T> {
    type Output = Vec4<T>;

    fn div(self, other: T) -> (r: Vec4<T>) {
        vec4_divided(self, other)
    }
}

impl<'b, T: Scalar> DivSpecImpl<T> for &'b Vec4<T> {
    open spec fn obeys_div_spec() -> bool {
        deterministic::<T>()
    }

    open spec fn div_req(self, other: T) -> bool {
        total::<T>()
    }

    open spec fn div_spec(self, other: T) -> Vec4<T> {
        (*self).divided(other)
    }
}

/// `v / &k`: the same, with the right operand borrowed.
impl<'a, T: Scalar> Div<&'a T> for Vec4<T> {
    type Output = Vec4<T>;

    fn div(self, other: &'a T) -> (r: Vec4<T>) {
        vec4_divided(&self, *other)
    }
}

impl<'a, T: Scalar> DivSpecImpl<&'a T> for Vec4<T> {
    open spec fn obeys_div_spec() -> bool {
        deterministic::<T>()
    }

    open spec fn div_req(self, other: &'a T) -> bool {
        total::<T>()
    }

    open spec fn div_spec(self, other: &'a T) -> Vec4<T> {
        self.divided(*other)
    }
}

/// `&v / &k`: the same, with both operands borrowed.
impl<'a, 'b, T: Scalar> Div<&'a T> for &'b Vec4<T> {
    type Output = Vec4<T>;

    fn div(self, other: &'a T) -> (r: Vec4<T>) {
        vec4_divided(self, *other)
    }
}

impl<'a, 'b, T: Scalar> DivSpecImpl<&'a T> for &'b Vec4<T> {
    open spec fn obeys_div_spec() -> bool {
        deterministic::<T>()
    }

    open spec fn div_req(self, other: &'a T) -> bool {
        total::<T>()
    }

    open spec fn div_spec(self, other: &'a T) -> Vec4<T> {
        (*self).divided(*other)
    }
}

/// A vector of three components with each component divided by `k`.
fn vec3_divided<T: Scalar>(a: &Vec3<T>, k: T) -> (r: Vec3<T>)
    requires
        total::<T>(),
    ensures
        deterministic::<T>() ==> r == a.divided(k),
{
    Vec3([a.0[0] / k, a.0[1] / k, a.0[2] / k])
}

/// `v / k`: each of the three components of `v` divided by the scalar `k`.
impl<T: Scalar> Div<T> for Vec3<T> {
    type Output = Vec3<T>;

    fn div(self, other: T) -> (r: Vec3<T>) {
        vec3_divided(&self, other)
    }
}

impl<T: Scalar> DivSpecImpl<T> for Vec3<T> {
    open spec fn obeys_div_spec() -> bool {
        deterministic::<T>()
    }

    open spec fn div_req(self, other: T) -> bool {
        total::<T>()
    }

    open spec fn div_spec(self, other: T) -> Vec3<T> {
        self.divided(other)
    }
}

/// `&v / k`: the same, with the left operand borrowed.
impl<'b, T: Scalar> Div<T> for &'b Vec3<T> {
    type Output = Vec3<T>;

    fn div(self, other: T) -> (r: Vec3<T>) {
        vec3_divided(self, other)
    }
}

impl<'b, T: Scalar> DivSpecImpl<T> for &'b Vec3<T> {
    open spec fn obeys_div_spec() -> bool {
        deterministic::<T>()
    }

    open spec fn div_req(self, other: T) -> bool {
        total::<T>()
    }

    open spec fn div_spec(self, other: T) -> Vec3<T> {
        (*self).divided(other)
    }
}

/// `v / &k`: the same, with the right operand borrowed.
impl<'a, T: Scalar> Div<&'a T> for Vec3<T> {
    type Output = Vec3<T>;

    fn div(self, other: &'a T) -> (r: Vec3<T>) {
        vec3_divided(&self, *other)
    }
}

impl<'a, T: Scalar> DivSpecImpl<&'a T> for Vec3<T> {
    open spec fn obeys_div_spec() -> bool {
        deterministic::<T>()
    }

    open spec fn div_req(self, other: &'a T) -> bool {
        total::<T>()
    }

    open spec fn div_spec(self, other: &'a T) -> Vec3<T> {
        self.divided(*other)
    }
}

/// `&v / &k`: the same, with both operands borrowed.
impl<'a, 'b, T: Scalar> Div<&'a T> for &'b Vec3<T> {
    type Output = Vec3<T>;

    fn div(self, other: &'a T) -> (r: Vec3<T>) {
        vec3_divided(self, *other)
    }
}

impl<'a, 'b, T: Scalar> DivSpecImpl<&'a T> for &'b Vec3<T> {
    open spec fn obeys_div_spec() -> bool {
        deterministic::<T>()
    }

    open spec fn div_req(self, other: &'a T) -> bool {
        total::<T>()
    }

    open spec fn div_spec(self, other: &'a T) -> Vec3<T> {
        (*self).divided(*other)
    }
}

/// A vector of two components with each component divided by `k`.
fn vec2_divided<T: Scalar>(a: &Vec2<T>, k: T) -> (r: Vec2<T>)
    requires
        total::<T>(),
    ensures
        deterministic::<T>() ==> r == a.divided(k),
{
    Vec2([a.0[0] / k, a.0[1] / k])
}

/// `v / k`: each of the two components of `v` divided by the scalar `k`.
impl<T: Scalar> Div<T> for Vec2<T> {
    type Output = Vec2<T>;

    fn div(self, other: T) -> (r: Vec2<T>) {
        vec2_divided(&self, other)
    }
}

impl<T: Scalar> DivSpecImpl<T> for Vec2<T> {
    open spec fn obeys_div_spec() -> bool {
        deterministic::<T>()
    }

    open spec fn div_req(self, other: T) -> bool {
        total::<T>()
    }

    open spec fn div_spec(self, other: T) -> Vec2<T> {
        self.divided(other)
    }
}

/// `&v / k`: the same, with the left operand borrowed.
impl<'b, T: Scalar> Div<T> for &'b Vec2<T> {
    type Output = Vec2<T>;

    fn div(self, other: T) -> (r: Vec2<T>) {
        vec2_divided(self, other)
    }
}

impl<'b, T: Scalar> DivSpecImpl<T> for &'b Vec2<T> {
    open spec fn obeys_div_spec() -> bool {
        deterministic::<T>()
    }

    open spec fn div_req(self, other: T) -> bool {
        total::<T>()
    }

    open spec fn div_spec(self, other: T) -> Vec2<T> {
        (*self).divided(other)
    }
}

/// `v / &k`: the same, with the right operand borrowed.
impl<'a, T: Scalar> Div<&'a T> for Vec2<T> {
    type Output = Vec2<T>;

    fn div(self, other: &'a T) -> (r: Vec2<T>) {
        vec2_divided(&self, *other)
    }
}

impl<'a, T: Scalar> DivSpecImpl<&'a T> for Vec2<T> {
    open spec fn obeys_div_spec() -> bool {
        deterministic::<T>()
    }

    open spec fn div_req(self, other: &'a T) -> bool {
        total::<T>()
    }

    open spec fn div_spec(self, other: &'a T) -> Vec2<T> {
        self.divided(*other)
    }
}

/// `&v / &k`: the same, with both operands borrowed.
impl<'a, 'b, T: Scalar> Div<&'a T> for &'b Vec2<T> {
    type Output = Vec2<T>;

    fn div(self, other: &'a T) -> (r: Vec2<T>) {
        vec2_divided(self, *other)
    }
}

impl<'a, 'b, T: Scalar> DivSpecImpl<&'a T> for &'b Vec2<T> {
    open spec fn obeys_div_spec() -> bool {
        deterministic::<T>()
    }

    open spec fn div_req(self, other: &'a T) -> bool {
        total::<T>()
    }

    open spec fn div_spec(self, other: &'a T) -> Vec2<T> {
        (*self).divided(*other)
    }
}

} // verus!
