use vstd::prelude::*;
use vstd::std_specs::ops::{AddSpec, DivSpec, MulSpec, SubSpec};

use crate::scalar::{distance, Scalar};

verus! {

/// A three-component vector whose components all share one scalar kind.
#[derive(Clone, Copy)]
pub struct Vec3<T> {
    pub x: T,
    pub y: T,
    pub z: T,
}

impl<T> Vec3<T> {
    /// Builds a vector from its three components, stored as given.
    pub fn new(x: T, y: T, z: T) -> (r: Vec3<T>)
        ensures
            r.x == x,
            r.y == y,
            r.z == z,
    {
        Vec3 { x, y, z }
    }
}

impl<T: core::ops::Add<Output = T>> core::ops::Add for Vec3<T> {
    type Output = Vec3<T>;

    /// Component-wise addition: each component is the scalar sum.
    fn add(self, rhs: Vec3<T>) -> (r: Vec3<T>)
        ensures
            T::obeys_add_spec() ==> {
                &&& r.x == self.x.add_spec(rhs.x)
                &&& r.y == self.y.add_spec(rhs.y)
                &&& r.z == self.z.add_spec(rhs.z)
            },
    {
        Vec3 { x: self.x + rhs.x, y: self.y + rhs.y, z: self.z + rhs.z }
    }
}

impl<T: core::ops::Add<Output = T>> vstd::std_specs::ops::AddSpecImpl for Vec3<T> {
    open spec fn obeys_add_spec() -> bool {
        T::obeys_add_spec()
    }

    /// Defined when the scalar operator is defined on each pair of components.
    open spec fn add_req(self, rhs: Vec3<T>) -> bool {
        self.x.add_req(rhs.x) && self.y.add_req(rhs.y) && self.z.add_req(rhs.z)
    }

    open spec fn add_spec(self, rhs: Vec3<T>) -> Vec3<T> {
        Vec3 { x: self.x.add_spec(rhs.x), y: self.y.add_spec(rhs.y), z: self.z.add_spec(rhs.z) }
    }
}

impl<T: core::ops::Sub<Output = T>> core::ops::Sub for Vec3<T> {
    type Output = Vec3<T>;

    /// Component-wise subtraction: each component is the scalar difference.
    fn sub(self, rhs: Vec3<T>) -> (r: Vec3<T>)
        ensures
            T::obeys_sub_spec() ==> {
                &&& r.x == self.x.sub_spec(rhs.x)
                &&& r.y == self.y.sub_spec(rhs.y)
                &&& r.z == self.z.sub_spec(rhs.z)
            },
    {
        Vec3 { x: self.x - rhs.x, y: self.y - rhs.y, z: self.z - rhs.z }
    }
}

impl<T: core::ops::Sub<Output = T>> vstd::std_specs::ops::SubSpecImpl for Vec3<T> {
    open spec fn obeys_sub_spec() -> bool {
        T::obeys_sub_spec()
    }

    /// Defined when the scalar operator is defined on each pair of components.
    open spec fn sub_req(self, rhs: Vec3<T>) -> bool {
        self.x.sub_req(rhs.x) && self.y.sub_req(rhs.y) && self.z.sub_req(rhs.z)
    }

    open spec fn sub_spec(self, rhs: Vec3<T>) -> Vec3<T> {
        Vec3 { x: self.x.sub_spec(rhs.x), y: self.y.sub_spec(rhs.y), z: self.z.sub_spec(rhs.z) }
    }
}

impl<T: core::ops::Mul<Output = T>> core::ops::Mul for Vec3<T> {
    type Output = Vec3<T>;

    /// Component-wise multiplication: each component is the scalar product.
    fn mul(self, rhs: Vec3<T>) -> (r: Vec3<T>)
        ensures
            T::obeys_mul_spec() ==> {
                &&& r.x == self.x.mul_spec(rhs.x)
                &&& r.y == self.y.mul_spec(rhs.y)
                &&& r.z == self.z.mul_spec(rhs.z)
            },
    {
        Vec3 { x: self.x * rhs.x, y: self.y * rhs.y, z: self.z * rhs.z }
    }
}

impl<T: core::ops::Mul<Output = T>> vstd::std_specs::ops::MulSpecImpl for Vec3<T> {
    open spec fn obeys_mul_spec() -> bool {
        T::obeys_mul_spec()
    }

    /// Defined when the scalar operator is defined on each pair of components.
    open spec fn mul_req(self, rhs: Vec3<T>) -> bool {
        self.x.mul_req(rhs.x) && self.y.mul_req(rhs.y) && self.z.mul_req(rhs.z)
    }

    open spec fn mul_spec(self, rhs: Vec3<T>) -> Vec3<T> {
        Vec3 { x: self.x.mul_spec(rhs.x), y: self.y.mul_spec(rhs.y), z: self.z.mul_spec(rhs.z) }
    }
}

impl<T: core::ops::Div<Output = T>> core::ops::Div for Vec3<T> {
    type Output = Vec3<T>;

    /// Component-wise division: each component is the scalar quotient, with
    /// the scalar kind's own rounding.
    fn div(self, rhs: Vec3<T>) -> (r: Vec3<T>)
        ensures
            T::obeys_div_spec() ==> {
                &&& r.x == self.x.div_spec(rhs.x)
                &&& r.y == self.y.div_spec(rhs.y)
                &&& r.z == self.z.div_spec(rhs.z)
            },
    {
        Vec3 { x: self.x / rhs.x, y: self.y / rhs.y, z: self.z / rhs.z }
    }
}

impl<T: core::ops::Div<Output = T>> vstd::std_specs::ops::DivSpecImpl for Vec3<T> {
    open spec fn obeys_div_spec() -> bool {
        T::obeys_div_spec()
    }

    /// Defined when the scalar operator is defined on each pair of components.
    open spec fn div_req(self, rhs: Vec3<T>) -> bool {
        self.x.div_req(rhs.x) && self.y.div_req(rhs.y) && self.z.div_req(rhs.z)
    }

    open spec fn div_spec(self, rhs: Vec3<T>) -> Vec3<T> {
        Vec3 { x: self.x.div_spec(rhs.x), y: self.y.div_spec(rhs.y), z: self.z.div_spec(rhs.z) }
    }
}


impl<T: Scalar> Vec3<T> {
    /// Whether the components stand for the integers `a`, `b` and `c`.
    pub open spec fn is_triple(self, a: int, b: int, c: int) -> bool {
        self.x.value() == a && self.y.value() == b && self.z.value() == c
    }

    /// Whether every component is zero.
    pub open spec fn is_zero_spec(self) -> bool {
        self.is_triple(0, 0, 0)
    }

    /// Whether each component of `self` lies within `tol` of that of `other`.
    pub open spec fn almost_equal_spec(self, other: Vec3<T>, tol: T) -> bool {
        &&& distance(self.x.value(), other.x.value()) <= tol.value()
        &&& distance(self.y.value(), other.y.value()) <= tol.value()
        &&& distance(self.z.value(), other.z.value()) <= tol.value()
    }

    /// The vector whose components are all zero.
    pub fn zero() -> (r: Vec3<T>)
        ensures
            r.is_triple(0, 0, 0),
    {
        Vec3 { x: T::zero(), y: T::zero(), z: T::zero() }
    }

    /// The vector whose components are all one.
    pub fn one() -> (r: Vec3<T>)
        ensures
            r.is_triple(1, 1, 1),
    {
        Vec3 { x: T::one(), y: T::one(), z: T::one() }
    }

    /// Whether the vector equals the zero vector, compared exactly.
    pub fn is_zero(&self) -> (r: bool)
        ensures
            r == self.is_zero_spec(),
    {
        let z = Vec3::<T>::zero();
        *self == z
    }

    /// Whether each component lies within `abs_tol` of the matching component
    /// of `other`.
    pub fn almost_equal(self, other: Vec3<T>, abs_tol: T) -> (r: bool)
        ensures
            r == self.almost_equal_spec(other, abs_tol),
    {
        self.x.within(other.x, abs_tol) && self.y.within(other.y, abs_tol) && self.z.within(
            other.z,
            abs_tol,
        )
    }
}

impl<T: Scalar> PartialEq for Vec3<T> {
    /// Exact component-wise comparison.
    fn eq(&self, other: &Vec3<T>) -> (r: bool) {
        self.x.same(other.x) && self.y.same(other.y) && self.z.same(other.z)
    }
}

impl<T: Scalar> vstd::std_specs::cmp::PartialEqSpecImpl for Vec3<T> {
    open spec fn obeys_eq_spec() -> bool {
        true
    }

    open spec fn eq_spec(&self, other: &Vec3<T>) -> bool {
        &&& self.x.value() == other.x.value()
        &&& self.y.value() == other.y.value()
        &&& self.z.value() == other.z.value()
    }
}

} // verus!
