use vstd::prelude::*;
use vstd::std_specs::cmp::PartialEqSpec;
use vstd::std_specs::ops::{AddSpec, MulSpec};

use crate::scalar::Scalar;
use crate::vec3::Vec3;

verus! {

/// Two vectors are the same value when their components stand for the same
/// integers.
proof fn lemma_same_components<T: Scalar>(a: Vec3<T>, b: Vec3<T>)
    requires
        a.x.value() == b.x.value(),
        a.y.value() == b.y.value(),
        a.z.value() == b.z.value(),
    ensures
        a == b,
{
    T::lemma_integer(a.x, b.x);
    T::lemma_integer(a.y, b.y);
    T::lemma_integer(a.z, b.z);
}

/// Addition of integer vectors commutes: `a + b` is defined exactly when
/// `b + a` is, and the two are equal.
pub proof fn lemma_add_commutative<T: Scalar>(a: Vec3<T>, b: Vec3<T>)
    ensures
        a.add_req(b) <==> b.add_req(a),
        a.add_req(b) ==> a.add_spec(b) == b.add_spec(a),
        a.add_req(b) ==> a.add_spec(b).eq_spec(&b.add_spec(a)),
{
    T::lemma_integer(a.x, b.x);
    T::lemma_integer(a.y, b.y);
    T::lemma_integer(a.z, b.z);
    T::lemma_integer(b.x, a.x);
    T::lemma_integer(b.y, a.y);
    T::lemma_integer(b.z, a.z);
    if a.add_req(b) {
        lemma_same_components(a.add_spec(b), b.add_spec(a));
    }
}

/// Multiplication of integer vectors commutes: `a * b` is defined exactly
/// when `b * a` is, and the two are equal.
pub proof fn lemma_mul_commutative<T: Scalar>(a: Vec3<T>, b: Vec3<T>)
    ensures
        a.mul_req(b) <==> b.mul_req(a),
        a.mul_req(b) ==> a.mul_spec(b) == b.mul_spec(a),
        a.mul_req(b) ==> a.mul_spec(b).eq_spec(&b.mul_spec(a)),
{
    T::lemma_integer(a.x, b.x);
    T::lemma_integer(a.y, b.y);
    T::lemma_integer(a.z, b.z);
    T::lemma_integer(b.x, a.x);
    T::lemma_integer(b.y, a.y);
    T::lemma_integer(b.z, a.z);
    if a.mul_req(b) {
        assert(a.x.value() * b.x.value() == b.x.value() * a.x.value()) by (nonlinear_arith);
        assert(a.y.value() * b.y.value() == b.y.value() * a.y.value()) by (nonlinear_arith);
        assert(a.z.value() * b.z.value() == b.z.value() * a.z.value()) by (nonlinear_arith);
        lemma_same_components(a.mul_spec(b), b.mul_spec(a));
    }
}

/// Adding the zero vector is always defined and gives the vector back.
pub proof fn lemma_add_zero<T: Scalar>(a: Vec3<T>, zero: Vec3<T>)
    requires
        zero.is_triple(0, 0, 0),
    ensures
        a.add_req(zero),
        a.add_spec(zero) == a,
        a.add_spec(zero).eq_spec(&a),
{
    T::lemma_integer(a.x, zero.x);
    T::lemma_integer(a.y, zero.y);
    T::lemma_integer(a.z, zero.z);
    lemma_same_components(a.add_spec(zero), a);
}

/// Multiplying by the vector of ones is always defined and gives the vector
/// back.
pub proof fn lemma_mul_one<T: Scalar>(a: Vec3<T>, one: Vec3<T>)
    requires
        one.is_triple(1, 1, 1),
    ensures
        a.mul_req(one),
        a.mul_spec(one) == a,
        a.mul_spec(one).eq_spec(&a),
{
    T::lemma_integer(a.x, one.x);
    T::lemma_integer(a.y, one.y);
    T::lemma_integer(a.z, one.z);
    assert(a.x.value() * 1 == a.x.value());
    assert(a.y.value() * 1 == a.y.value());
    assert(a.z.value() * 1 == a.z.value());
    lemma_same_components(a.mul_spec(one), a);
}

/// The zero vector is detected as zero, and a vector with a nonzero
/// component is not.
pub proof fn lemma_zero_detection<T: Scalar>(zero: Vec3<T>, v: Vec3<T>)
    requires
        zero.is_triple(0, 0, 0),
    ensures
        zero.is_zero_spec(),
        v.x.value() != 0 || v.y.value() != 0 || v.z.value() != 0 ==> !v.is_zero_spec(),
{
}

/// Exact equality of integer vectors is reflexive, symmetric and transitive,
/// and holds exactly when the two vectors are the same value.
pub proof fn lemma_eq_equivalence<T: Scalar>(a: Vec3<T>, b: Vec3<T>, c: Vec3<T>)
    ensures
        a.eq_spec(&a),
        a.eq_spec(&b) <==> b.eq_spec(&a),
        a.eq_spec(&b) && b.eq_spec(&c) ==> a.eq_spec(&c),
        a.eq_spec(&b) <==> a == b,
{
    if a.eq_spec(&b) {
        lemma_same_components(a, b);
    }
}

} // verus!
