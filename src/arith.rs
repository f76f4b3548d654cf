//! Small facts of integer arithmetic that the algebraic laws are built from.
use vstd::arithmetic::mul::{lemma_mul_is_associative, lemma_mul_is_commutative};
use vstd::prelude::*;

verus! {

pub(crate) proof fn lemma_distribute_right4(p: int, q: int, r: int, s: int, v: int)
    ensures
        (p + q + r + s) * v == p * v + q * v + r * v + s * v,
{
    assert((p + q + r + s) * v == p * v + q * v + r * v + s * v) by (nonlinear_arith);
}

pub(crate) proof fn lemma_distribute_left4(a: int, p: int, q: int, r: int, s: int)
    ensures
        a * (p + q + r + s) == a * p + a * q + a * r + a * s,
{
    assert(a * (p + q + r + s) == a * p + a * q + a * r + a * s) by (nonlinear_arith);
}

pub(crate) proof fn lemma_distribute_sub(a: int, p: int, q: int)
    ensures
        a * (p - q) == a * p - a * q,
{
    assert(a * (p - q) == a * p - a * q) by (nonlinear_arith);
}

/// `(x * y) * z == x * (y * z)`.
pub(crate) proof fn lemma_assoc(x: int, y: int, z: int)
    ensures
        (x * y) * z == x * (y * z),
{
    lemma_mul_is_associative(x, y, z);
}

/// `x * (y * z) == z * (y * x)`.
pub(crate) proof fn lemma_reverse3(x: int, y: int, z: int)
    ensures
        x * (y * z) == z * (y * x),
{
    lemma_mul_is_commutative(y, z);
    lemma_mul_is_associative(x, z, y);
    lemma_mul_is_commutative(x * z, y);
    lemma_mul_is_commutative(x, z);
    lemma_mul_is_associative(y, z, x);
    lemma_mul_is_commutative(y, z * x);
    lemma_mul_is_associative(z, x, y);
    lemma_mul_is_commutative(x, y);
    lemma_mul_is_associative(z, y, x);
}

pub(crate) proof fn lemma_comm(x: int, y: int)
    ensures
        x * y == y * x,
{
    lemma_mul_is_commutative(x, y);
}

/// An integer square is zero exactly at zero, and otherwise at least one;
/// it is one exactly at one and minus one.
pub(crate) proof fn lemma_square_cases(x: int)
    ensures
        x * x >= 0,
        x == 0 <==> x * x == 0,
        x != 0 ==> x * x >= 1,
        x * x == 1 <==> (x == 1 || x == -1),
{
    assert(x * x >= 0) by (nonlinear_arith);
    assert(x != 0 ==> x * x >= 1) by (nonlinear_arith);
    assert(x * x == 1 ==> (x == 1 || x == -1)) by (nonlinear_arith);
    assert((x == 1 || x == -1) ==> x * x == 1) by (nonlinear_arith);
    assert(x == 0 ==> x * x == 0) by (nonlinear_arith);
}

pub(crate) proof fn lemma_negated_square(x: int)
    ensures
        (-x) * (-x) == x * x,
{
    assert((-x) * (-x) == x * x) by (nonlinear_arith);
}

} // verus!
