//! Quaternions, stored as (x, y, z, w): the vector part, then the scalar part.
//!
//! A rotation by angle θ about a unit axis `a` is the quaternion
//! `(sin(θ/2)·a, cos(θ/2))`. Products follow the Hamilton rules
//! `i² = j² = k² = ijk = −1`, so `(p.mul(q))` rotates by `q` first, then `p`.
use crate::arith::{lemma_negated_square, lemma_square_cases};
use crate::scalar::Scalar;
use crate::vec::{add3, cross3, cross3_fits, dot3, dot3_fits, scale3, V3, V4, Vec3};
use vstd::prelude::*;

verus! {

/// The Hamilton product `a · b` of exact quaternions (x, y, z, w).
pub open spec fn qmul(a: V4, b: V4) -> V4 {
    (
        a.3 * b.0 + a.0 * b.3 + a.1 * b.2 - a.2 * b.1,
        a.3 * b.1 - a.0 * b.2 + a.1 * b.3 + a.2 * b.0,
        a.3 * b.2 + a.0 * b.1 - a.1 * b.0 + a.2 * b.3,
        a.3 * b.3 - a.0 * b.0 - a.1 * b.1 - a.2 * b.2,
    )
}

/// The conjugate: the vector part negated.
pub open spec fn qconj(q: V4) -> V4 {
    (-q.0, -q.1, -q.2, q.3)
}

/// The squared norm.
pub open spec fn qnorm(q: V4) -> int {
    q.0 * q.0 + q.1 * q.1 + q.2 * q.2 + q.3 * q.3
}

/// The pure quaternion `(v, 0)`.
pub open spec fn qpure(v: V3) -> V4 {
    (v.0, v.1, v.2, 0)
}

/// The vector part.
pub open spec fn qvec(q: V4) -> V3 {
    (q.0, q.1, q.2)
}

/// The closed form of the rotation of `v` by `q`, with `b` the vector part
/// of `q` and `w` its scalar part:
/// `v·(w² − |b|²) + b·(2·(v·b)) + (b × v)·(2·w)`.
/// For a unit quaternion it is the vector part of `q · (v, 0) · conj(q)`
/// ([`lemma_sandwich_matches_closed_form`]).
pub open spec fn qrotate(q: V4, v: V3) -> V3 {
    let b = qvec(q);
    add3(
        add3(scale3(v, q.3 * q.3 - dot3(b, b)), scale3(b, 2 * dot3(v, b))),
        scale3(cross3(b, v), 2 * q.3),
    )
}

/// Whether each of the sixteen products `a.i * b.j` is representable.
pub open spec fn products_fit<T: Scalar>(a: V4, b: V4) -> bool {
    &&& T::fits(a.0 * b.0) &&& T::fits(a.0 * b.1) &&& T::fits(a.0 * b.2) &&& T::fits(a.0 * b.3)
    &&& T::fits(a.1 * b.0) &&& T::fits(a.1 * b.1) &&& T::fits(a.1 * b.2) &&& T::fits(a.1 * b.3)
    &&& T::fits(a.2 * b.0) &&& T::fits(a.2 * b.1) &&& T::fits(a.2 * b.2) &&& T::fits(a.2 * b.3)
    &&& T::fits(a.3 * b.0) &&& T::fits(a.3 * b.1) &&& T::fits(a.3 * b.2) &&& T::fits(a.3 * b.3)
}

/// Whether the Hamilton product `a · b`, computed term by term from left to
/// right, stays within the range of `T`.
pub open spec fn qmul_fits<T: Scalar>(a: V4, b: V4) -> bool {
    &&& products_fit::<T>(a, b)
    &&& T::fits(a.3 * b.0 + a.0 * b.3)
    &&& T::fits(a.3 * b.0 + a.0 * b.3 + a.1 * b.2)
    &&& T::fits(qmul(a, b).0)
    &&& T::fits(a.3 * b.1 - a.0 * b.2)
    &&& T::fits(a.3 * b.1 - a.0 * b.2 + a.1 * b.3)
    &&& T::fits(qmul(a, b).1)
    &&& T::fits(a.3 * b.2 + a.0 * b.1)
    &&& T::fits(a.3 * b.2 + a.0 * b.1 - a.1 * b.0)
    &&& T::fits(qmul(a, b).2)
    &&& T::fits(a.3 * b.3 - a.0 * b.0)
    &&& T::fits(a.3 * b.3 - a.0 * b.0 - a.1 * b.1)
    &&& T::fits(qmul(a, b).3)
}

/// Whether the closed form [`qrotate`] can be computed in `T`, term by term.
pub open spec fn qrotate_fits<T: Scalar>(q: V4, v: V3) -> bool {
    let b = qvec(q);
    let s = q.3 * q.3 - dot3(b, b);
    let d = 2 * dot3(v, b);
    let c = cross3(b, v);
    let t1 = scale3(v, s);
    let t2 = scale3(b, d);
    let t3 = scale3(c, 2 * q.3);
    &&& dot3_fits::<T>(b, b)
    &&& T::fits(q.3 * q.3)
    &&& T::fits(s)
    &&& dot3_fits::<T>(v, b)
    &&& T::fits(d)
    &&& cross3_fits::<T>(b, v)
    &&& T::fits(2 * q.3)
    &&& T::fits(t1.0) &&& T::fits(t1.1) &&& T::fits(t1.2)
    &&& T::fits(t2.0) &&& T::fits(t2.1) &&& T::fits(t2.2)
    &&& T::fits(t3.0) &&& T::fits(t3.1) &&& T::fits(t3.2)
    &&& T::fits(t1.0 + t2.0) &&& T::fits(t1.1 + t2.1) &&& T::fits(t1.2 + t2.2)
    &&& T::fits(qrotate(q, v).0) &&& T::fits(qrotate(q, v).1) &&& T::fits(qrotate(q, v).2)
}

/// An integer quaternion of norm one has a single non-zero component, and
/// that component is one or minus one.
pub proof fn lemma_unit_cases(q: V4)
    requires
        qnorm(q) == 1,
    ensures
        q == (1int, 0int, 0int, 0int) || q == (-1int, 0int, 0int, 0int) || q == (0int, 1int, 0int, 0int)
            || q == (0int, -1int, 0int, 0int) || q == (0int, 0int, 1int, 0int) || q == (
            0int,
            0int,
            -1int,
            0int,
        ) || q == (0int, 0int, 0int, 1int) || q == (0int, 0int, 0int, -1int),
{
    lemma_square_cases(q.0);
    lemma_square_cases(q.1);
    lemma_square_cases(q.2);
    lemma_square_cases(q.3);
}

/// Rotating by a unit quaternion keeps the squared length of a vector:
/// `|qrotate(q, v)|² == |v|²` whenever `|q|² == 1`.
pub proof fn lemma_rotation_keeps_length<T: Scalar>(q: Quat<T>, v: Vec3<T>)
    requires
        qnorm(q@) == 1,
    ensures
        dot3(qrotate(q@, v@), qrotate(q@, v@)) == dot3(v@, v@),
{
    let (a, b, c) = v@;
    lemma_unit_cases(q@);
    lemma_negated_square(a);
    lemma_negated_square(b);
    lemma_negated_square(c);
    if q@ == (1int, 0int, 0int, 0int) || q@ == (-1int, 0int, 0int, 0int) {
        assert(qrotate((1int, 0int, 0int, 0int), (a, b, c)) == (a, -b, -c)) by (nonlinear_arith);
        assert(qrotate((-1int, 0int, 0int, 0int), (a, b, c)) == (a, -b, -c)) by (nonlinear_arith);
    } else if q@ == (0int, 1int, 0int, 0int) || q@ == (0int, -1int, 0int, 0int) {
        assert(qrotate((0int, 1int, 0int, 0int), (a, b, c)) == (-a, b, -c)) by (nonlinear_arith);
        assert(qrotate((0int, -1int, 0int, 0int), (a, b, c)) == (-a, b, -c)) by (nonlinear_arith);
    } else if q@ == (0int, 0int, 1int, 0int) || q@ == (0int, 0int, -1int, 0int) {
        assert(qrotate((0int, 0int, 1int, 0int), (a, b, c)) == (-a, -b, c)) by (nonlinear_arith);
        assert(qrotate((0int, 0int, -1int, 0int), (a, b, c)) == (-a, -b, c)) by (nonlinear_arith);
    } else {
        assert(qrotate((0int, 0int, 0int, 1int), (a, b, c)) == (a, b, c)) by (nonlinear_arith);
        assert(qrotate((0int, 0int, 0int, -1int), (a, b, c)) == (a, b, c)) by (nonlinear_arith);
    }
}

/// For a unit quaternion the two formulations of a rotation agree: the
/// product `q · (v, 0) · conj(q)` is the pure quaternion whose vector part is
/// the closed form [`qrotate`].
pub proof fn lemma_sandwich_matches_closed_form<T: Scalar>(q: Quat<T>, v: Vec3<T>)
    requires
        qnorm(q@) == 1,
    ensures
        qmul(qmul(q@, qpure(v@)), qconj(q@)) == qpure(qrotate(q@, v@)),
{
    let (a, b, c) = v@;
    lemma_unit_cases(q@);
    if q@ == (1int, 0int, 0int, 0int) || q@ == (-1int, 0int, 0int, 0int) {
        assert(qrotate((1int, 0int, 0int, 0int), (a, b, c)) == (a, -b, -c)) by (nonlinear_arith);
        assert(qrotate((-1int, 0int, 0int, 0int), (a, b, c)) == (a, -b, -c)) by (nonlinear_arith);
        assert(qmul(qmul((1int, 0int, 0int, 0int), (a, b, c, 0int)), (-1int, 0int, 0int, 0int))
            == (a, -b, -c, 0int)) by (nonlinear_arith);
        assert(qmul(qmul((-1int, 0int, 0int, 0int), (a, b, c, 0int)), (1int, 0int, 0int, 0int))
            == (a, -b, -c, 0int)) by (nonlinear_arith);
    } else if q@ == (0int, 1int, 0int, 0int) || q@ == (0int, -1int, 0int, 0int) {
        assert(qrotate((0int, 1int, 0int, 0int), (a, b, c)) == (-a, b, -c)) by (nonlinear_arith);
        assert(qrotate((0int, -1int, 0int, 0int), (a, b, c)) == (-a, b, -c)) by (nonlinear_arith);
        assert(qmul(qmul((0int, 1int, 0int, 0int), (a, b, c, 0int)), (0int, -1int, 0int, 0int))
            == (-a, b, -c, 0int)) by (nonlinear_arith);
        assert(qmul(qmul((0int, -1int, 0int, 0int), (a, b, c, 0int)), (0int, 1int, 0int, 0int))
            == (-a, b, -c, 0int)) by (nonlinear_arith);
    } else if q@ == (0int, 0int, 1int, 0int) || q@ == (0int, 0int, -1int, 0int) {
        assert(qrotate((0int, 0int, 1int, 0int), (a, b, c)) == (-a, -b, c)) by (nonlinear_arith);
        assert(qrotate((0int, 0int, -1int, 0int), (a, b, c)) == (-a, -b, c)) by (nonlinear_arith);
        assert(qmul(qmul((0int, 0int, 1int, 0int), (a, b, c, 0int)), (0int, 0int, -1int, 0int))
            == (-a, -b, c, 0int)) by (nonlinear_arith);
        assert(qmul(qmul((0int, 0int, -1int, 0int), (a, b, c, 0int)), (0int, 0int, 1int, 0int))
            == (-a, -b, c, 0int)) by (nonlinear_arith);
    } else {
        assert(qrotate((0int, 0int, 0int, 1int), (a, b, c)) == (a, b, c)) by (nonlinear_arith);
        assert(qrotate((0int, 0int, 0int, -1int), (a, b, c)) == (a, b, c)) by (nonlinear_arith);
        assert(qmul(qmul((0int, 0int, 0int, 1int), (a, b, c, 0int)), (0int, 0int, 0int, 1int))
            == (a, b, c, 0int)) by (nonlinear_arith);
        assert(qmul(qmul((0int, 0int, 0int, -1int), (a, b, c, 0int)), (0int, 0int, 0int, -1int))
            == (a, b, c, 0int)) by (nonlinear_arith);
    }
}

#[derive(Debug, Clone, Copy, PartialEq, Eq)]
pub struct Quat<T> {
    pub x: T,
    pub y: T,
    pub z: T,
    pub w: T,
}

impl<T: Scalar> View for Quat<T> {
    type V = V4;

    open spec fn view(&self) -> V4 {
        (self.x.val(), self.y.val(), self.z.val(), self.w.val())
    }
}

impl<T: Copy> Quat<T> {
    pub fn from_parts(x: T, y: T, z: T, w: T) -> (r: Self)
        ensures
            r == (Quat { x, y, z, w }),
    {
        Quat { x, y, z, w }
    }

    /// Reads (x, y, z, w) from an array in that order.
    pub fn from_array(data: [T; 4]) -> (r: Self)
        ensures
            r == (Quat { x: data@[0], y: data@[1], z: data@[2], w: data@[3] }),
    {
        Quat { x: data[0], y: data[1], z: data[2], w: data[3] }
    }

    pub fn x(&self) -> (r: T)
        ensures
            r == self.x,
    {
        self.x
    }

    pub fn y(&self) -> (r: T)
        ensures
            r == self.y,
    {
        self.y
    }

    pub fn z(&self) -> (r: T)
        ensures
            r == self.z,
    {
        self.z
    }

    pub fn w(&self) -> (r: T)
        ensures
            r == self.w,
    {
        self.w
    }

    /// The vector part (x, y, z).
    pub fn vector_component(&self) -> (r: Vec3<T>)
        ensures
            r == (Vec3 { x: self.x, y: self.y, z: self.z }),
    {
        Vec3::new(self.x, self.y, self.z)
    }

    /// The scalar part w.
    pub fn scalar_component(&self) -> (r: T)
        ensures
            r == self.w,
    {
        self.w
    }
}

impl<T: Scalar> Quat<T> {
    pub fn magnitude_squared(&self) -> (r: T)
        requires
            crate::vec::dot4_fits::<T>(self@, self@),
        ensures
            r.val() == qnorm(self@),
    {
        self.x.times(self.x).plus(self.y.times(self.y)).plus(self.z.times(self.z)).plus(
            self.w.times(self.w),
        )
    }

    /// The conjugate: the vector part negated, the scalar part kept. It is
    /// the inverse of a unit quaternion; for any other it is not divided by
    /// the squared norm.
    pub fn inverse(self) -> (r: Self)
        requires
            T::fits(-self@.0),
            T::fits(-self@.1),
            T::fits(-self@.2),
        ensures
            r@ == qconj(self@),
    {
        Quat {
            x: T::zero().minus(self.x),
            y: T::zero().minus(self.y),
            z: T::zero().minus(self.z),
            w: self.w,
        }
    }

    /// Rotates `vec` by this quaternion, taken to be of unit length, by the
    /// closed form [`qrotate`]. The quaternion is not normalised first: the
    /// formula is applied to it as it stands.
    pub fn rotate_vector(&self, vec: Vec3<T>) -> (r: Vec3<T>)
        requires
            qrotate_fits::<T>(self@, vec@),
        ensures
            r@ == qrotate(self@, vec@),
    {
        let b = self.vector_component();
        let s = self.w.times(self.w).minus(b.magnitude_squared());
        let vb = vec.dot(&b);
        let d = vb.plus(vb);
        let w2 = self.w.plus(self.w);
        vec.mul(s).add(b.mul(d)).add(b.cross(&vec).mul(w2))
    }

    /// The Hamilton product `self · rhs`.
    pub fn mul(self, rhs: Self) -> (r: Self)
        requires
            qmul_fits::<T>(self@, rhs@),
        ensures
            r@ == qmul(self@, rhs@),
    {
        let a = self;
        let b = rhs;
        Quat {
            x: a.w.times(b.x).plus(a.x.times(b.w)).plus(a.y.times(b.z)).minus(a.z.times(b.y)),
            y: a.w.times(b.y).minus(a.x.times(b.z)).plus(a.y.times(b.w)).plus(a.z.times(b.x)),
            z: a.w.times(b.z).plus(a.x.times(b.y)).minus(a.y.times(b.x)).plus(a.z.times(b.w)),
            w: a.w.times(b.w).minus(a.x.times(b.x)).minus(a.y.times(b.y)).minus(a.z.times(b.z)),
        }
    }
}

impl<T: Copy> From<[T; 4]> for Quat<T> {
    fn from(data: [T; 4]) -> (r: Self) {
        Quat::from_array(data)
    }
}

impl<T: Copy> vstd::std_specs::convert::FromSpecImpl<[T; 4]> for Quat<T> {
    open spec fn obeys_from_spec() -> bool {
        true
    }

    open spec fn from_spec(data: [T; 4]) -> Self {
        Quat { x: data@[0], y: data@[1], z: data@[2], w: data@[3] }
    }
}

} // verus!
