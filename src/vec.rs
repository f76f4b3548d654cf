//! Two-, three- and four-component vectors.
//!
//! Each vector type stores its components as plain public fields in the
//! order x, y, z, w; that order is the documented field order of the type.
//! The layout operations need only `Copy`; the arithmetic needs a
//! [`Scalar`] element and is specified over the exact integer values of the
//! components (the view `v@`).
use crate::arith::{lemma_comm, lemma_distribute_sub, lemma_reverse3};
use crate::point::{Point2D, Point3D};
use crate::scalar::{lemma_of_val, Scalar};
use vstd::prelude::*;

verus! {

/// The exact value of a two-component vector.
pub type V2 = (int, int);

/// The exact value of a three-component vector.
pub type V3 = (int, int, int);

/// The exact value of a four-component vector.
pub type V4 = (int, int, int, int);

pub open spec fn dot2(a: V2, b: V2) -> int {
    a.0 * b.0 + a.1 * b.1
}

pub open spec fn dot3(a: V3, b: V3) -> int {
    a.0 * b.0 + a.1 * b.1 + a.2 * b.2
}

pub open spec fn dot4(a: V4, b: V4) -> int {
    a.0 * b.0 + a.1 * b.1 + a.2 * b.2 + a.3 * b.3
}

/// The right-handed cross product.
pub open spec fn cross3(a: V3, b: V3) -> V3 {
    (a.1 * b.2 - a.2 * b.1, a.2 * b.0 - a.0 * b.2, a.0 * b.1 - a.1 * b.0)
}

pub open spec fn neg3(a: V3) -> V3 {
    (-a.0, -a.1, -a.2)
}

pub open spec fn add3(a: V3, b: V3) -> V3 {
    (a.0 + b.0, a.1 + b.1, a.2 + b.2)
}

pub open spec fn scale3(a: V3, s: int) -> V3 {
    (a.0 * s, a.1 * s, a.2 * s)
}

/// Whether every partial sum of `a0*b0 + a1*b1`, evaluated left to right,
/// is representable by `T`.
pub open spec fn dot2_fits<T: Scalar>(a: V2, b: V2) -> bool {
    &&& T::fits(a.0 * b.0)
    &&& T::fits(a.1 * b.1)
    &&& T::fits(a.0 * b.0 + a.1 * b.1)
}

/// Whether every partial sum of the three-term dot product is representable.
pub open spec fn dot3_fits<T: Scalar>(a: V3, b: V3) -> bool {
    &&& T::fits(a.0 * b.0)
    &&& T::fits(a.1 * b.1)
    &&& T::fits(a.2 * b.2)
    &&& T::fits(a.0 * b.0 + a.1 * b.1)
    &&& T::fits(a.0 * b.0 + a.1 * b.1 + a.2 * b.2)
}

/// Whether every partial sum of the four-term dot product is representable.
pub open spec fn dot4_fits<T: Scalar>(a: V4, b: V4) -> bool {
    &&& T::fits(a.0 * b.0)
    &&& T::fits(a.1 * b.1)
    &&& T::fits(a.2 * b.2)
    &&& T::fits(a.3 * b.3)
    &&& T::fits(a.0 * b.0 + a.1 * b.1)
    &&& T::fits(a.0 * b.0 + a.1 * b.1 + a.2 * b.2)
    &&& T::fits(a.0 * b.0 + a.1 * b.1 + a.2 * b.2 + a.3 * b.3)
}

/// Whether every product and difference of the cross product is representable.
pub open spec fn cross3_fits<T: Scalar>(a: V3, b: V3) -> bool {
    &&& T::fits(a.1 * b.2)
    &&& T::fits(a.2 * b.1)
    &&& T::fits(a.2 * b.0)
    &&& T::fits(a.0 * b.2)
    &&& T::fits(a.0 * b.1)
    &&& T::fits(a.1 * b.0)
    &&& T::fits(cross3(a, b).0)
    &&& T::fits(cross3(a, b).1)
    &&& T::fits(cross3(a, b).2)
}

/// `a * b + c * d`.
fn sum_of_products<T: Scalar>(a: T, b: T, c: T, d: T) -> (r: T)
    requires
        T::fits(a.val() * b.val()),
        T::fits(c.val() * d.val()),
        T::fits(a.val() * b.val() + c.val() * d.val()),
    ensures
        r.val() == a.val() * b.val() + c.val() * d.val(),
{
    a.times(b).plus(c.times(d))
}

/// `a * b - c * d`.
fn difference_of_products<T: Scalar>(a: T, b: T, c: T, d: T) -> (r: T)
    requires
        T::fits(a.val() * b.val()),
        T::fits(c.val() * d.val()),
        T::fits(a.val() * b.val() - c.val() * d.val()),
    ensures
        r.val() == a.val() * b.val() - c.val() * d.val(),
{
    a.times(b).minus(c.times(d))
}

#[derive(Debug, Clone, Copy, PartialEq, Eq)]
pub struct Vec2<T> {
    pub x: T,
    pub y: T,
}

#[derive(Debug, Clone, Copy, PartialEq, Eq)]
pub struct Vec3<T> {
    pub x: T,
    pub y: T,
    pub z: T,
}

#[derive(Debug, Clone, Copy, PartialEq, Eq)]
pub struct Vec4<T> {
    pub x: T,
    pub y: T,
    pub z: T,
    pub w: T,
}

impl<T: Scalar> View for Vec2<T> {
    type V = V2;

    open spec fn view(&self) -> V2 {
        (self.x.val(), self.y.val())
    }
}

impl<T: Scalar> View for Vec3<T> {
    type V = V3;

    open spec fn view(&self) -> V3 {
        (self.x.val(), self.y.val(), self.z.val())
    }
}

impl<T: Scalar> View for Vec4<T> {
    type V = V4;

    open spec fn view(&self) -> V4 {
        (self.x.val(), self.y.val(), self.z.val(), self.w.val())
    }
}

impl<T: Copy> Vec2<T> {
    pub fn new(x: T, y: T) -> (r: Self)
        ensures
            r.x == x,
            r.y == y,
    {
        Vec2 { x, y }
    }

    pub fn from_array(data: [T; 2]) -> (r: Self)
        ensures
            r.x == data@[0],
            r.y == data@[1],
    {
        Vec2 { x: data[0], y: data[1] }
    }

    pub fn to_array(self) -> (r: [T; 2])
        ensures
            r == [self.x, self.y],
    {
        [self.x, self.y]
    }
}

impl<T: Scalar> Vec2<T> {
    pub fn zero() -> (r: Self)
        ensures
            r@ == (0int, 0int),
    {
        Vec2 { x: T::zero(), y: T::zero() }
    }

    pub fn negate(&self) -> (r: Self)
        requires
            T::fits(-self@.0),
            T::fits(-self@.1),
        ensures
            r@ == (-self@.0, -self@.1),
    {
        Vec2 { x: T::zero().minus(self.x), y: T::zero().minus(self.y) }
    }

    pub fn magnitude_squared(&self) -> (r: T)
        requires
            dot2_fits::<T>(self@, self@),
        ensures
            r.val() == dot2(self@, self@),
    {
        self.dot(self)
    }

    pub fn dot(&self, rhs: &Self) -> (r: T)
        requires
            dot2_fits::<T>(self@, rhs@),
        ensures
            r.val() == dot2(self@, rhs@),
    {
        sum_of_products(self.x, rhs.x, self.y, rhs.y)
    }

    pub fn add(self, rhs: Self) -> (r: Self)
        requires
            T::fits(self@.0 + rhs@.0),
            T::fits(self@.1 + rhs@.1),
        ensures
            r@ == (self@.0 + rhs@.0, self@.1 + rhs@.1),
    {
        Vec2 { x: self.x.plus(rhs.x), y: self.y.plus(rhs.y) }
    }

    pub fn add_assign(&mut self, rhs: Self)
        requires
            T::fits(old(self)@.0 + rhs@.0),
            T::fits(old(self)@.1 + rhs@.1),
        ensures
            final(self)@ == (old(self)@.0 + rhs@.0, old(self)@.1 + rhs@.1),
    {
        *self = self.add(rhs);
    }

    pub fn sub(self, rhs: Self) -> (r: Self)
        requires
            T::fits(self@.0 - rhs@.0),
            T::fits(self@.1 - rhs@.1),
        ensures
            r@ == (self@.0 - rhs@.0, self@.1 - rhs@.1),
    {
        Vec2 { x: self.x.minus(rhs.x), y: self.y.minus(rhs.y) }
    }

    pub fn sub_assign(&mut self, rhs: Self)
        requires
            T::fits(old(self)@.0 - rhs@.0),
            T::fits(old(self)@.1 - rhs@.1),
        ensures
            final(self)@ == (old(self)@.0 - rhs@.0, old(self)@.1 - rhs@.1),
    {
        *self = self.sub(rhs);
    }

    /// Scales every component by `s`.
    pub fn mul(self, s: T) -> (r: Self)
        requires
            T::fits(self@.0 * s.val()),
            T::fits(self@.1 * s.val()),
        ensures
            r@ == (self@.0 * s.val(), self@.1 * s.val()),
    {
        Vec2 { x: self.x.times(s), y: self.y.times(s) }
    }
}

impl<T: Copy> Vec3<T> {
    pub fn new(x: T, y: T, z: T) -> (r: Self)
        ensures
            r.x == x,
            r.y == y,
            r.z == z,
    {
        Vec3 { x, y, z }
    }

    pub fn x(&self) -> (r: T)
        ensures
            r == self.x,
    {
        self.x
    }

    pub fn y(&self) -> (r: T)
        ensures
            r == self.y,
    {
        self.y
    }

    pub fn z(&self) -> (r: T)
        ensures
            r == self.z,
    {
        self.z
    }

    /// The first component, read as a red channel.
    pub fn r(&self) -> (r: T)
        ensures
            r == self.x,
    {
        self.x
    }

    /// The second component, read as a green channel.
    pub fn g(&self) -> (r: T)
        ensures
            r == self.y,
    {
        self.y
    }

    /// The third component, read as a blue channel.
    pub fn b(&self) -> (r: T)
        ensures
            r == self.z,
    {
        self.z
    }

    /// The position of a point.
    pub fn from_point3(p: Point3D<T>) -> (r: Self)
        ensures
            r == (Vec3 { x: p.x, y: p.y, z: p.z }),
    {
        Vec3 { x: p.x, y: p.y, z: p.z }
    }

    pub fn from_array(data: [T; 3]) -> (r: Self)
        ensures
            r.x == data@[0],
            r.y == data@[1],
            r.z == data@[2],
    {
        Vec3 { x: data[0], y: data[1], z: data[2] }
    }

    pub fn to_array(self) -> (r: [T; 3])
        ensures
            r == [self.x, self.y, self.z],
    {
        [self.x, self.y, self.z]
    }
}

impl<T: Scalar> Vec3<T> {
    pub fn zero() -> (r: Self)
        ensures
            r@ == (0int, 0int, 0int),
    {
        Vec3 { x: T::zero(), y: T::zero(), z: T::zero() }
    }

    /// The position of a planar point, lifted into three dimensions with `z = 0`.
    pub fn from_point2(p: Point2D<T>) -> (r: Self)
        ensures
            r.x == p.x,
            r.y == p.y,
            r@.2 == 0,
    {
        Vec3 { x: p.x, y: p.y, z: T::zero() }
    }

    /// A planar vector lifted into three dimensions with `z = 0`.
    pub fn from_vec2(v: Vec2<T>) -> (r: Self)
        ensures
            r.x == v.x,
            r.y == v.y,
            r@.2 == 0,
    {
        Vec3 { x: v.x, y: v.y, z: T::zero() }
    }

    pub fn negate(&self) -> (r: Self)
        requires
            T::fits(-self@.0),
            T::fits(-self@.1),
            T::fits(-self@.2),
        ensures
            r@ == neg3(self@),
    {
        Vec3 { x: T::zero().minus(self.x), y: T::zero().minus(self.y), z: T::zero().minus(self.z) }
    }

    pub fn magnitude_squared(&self) -> (r: T)
        requires
            dot3_fits::<T>(self@, self@),
        ensures
            r.val() == dot3(self@, self@),
    {
        self.dot(self)
    }

    pub fn dot(&self, rhs: &Self) -> (r: T)
        requires
            dot3_fits::<T>(self@, rhs@),
        ensures
            r.val() == dot3(self@, rhs@),
    {
        sum_of_products(self.x, rhs.x, self.y, rhs.y).plus(self.z.times(rhs.z))
    }

    /// The right-handed cross product.
    pub fn cross(&self, rhs: &Self) -> (r: Self)
        requires
            cross3_fits::<T>(self@, rhs@),
        ensures
            r@ == cross3(self@, rhs@),
    {
        Vec3 {
            x: difference_of_products(self.y, rhs.z, self.z, rhs.y),
            y: difference_of_products(self.z, rhs.x, self.x, rhs.z),
            z: difference_of_products(self.x, rhs.y, self.y, rhs.x),
        }
    }

    pub fn add(self, rhs: Self) -> (r: Self)
        requires
            T::fits(self@.0 + rhs@.0),
            T::fits(self@.1 + rhs@.1),
            T::fits(self@.2 + rhs@.2),
        ensures
            r@ == add3(self@, rhs@),
    {
        Vec3 { x: self.x.plus(rhs.x), y: self.y.plus(rhs.y), z: self.z.plus(rhs.z) }
    }

    pub fn add_assign(&mut self, rhs: Self)
        requires
            T::fits(old(self)@.0 + rhs@.0),
            T::fits(old(self)@.1 + rhs@.1),
            T::fits(old(self)@.2 + rhs@.2),
        ensures
            final(self)@ == add3(old(self)@, rhs@),
    {
        *self = self.add(rhs);
    }

    pub fn sub(self, rhs: Self) -> (r: Self)
        requires
            T::fits(self@.0 - rhs@.0),
            T::fits(self@.1 - rhs@.1),
            T::fits(self@.2 - rhs@.2),
        ensures
            r@ == (self@.0 - rhs@.0, self@.1 - rhs@.1, self@.2 - rhs@.2),
    {
        Vec3 { x: self.x.minus(rhs.x), y: self.y.minus(rhs.y), z: self.z.minus(rhs.z) }
    }

    pub fn sub_assign(&mut self, rhs: Self)
        requires
            T::fits(old(self)@.0 - rhs@.0),
            T::fits(old(self)@.1 - rhs@.1),
            T::fits(old(self)@.2 - rhs@.2),
        ensures
            final(self)@ == (old(self)@.0 - rhs@.0, old(self)@.1 - rhs@.1, old(self)@.2 - rhs@.2),
    {
        *self = self.sub(rhs);
    }

    /// Scales every component by `s`.
    pub fn mul(self, s: T) -> (r: Self)
        requires
            T::fits(self@.0 * s.val()),
            T::fits(self@.1 * s.val()),
            T::fits(self@.2 * s.val()),
        ensures
            r@ == scale3(self@, s.val()),
    {
        Vec3 { x: self.x.times(s), y: self.y.times(s), z: self.z.times(s) }
    }
}

impl<T: Copy> Vec4<T> {
    pub fn new(x: T, y: T, z: T, w: T) -> (r: Self)
        ensures
            r.x == x,
            r.y == y,
            r.z == z,
            r.w == w,
    {
        Vec4 { x, y, z, w }
    }

    /// The component at position `i` in the order x, y, z, w.
    pub open spec fn at(self, i: int) -> T {
        if i == 0 {
            self.x
        } else if i == 1 {
            self.y
        } else if i == 2 {
            self.z
        } else {
            self.w
        }
    }

    /// The component at position `idx` in the order x, y, z, w.
    pub fn idx(&self, idx: usize) -> (r: T)
        requires
            idx < 4,
        ensures
            r == self.at(idx as int),
    {
        if idx == 0 {
            self.x
        } else if idx == 1 {
            self.y
        } else if idx == 2 {
            self.z
        } else {
            self.w
        }
    }

    pub fn x(&self) -> (r: T)
        ensures
            r == self.x,
    {
        self.x
    }

    pub fn y(&self) -> (r: T)
        ensures
            r == self.y,
    {
        self.y
    }

    pub fn z(&self) -> (r: T)
        ensures
            r == self.z,
    {
        self.z
    }

    pub fn w(&self) -> (r: T)
        ensures
            r == self.w,
    {
        self.w
    }

    /// The first component, read as a red channel.
    pub fn r(&self) -> (r: T)
        ensures
            r == self.x,
    {
        self.x
    }

    /// The second component, read as a green channel.
    pub fn g(&self) -> (r: T)
        ensures
            r == self.y,
    {
        self.y
    }

    /// The third component, read as a blue channel.
    pub fn b(&self) -> (r: T)
        ensures
            r == self.z,
    {
        self.z
    }

    /// The fourth component, read as an alpha channel.
    pub fn a(&self) -> (r: T)
        ensures
            r == self.w,
    {
        self.w
    }

    pub fn from_array(data: [T; 4]) -> (r: Self)
        ensures
            r.x == data@[0],
            r.y == data@[1],
            r.z == data@[2],
            r.w == data@[3],
    {
        Vec4 { x: data[0], y: data[1], z: data[2], w: data[3] }
    }

    pub fn to_array(self) -> (r: [T; 4])
        ensures
            r == [self.x, self.y, self.z, self.w],
    {
        [self.x, self.y, self.z, self.w]
    }
}

impl<T: Scalar> Vec4<T> {
    pub fn zero() -> (r: Self)
        ensures
            r@ == (0int, 0int, 0int, 0int),
    {
        Vec4 { x: T::zero(), y: T::zero(), z: T::zero(), w: T::zero() }
    }

    /// A planar vector lifted into four dimensions with `z = w = 0`.
    pub fn from_vec2(v: Vec2<T>) -> (r: Self)
        ensures
            r.x == v.x,
            r.y == v.y,
            r@.2 == 0,
            r@.3 == 0,
    {
        Vec4 { x: v.x, y: v.y, z: T::zero(), w: T::zero() }
    }

    /// A point in homogeneous coordinates: the components of `v` with `w = 1`.
    pub fn from_vec3(v: Vec3<T>) -> (r: Self)
        ensures
            r.x == v.x,
            r.y == v.y,
            r.z == v.z,
            r@.3 == 1,
    {
        Vec4 { x: v.x, y: v.y, z: v.z, w: T::one() }
    }

    pub fn negate(&self) -> (r: Self)
        requires
            T::fits(-self@.0),
            T::fits(-self@.1),
            T::fits(-self@.2),
            T::fits(-self@.3),
        ensures
            r@ == (-self@.0, -self@.1, -self@.2, -self@.3),
    {
        Vec4 {
            x: T::zero().minus(self.x),
            y: T::zero().minus(self.y),
            z: T::zero().minus(self.z),
            w: T::zero().minus(self.w),
        }
    }

    pub fn magnitude_squared(&self) -> (r: T)
        requires
            dot4_fits::<T>(self@, self@),
        ensures
            r.val() == dot4(self@, self@),
    {
        self.dot(self)
    }

    /// Whether the vector has length one. Lengths are square roots of
    /// non-negative integers, so this holds exactly when the squared length
    /// is one.
    pub fn is_normal(&self) -> (r: bool)
        requires
            dot4_fits::<T>(self@, self@),
        ensures
            r == (dot4(self@, self@) == 1),
    {
        self.magnitude_squared().equals(&T::one())
    }

    pub fn dot(&self, rhs: &Self) -> (r: T)
        requires
            dot4_fits::<T>(self@, rhs@),
        ensures
            r.val() == dot4(self@, rhs@),
    {
        sum_of_products(self.x, rhs.x, self.y, rhs.y).plus(self.z.times(rhs.z)).plus(
            self.w.times(rhs.w),
        )
    }

    pub fn add(self, rhs: Self) -> (r: Self)
        requires
            T::fits(self@.0 + rhs@.0),
            T::fits(self@.1 + rhs@.1),
            T::fits(self@.2 + rhs@.2),
            T::fits(self@.3 + rhs@.3),
        ensures
            r@ == (self@.0 + rhs@.0, self@.1 + rhs@.1, self@.2 + rhs@.2, self@.3 + rhs@.3),
    {
        Vec4 {
            x: self.x.plus(rhs.x),
            y: self.y.plus(rhs.y),
            z: self.z.plus(rhs.z),
            w: self.w.plus(rhs.w),
        }
    }

    pub fn add_assign(&mut self, rhs: Self)
        requires
            T::fits(old(self)@.0 + rhs@.0),
            T::fits(old(self)@.1 + rhs@.1),
            T::fits(old(self)@.2 + rhs@.2),
            T::fits(old(self)@.3 + rhs@.3),
        ensures
            final(self)@ == (
                old(self)@.0 + rhs@.0,
                old(self)@.1 + rhs@.1,
                old(self)@.2 + rhs@.2,
                old(self)@.3 + rhs@.3,
            ),
    {
        *self = self.add(rhs);
    }

    pub fn sub(self, rhs: Self) -> (r: Self)
        requires
            T::fits(self@.0 - rhs@.0),
            T::fits(self@.1 - rhs@.1),
            T::fits(self@.2 - rhs@.2),
            T::fits(self@.3 - rhs@.3),
        ensures
            r@ == (self@.0 - rhs@.0, self@.1 - rhs@.1, self@.2 - rhs@.2, self@.3 - rhs@.3),
    {
        Vec4 {
            x: self.x.minus(rhs.x),
            y: self.y.minus(rhs.y),
            z: self.z.minus(rhs.z),
            w: self.w.minus(rhs.w),
        }
    }

    pub fn sub_assign(&mut self, rhs: Self)
        requires
            T::fits(old(self)@.0 - rhs@.0),
            T::fits(old(self)@.1 - rhs@.1),
            T::fits(old(self)@.2 - rhs@.2),
            T::fits(old(self)@.3 - rhs@.3),
        ensures
            final(self)@ == (
                old(self)@.0 - rhs@.0,
                old(self)@.1 - rhs@.1,
                old(self)@.2 - rhs@.2,
                old(self)@.3 - rhs@.3,
            ),
    {
        *self = self.sub(rhs);
    }

    /// Scales every component by `s`.
    pub fn mul(self, s: T) -> (r: Self)
        requires
            T::fits(self@.0 * s.val()),
            T::fits(self@.1 * s.val()),
            T::fits(self@.2 * s.val()),
            T::fits(self@.3 * s.val()),
        ensures
            r@ == (self@.0 * s.val(), self@.1 * s.val(), self@.2 * s.val(), self@.3 * s.val()),
    {
        Vec4 {
            x: self.x.times(s),
            y: self.y.times(s),
            z: self.z.times(s),
            w: self.w.times(s),
        }
    }
}

impl<T: Copy> From<[T; 2]> for Vec2<T> {
    fn from(data: [T; 2]) -> (r: Self) {
        Vec2::from_array(data)
    }
}

impl<T: Copy> vstd::std_specs::convert::FromSpecImpl<[T; 2]> for Vec2<T> {
    open spec fn obeys_from_spec() -> bool {
        true
    }

    open spec fn from_spec(data: [T; 2]) -> Self {
        Vec2 { x: data@[0], y: data@[1] }
    }
}

impl<T: Copy> From<Vec2<T>> for [T; 2] {
    fn from(v: Vec2<T>) -> (r: Self) {
        v.to_array()
    }
}

impl<T: Copy> vstd::std_specs::convert::FromSpecImpl<Vec2<T>> for [T; 2] {
    open spec fn obeys_from_spec() -> bool {
        true
    }

    open spec fn from_spec(v: Vec2<T>) -> Self {
        [v.x, v.y]
    }
}

impl<T: Copy> From<[T; 3]> for Vec3<T> {
    fn from(data: [T; 3]) -> (r: Self) {
        Vec3::from_array(data)
    }
}

impl<T: Copy> vstd::std_specs::convert::FromSpecImpl<[T; 3]> for Vec3<T> {
    open spec fn obeys_from_spec() -> bool {
        true
    }

    open spec fn from_spec(data: [T; 3]) -> Self {
        Vec3 { x: data@[0], y: data@[1], z: data@[2] }
    }
}

impl<T: Copy> From<Vec3<T>> for [T; 3] {
    fn from(v: Vec3<T>) -> (r: Self) {
        v.to_array()
    }
}

impl<T: Copy> vstd::std_specs::convert::FromSpecImpl<Vec3<T>> for [T; 3] {
    open spec fn obeys_from_spec() -> bool {
        true
    }

    open spec fn from_spec(v: Vec3<T>) -> Self {
        [v.x, v.y, v.z]
    }
}

impl<T: Copy> From<[T; 4]> for Vec4<T> {
    fn from(data: [T; 4]) -> (r: Self) {
        Vec4::from_array(data)
    }
}

impl<T: Copy> vstd::std_specs::convert::FromSpecImpl<[T; 4]> for Vec4<T> {
    open spec fn obeys_from_spec() -> bool {
        true
    }

    open spec fn from_spec(data: [T; 4]) -> Self {
        Vec4 { x: data@[0], y: data@[1], z: data@[2], w: data@[3] }
    }
}

impl<T: Copy> From<Vec4<T>> for [T; 4] {
    fn from(v: Vec4<T>) -> (r: Self) {
        v.to_array()
    }
}

impl<T: Copy> vstd::std_specs::convert::FromSpecImpl<Vec4<T>> for [T; 4] {
    open spec fn obeys_from_spec() -> bool {
        true
    }

    open spec fn from_spec(v: Vec4<T>) -> Self {
        [v.x, v.y, v.z, v.w]
    }
}

impl<T: Scalar> From<Vec2<T>> for Vec3<T> {
    fn from(v: Vec2<T>) -> (r: Self) {
        let r = Vec3::from_vec2(v);
        proof {
            lemma_of_val(r.z);
        }
        r
    }
}

impl<T: Scalar> vstd::std_specs::convert::FromSpecImpl<Vec2<T>> for Vec3<T> {
    open spec fn obeys_from_spec() -> bool {
        true
    }

    open spec fn from_spec(v: Vec2<T>) -> Self {
        Vec3 { x: v.x, y: v.y, z: T::of_int(0) }
    }
}

impl<T: Scalar> From<Point2D<T>> for Vec3<T> {
    fn from(p: Point2D<T>) -> (r: Self) {
        let r = Vec3::from_point2(p);
        proof {
            lemma_of_val(r.z);
        }
        r
    }
}

impl<T: Scalar> vstd::std_specs::convert::FromSpecImpl<Point2D<T>> for Vec3<T> {
    open spec fn obeys_from_spec() -> bool {
        true
    }

    open spec fn from_spec(p: Point2D<T>) -> Self {
        Vec3 { x: p.x, y: p.y, z: T::of_int(0) }
    }
}

impl<T: Copy> From<Point3D<T>> for Vec3<T> {
    fn from(p: Point3D<T>) -> (r: Self) {
        Vec3::from_point3(p)
    }
}

impl<T: Copy> vstd::std_specs::convert::FromSpecImpl<Point3D<T>> for Vec3<T> {
    open spec fn obeys_from_spec() -> bool {
        true
    }

    open spec fn from_spec(p: Point3D<T>) -> Self {
        Vec3 { x: p.x, y: p.y, z: p.z }
    }
}

impl<T: Scalar> From<Vec2<T>> for Vec4<T> {
    fn from(v: Vec2<T>) -> (r: Self) {
        let r = Vec4::from_vec2(v);
        proof {
            lemma_of_val(r.z);
            lemma_of_val(r.w);
        }
        r
    }
}

impl<T: Scalar> vstd::std_specs::convert::FromSpecImpl<Vec2<T>> for Vec4<T> {
    open spec fn obeys_from_spec() -> bool {
        true
    }

    open spec fn from_spec(v: Vec2<T>) -> Self {
        Vec4 { x: v.x, y: v.y, z: T::of_int(0), w: T::of_int(0) }
    }
}

impl<T: Scalar> From<Vec3<T>> for Vec4<T> {
    fn from(v: Vec3<T>) -> (r: Self) {
        let r = Vec4::from_vec3(v);
        proof {
            lemma_of_val(r.w);
        }
        r
    }
}

impl<T: Scalar> vstd::std_specs::convert::FromSpecImpl<Vec3<T>> for Vec4<T> {
    open spec fn obeys_from_spec() -> bool {
        true
    }

    open spec fn from_spec(v: Vec3<T>) -> Self {
        Vec4 { x: v.x, y: v.y, z: v.z, w: T::of_int(1) }
    }
}

impl<T: Scalar> From<[T; 3]> for Vec4<T> {
    fn from(data: [T; 3]) -> (r: Self) {
        let r = Vec4::from_vec3(Vec3::from_array(data));
        proof {
            lemma_of_val(r.w);
        }
        r
    }
}

impl<T: Scalar> vstd::std_specs::convert::FromSpecImpl<[T; 3]> for Vec4<T> {
    open spec fn obeys_from_spec() -> bool {
        true
    }

    open spec fn from_spec(data: [T; 3]) -> Self {
        Vec4 { x: data@[0], y: data@[1], z: data@[2], w: T::of_int(1) }
    }
}

/// The cross product is anticommutative, `a × b = −(b × a)`, and is
/// perpendicular to its operands: `a · (b × a) = 0`.
pub proof fn lemma_cross_anticommutative<T: Scalar>(a: Vec3<T>, b: Vec3<T>)
    ensures
        cross3(a@, b@) == neg3(cross3(b@, a@)),
        dot3(a@, cross3(b@, a@)) == 0,
{
    let (a0, a1, a2) = a@;
    let (b0, b1, b2) = b@;
    lemma_comm(a1, b2);
    lemma_comm(a2, b1);
    lemma_comm(a2, b0);
    lemma_comm(a0, b2);
    lemma_comm(a0, b1);
    lemma_comm(a1, b0);
    lemma_distribute_sub(a0, b1 * a2, b2 * a1);
    lemma_distribute_sub(a1, b2 * a0, b0 * a2);
    lemma_distribute_sub(a2, b0 * a1, b1 * a0);
    lemma_reverse3(a0, b1, a2);
    lemma_reverse3(a0, b2, a1);
    lemma_reverse3(a1, b0, a2);
}

impl<T: Scalar> Default for Vec2<T> {
    fn default() -> (r: Self)
        ensures
            r@ == (0int, 0int),
    {
        Vec2::zero()
    }
}

impl<T: Scalar> Default for Vec3<T> {
    fn default() -> (r: Self)
        ensures
            r@ == (0int, 0int, 0int),
    {
        Vec3::zero()
    }
}

impl<T: Scalar> Default for Vec4<T> {
    fn default() -> (r: Self)
        ensures
            r@ == (0int, 0int, 0int, 0int),
    {
        Vec4::zero()
    }
}

} // verus!
