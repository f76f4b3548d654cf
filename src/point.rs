//! Points in two and three dimensions.
use crate::scalar::Scalar;
use vstd::prelude::*;

verus! {

#[derive(Debug, Clone, Copy, PartialEq, Eq)]
pub struct Point2D<N> {
    pub x: N,
    pub y: N,
}

#[derive(Debug, Clone, Copy, PartialEq, Eq)]
pub struct Point3D<N> {
    pub x: N,
    pub y: N,
    pub z: N,
}

impl<N: Copy> Point2D<N> {
    pub fn new(x: N, y: N) -> (r: Self)
        ensures
            r == (Point2D { x, y }),
    {
        Point2D { x, y }
    }

    pub fn x(&self) -> (r: N)
        ensures
            r == self.x,
    {
        self.x
    }

    pub fn y(&self) -> (r: N)
        ensures
            r == self.y,
    {
        self.y
    }
}

impl<N: Scalar> Point2D<N> {
    /// The origin.
    pub fn zero() -> (r: Self)
        ensures
            r.x.val() == 0,
            r.y.val() == 0,
    {
        Point2D { x: N::zero(), y: N::zero() }
    }

    /// The offset from `rhs` to `self`, component by component.
    pub fn sub(self, rhs: Self) -> (r: Self)
        requires
            N::fits(self.x.val() - rhs.x.val()),
            N::fits(self.y.val() - rhs.y.val()),
        ensures
            r.x.val() == self.x.val() - rhs.x.val(),
            r.y.val() == self.y.val() - rhs.y.val(),
    {
        Point2D { x: self.x.minus(rhs.x), y: self.y.minus(rhs.y) }
    }
}

impl<N: Copy> Point3D<N> {
    pub fn new(x: N, y: N, z: N) -> (r: Self)
        ensures
            r == (Point3D { x, y, z }),
    {
        Point3D { x, y, z }
    }

    pub fn x(&self) -> (r: N)
        ensures
            r == self.x,
    {
        self.x
    }

    pub fn y(&self) -> (r: N)
        ensures
            r == self.y,
    {
        self.y
    }

    pub fn z(&self) -> (r: N)
        ensures
            r == self.z,
    {
        self.z
    }
}

impl<N: Scalar> Default for Point2D<N> {
    fn default() -> (r: Self)
        ensures
            r.x.val() == 0,
            r.y.val() == 0,
    {
        Point2D::zero()
    }
}

impl<N: Scalar> Default for Point3D<N> {
    fn default() -> (r: Self)
        ensures
            r.x.val() == 0,
            r.y.val() == 0,
            r.z.val() == 0,
    {
        Point3D { x: N::zero(), y: N::zero(), z: N::zero() }
    }
}

} // verus!
