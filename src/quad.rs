//! Axis-aligned quadrilateral faces in three dimensions.
use crate::point::Point3D;
use crate::scalar::Scalar;
use crate::size::Size2D;
use vstd::prelude::*;

verus! {

/// A quadrilateral face lying in the plane `z = depth`, axis-aligned and
/// stored by its edges like a rectangle.
#[derive(Debug, Clone, Copy, PartialEq, Eq)]
pub struct Quad3D<N> {
    pub top: N,
    pub right: N,
    pub bottom: N,
    pub left: N,
    pub depth: N,
}

impl<N: Copy> Quad3D<N> {
    pub fn from_top_right_bottom_left_depth(top: N, right: N, bottom: N, left: N, depth: N) -> (r:
        Self)
        ensures
            r == (Quad3D { top, right, bottom, left, depth }),
    {
        Quad3D { top, right, bottom, left, depth }
    }

    pub fn top(&self) -> (r: N)
        ensures
            r == self.top,
    {
        self.top
    }

    pub fn right(&self) -> (r: N)
        ensures
            r == self.right,
    {
        self.right
    }

    pub fn bottom(&self) -> (r: N)
        ensures
            r == self.bottom,
    {
        self.bottom
    }

    pub fn left(&self) -> (r: N)
        ensures
            r == self.left,
    {
        self.left
    }

    pub fn depth(&self) -> (r: N)
        ensures
            r == self.depth,
    {
        self.depth
    }

    pub fn top_left(&self) -> (r: Point3D<N>)
        ensures
            r == (Point3D { x: self.left, y: self.top, z: self.depth }),
    {
        Point3D::new(self.left, self.top, self.depth)
    }

    pub fn top_right(&self) -> (r: Point3D<N>)
        ensures
            r == (Point3D { x: self.right, y: self.top, z: self.depth }),
    {
        Point3D::new(self.right, self.top, self.depth)
    }

    pub fn bottom_left(&self) -> (r: Point3D<N>)
        ensures
            r == (Point3D { x: self.left, y: self.bottom, z: self.depth }),
    {
        Point3D::new(self.left, self.bottom, self.depth)
    }

    pub fn bottom_right(&self) -> (r: Point3D<N>)
        ensures
            r == (Point3D { x: self.right, y: self.bottom, z: self.depth }),
    {
        Point3D::new(self.right, self.bottom, self.depth)
    }
}

impl<N: Scalar> Quad3D<N> {
    /// The rectangle in the plane `z = top_left.z` with top-left corner
    /// `top_left` and extent `size`.
    pub fn from_top_left(top_left: Point3D<N>, size: Size2D<N>) -> (r: Self)
        requires
            N::fits(top_left.x.val() + size.width.val()),
            N::fits(top_left.y.val() + size.height.val()),
        ensures
            r.top == top_left.y,
            r.left == top_left.x,
            r.depth == top_left.z,
            r.right.val() == top_left.x.val() + size.width.val(),
            r.bottom.val() == top_left.y.val() + size.height.val(),
    {
        Self::from_top_right_bottom_left_depth(
            top_left.y,
            top_left.x.plus(size.width),
            top_left.y.plus(size.height),
            top_left.x,
            top_left.z,
        )
    }
}

} // verus!
