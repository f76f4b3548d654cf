//! Axis-aligned rectangles, stored by their edges: top, right, bottom, left.
//!
//! x grows to the right and y grows downwards, so a rectangle placed at a
//! top-left corner with a given size has `right = left + width` and
//! `bottom = top + height`. `right ≥ left` and `bottom ≥ top` hold by
//! convention; nothing here enforces them.
use crate::point::{Point2D, Point3D};
use crate::scalar::{lemma_of_val, Scalar};
use crate::size::Size2D;
use vstd::prelude::*;

verus! {

#[derive(Debug, Clone, Copy, PartialEq, Eq)]
pub struct Rect2D<N> {
    pub top: N,
    pub right: N,
    pub bottom: N,
    pub left: N,
}

/// A rectangle lying in the plane `z = depth`.
#[derive(Debug, Clone, Copy, PartialEq, Eq)]
pub struct Rect3D<N> {
    pub top: N,
    pub right: N,
    pub bottom: N,
    pub left: N,
    pub depth: N,
}

impl<N: Copy> Rect2D<N> {
    pub fn from_top_right_bottom_left(top: N, right: N, bottom: N, left: N) -> (r: Self)
        ensures
            r == (Rect2D { top, right, bottom, left }),
    {
        Rect2D { top, right, bottom, left }
    }

    pub fn top(&self) -> (r: N)
        ensures
            r == self.top,
    {
        self.top
    }

    pub fn right(&self) -> (r: N)
        ensures
            r == self.right,
    {
        self.right
    }

    pub fn bottom(&self) -> (r: N)
        ensures
            r == self.bottom,
    {
        self.bottom
    }

    pub fn left(&self) -> (r: N)
        ensures
            r == self.left,
    {
        self.left
    }

    pub fn top_left(&self) -> (r: Point2D<N>)
        ensures
            r == (Point2D { x: self.left, y: self.top }),
    {
        Point2D::new(self.left, self.top)
    }

    pub fn top_right(&self) -> (r: Point2D<N>)
        ensures
            r == (Point2D { x: self.right, y: self.top }),
    {
        Point2D::new(self.right, self.top)
    }

    pub fn bottom_left(&self) -> (r: Point2D<N>)
        ensures
            r == (Point2D { x: self.left, y: self.bottom }),
    {
        Point2D::new(self.left, self.bottom)
    }

    pub fn bottom_right(&self) -> (r: Point2D<N>)
        ensures
            r == (Point2D { x: self.right, y: self.bottom }),
    {
        Point2D::new(self.right, self.bottom)
    }

    /// The top-left corner.
    pub fn offset(&self) -> (r: Point2D<N>)
        ensures
            r == (Point2D { x: self.left, y: self.top }),
    {
        self.top_left()
    }
}

impl<N: Scalar> Rect2D<N> {
    /// The rectangle with top-left corner `top_left` and extent `size`.
    pub fn from_top_left(top_left: Point2D<N>, size: Size2D<N>) -> (r: Self)
        requires
            N::fits(top_left.x.val() + size.width.val()),
            N::fits(top_left.y.val() + size.height.val()),
        ensures
            r.top == top_left.y,
            r.left == top_left.x,
            r.right.val() == top_left.x.val() + size.width.val(),
            r.bottom.val() == top_left.y.val() + size.height.val(),
    {
        Self::from_top_right_bottom_left(
            top_left.y,
            top_left.x.plus(size.width),
            top_left.y.plus(size.height),
            top_left.x,
        )
    }

    /// The same rectangle as [`Rect2D::from_top_left`].
    pub fn from_offset_and_size(offset: Point2D<N>, size: Size2D<N>) -> (r: Self)
        requires
            N::fits(offset.x.val() + size.width.val()),
            N::fits(offset.y.val() + size.height.val()),
        ensures
            r.top == offset.y,
            r.left == offset.x,
            r.right.val() == offset.x.val() + size.width.val(),
            r.bottom.val() == offset.y.val() + size.height.val(),
    {
        Self::from_top_left(offset, size)
    }

    /// The rectangle of extent `size` at the origin.
    pub fn from_size(size: Size2D<N>) -> (r: Self)
        ensures
            r.top.val() == 0,
            r.left.val() == 0,
            r.right == size.width,
            r.bottom == size.height,
    {
        let o = N::zero();
        Self::from_top_right_bottom_left(o, size.width, size.height, o)
    }

    /// The rectangle `width` by `height` at the origin.
    pub fn from_width_height(width: N, height: N) -> (r: Self)
        ensures
            r.top.val() == 0,
            r.left.val() == 0,
            r.right == width,
            r.bottom == height,
    {
        Self::from_size(Size2D::new(width, height))
    }

    pub fn width(&self) -> (r: N)
        requires
            N::fits(self.right.val() - self.left.val()),
        ensures
            r.val() == self.right.val() - self.left.val(),
    {
        self.right.minus(self.left)
    }

    pub fn height(&self) -> (r: N)
        requires
            N::fits(self.bottom.val() - self.top.val()),
        ensures
            r.val() == self.bottom.val() - self.top.val(),
    {
        self.bottom.minus(self.top)
    }

    pub fn size(&self) -> (r: Size2D<N>)
        requires
            N::fits(self.right.val() - self.left.val()),
            N::fits(self.bottom.val() - self.top.val()),
        ensures
            r.width.val() == self.right.val() - self.left.val(),
            r.height.val() == self.bottom.val() - self.top.val(),
    {
        Size2D::new(self.width(), self.height())
    }
}

impl<N: Copy> Rect3D<N> {
    pub fn from_top_right_bottom_left_depth(top: N, right: N, bottom: N, left: N, depth: N) -> (r:
        Self)
        ensures
            r == (Rect3D { top, right, bottom, left, depth }),
    {
        Rect3D { top, right, bottom, left, depth }
    }

    pub fn top_left(&self) -> (r: Point3D<N>)
        ensures
            r == (Point3D { x: self.left, y: self.top, z: self.depth }),
    {
        Point3D::new(self.left, self.top, self.depth)
    }

    pub fn top_right(&self) -> (r: Point3D<N>)
        ensures
            r == (Point3D { x: self.right, y: self.top, z: self.depth }),
    {
        Point3D::new(self.right, self.top, self.depth)
    }

    pub fn bottom_left(&self) -> (r: Point3D<N>)
        ensures
            r == (Point3D { x: self.left, y: self.bottom, z: self.depth }),
    {
        Point3D::new(self.left, self.bottom, self.depth)
    }

    pub fn bottom_right(&self) -> (r: Point3D<N>)
        ensures
            r == (Point3D { x: self.right, y: self.bottom, z: self.depth }),
    {
        Point3D::new(self.right, self.bottom, self.depth)
    }
}

impl<N: Scalar> Rect3D<N> {
    /// The rectangle in the plane `z = top_left.z` with top-left corner
    /// `top_left` and extent `size`.
    pub fn from_top_left(top_left: Point3D<N>, size: Size2D<N>) -> (r: Self)
        requires
            N::fits(top_left.x.val() + size.width.val()),
            N::fits(top_left.y.val() + size.height.val()),
        ensures
            r.top == top_left.y,
            r.left == top_left.x,
            r.depth == top_left.z,
            r.right.val() == top_left.x.val() + size.width.val(),
            r.bottom.val() == top_left.y.val() + size.height.val(),
    {
        Self::from_top_right_bottom_left_depth(
            top_left.y,
            top_left.x.plus(size.width),
            top_left.y.plus(size.height),
            top_left.x,
            top_left.z,
        )
    }
}

impl<N: Scalar> From<Size2D<N>> for Rect2D<N> {
    fn from(size: Size2D<N>) -> (r: Self) {
        let r = Rect2D::from_size(size);
        proof {
            lemma_of_val(r.top);
            lemma_of_val(r.left);
        }
        r
    }
}

impl<N: Scalar> vstd::std_specs::convert::FromSpecImpl<Size2D<N>> for Rect2D<N> {
    open spec fn obeys_from_spec() -> bool {
        true
    }

    open spec fn from_spec(size: Size2D<N>) -> Self {
        Rect2D { top: N::of_int(0), right: size.width, bottom: size.height, left: N::of_int(0) }
    }
}

impl<N: Scalar> Default for Rect2D<N> {
    fn default() -> (r: Self)
        ensures
            r.top.val() == 0,
            r.right.val() == 0,
            r.bottom.val() == 0,
            r.left.val() == 0,
    {
        let o = N::zero();
        Rect2D { top: o, right: o, bottom: o, left: o }
    }
}

impl<N: Scalar> Default for Rect3D<N> {
    fn default() -> (r: Self)
        ensures
            r.top.val() == 0,
            r.right.val() == 0,
            r.bottom.val() == 0,
            r.left.val() == 0,
            r.depth.val() == 0,
    {
        let o = N::zero();
        Rect3D { top: o, right: o, bottom: o, left: o, depth: o }
    }
}

} // verus!
