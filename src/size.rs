//! Extents in two and three dimensions. Extents are conventionally
//! non-negative; nothing here enforces it.
use crate::scalar::Scalar;
use vstd::prelude::*;

verus! {

#[derive(Debug, Clone, Copy, PartialEq, Eq)]
pub struct Size2D<N> {
    pub width: N,
    pub height: N,
}

#[derive(Debug, Clone, Copy, PartialEq, Eq)]
pub struct Size3D<N> {
    pub width: N,
    pub height: N,
    pub depth: N,
}

impl<N: Copy> Size2D<N> {
    pub fn new(width: N, height: N) -> (r: Self)
        ensures
            r == (Size2D { width, height }),
    {
        Size2D { width, height }
    }

    pub fn width(&self) -> (r: N)
        ensures
            r == self.width,
    {
        self.width
    }

    pub fn height(&self) -> (r: N)
        ensures
            r == self.height,
    {
        self.height
    }
}

impl<N: Copy> Size3D<N> {
    pub fn new(width: N, height: N, depth: N) -> (r: Self)
        ensures
            r == (Size3D { width, height, depth }),
    {
        Size3D { width, height, depth }
    }

    pub fn width(&self) -> (r: N)
        ensures
            r == self.width,
    {
        self.width
    }

    pub fn height(&self) -> (r: N)
        ensures
            r == self.height,
    {
        self.height
    }

    pub fn depth(&self) -> (r: N)
        ensures
            r == self.depth,
    {
        self.depth
    }
}

impl<N: Scalar> Default for Size2D<N> {
    fn default() -> (r: Self)
        ensures
            r.width.val() == 0,
            r.height.val() == 0,
    {
        Size2D { width: N::zero(), height: N::zero() }
    }
}

impl<N: Scalar> Default for Size3D<N> {
    fn default() -> (r: Self)
        ensures
            r.width.val() == 0,
            r.height.val() == 0,
            r.depth.val() == 0,
    {
        Size3D { width: N::zero(), height: N::zero(), depth: N::zero() }
    }
}

} // verus!
