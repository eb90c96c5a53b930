//! A width/height pair. Non-negative by convention, not by enforcement:
//! the layout operations that consume a size document what a negative
//! extent means for them.

use vstd::prelude::*;
use crate::scalar::div_i64;
use crate::scalar::div_trunc;
use crate::scalar::fits;
use crate::vector::Vector;

verus! {

/// An extent `(width, height)`.
#[derive(Clone, Copy, Debug, PartialEq, Eq, Structural, Hash)]
pub struct Size {
    pub width: i64,
    pub height: i64,
}

impl Size {
    pub fn new(width: i64, height: i64) -> (r: Self)
        ensures
            r == (Size { width, height }),
    {
        Size { width, height }
    }

    pub fn zero() -> (r: Self)
        ensures
            r == (Size { width: 0i64, height: 0i64 }),
    {
        Self::new(0, 0)
    }

    pub fn width(&self) -> (r: i64)
        ensures
            r == self.width,
    {
        self.width
    }

    pub fn height(&self) -> (r: i64)
        ensures
            r == self.height,
    {
        self.height
    }

    /// Width over height, truncating. The caller guards a zero height.
    pub fn aspect_ratio(&self) -> (r: i64)
        requires
            self.height != 0,
            !(self.width == i64::MIN && self.height == -1),
        ensures
            r == div_trunc(self.width as int, self.height as int),
    {
        div_i64(self.width, self.height)
    }

    /// Both extents scaled by `coeff`.
    pub fn scaled(self, coeff: i64) -> (r: Self)
        requires
            fits(self.width * coeff),
            fits(self.height * coeff),
        ensures
            r.width == self.width * coeff,
            r.height == self.height * coeff,
    {
        Size::new(self.width * coeff, self.height * coeff)
    }

    /// The displacement whose components are this size's extents.
    pub fn to_vector(self) -> (r: Vector)
        ensures
            r == (Vector { dx: self.width, dy: self.height }),
    {
        Vector::new(self.width, self.height)
    }
}

impl Default for Size {
    /// The empty size.
    fn default() -> (r: Self)
        ensures
            r == (Size { width: 0i64, height: 0i64 }),
    {
        Self::zero()
    }
}

} // verus!
