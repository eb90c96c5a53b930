//! A position in the plane. A point is absolute where a vector is
//! relative: adding a vector moves a point, and subtracting two points
//! yields the vector between them; adding two points is deliberately not
//! offered.

use vstd::prelude::*;
use crate::scalar::fits;
use crate::vector::Vector;

verus! {

/// A position `(x, y)`.
#[derive(Clone, Copy, Debug, PartialEq, Eq, Structural, Hash)]
pub struct Point {
    pub x: i64,
    pub y: i64,
}

impl Point {
    pub fn new(x: i64, y: i64) -> (r: Self)
        ensures
            r == (Point { x, y }),
    {
        Point { x, y }
    }

    /// The origin.
    pub fn zero() -> (r: Self)
        ensures
            r == (Point { x: 0i64, y: 0i64 }),
    {
        Self::new(0, 0)
    }

    /// The displacement of this point from the origin.
    pub fn to_vector(self) -> (r: Vector)
        ensures
            r == (Vector { dx: self.x, dy: self.y }),
    {
        Vector::new(self.x, self.y)
    }

    /// Applies `f` to both coordinates.
    pub fn map<F: Fn(i64) -> i64>(&self, f: F) -> (r: Self)
        requires
            f.requires((self.x,)),
            f.requires((self.y,)),
        ensures
            f.ensures((self.x,), r.x),
            f.ensures((self.y,), r.y),
    {
        Point::new(f(self.x), f(self.y))
    }
}

impl Default for Point {
    /// The origin.
    fn default() -> (r: Self)
        ensures
            r == (Point { x: 0i64, y: 0i64 }),
    {
        Self::zero()
    }
}

impl core::ops::Add<Vector> for Point {
    type Output = Point;

    /// The point displaced by `rhs`.
    fn add(self, rhs: Vector) -> (r: Point) {
        Point { x: self.x + rhs.dx, y: self.y + rhs.dy }
    }
}

impl vstd::std_specs::ops::AddSpecImpl<Vector> for Point {
    open spec fn obeys_add_spec() -> bool {
        true
    }

    open spec fn add_req(self, rhs: Vector) -> bool {
        fits(self.x + rhs.dx) && fits(self.y + rhs.dy)
    }

    open spec fn add_spec(self, rhs: Vector) -> Point {
        Point { x: (self.x + rhs.dx) as i64, y: (self.y + rhs.dy) as i64 }
    }
}

impl core::ops::Sub<Vector> for Point {
    type Output = Point;

    /// The point displaced against `rhs`.
    fn sub(self, rhs: Vector) -> (r: Point) {
        Point { x: self.x - rhs.dx, y: self.y - rhs.dy }
    }
}

impl vstd::std_specs::ops::SubSpecImpl<Vector> for Point {
    open spec fn obeys_sub_spec() -> bool {
        true
    }

    open spec fn sub_req(self, rhs: Vector) -> bool {
        fits(self.x - rhs.dx) && fits(self.y - rhs.dy)
    }

    open spec fn sub_spec(self, rhs: Vector) -> Point {
        Point { x: (self.x - rhs.dx) as i64, y: (self.y - rhs.dy) as i64 }
    }
}

impl core::ops::Sub for Point {
    type Output = Vector;

    /// The displacement from `rhs` to `self`.
    fn sub(self, rhs: Point) -> (r: Vector) {
        Vector { dx: self.x - rhs.x, dy: self.y - rhs.y }
    }
}

impl vstd::std_specs::ops::SubSpecImpl for Point {
    open spec fn obeys_sub_spec() -> bool {
        true
    }

    open spec fn sub_req(self, rhs: Point) -> bool {
        fits(self.x - rhs.x) && fits(self.y - rhs.y)
    }

    open spec fn sub_spec(self, rhs: Point) -> Vector {
        Vector { dx: (self.x - rhs.x) as i64, dy: (self.y - rhs.y) as i64 }
    }
}

} // verus!
