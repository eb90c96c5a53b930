//! A circle as a center and a radius. Containment compares squared
//! distances, which is exact on the integer scalar; the radius may be any
//! scalar, and a negative radius contains nothing.

use vstd::prelude::*;
use crate::point::Point;
use crate::rect::Rect;
use crate::scalar::fits;
use crate::vector::Vector;

verus! {

/// A circle: a center and a radius.
#[derive(Clone, Copy, Debug, PartialEq, Eq, Structural, Hash)]
pub struct Circle {
    pub center: Point,
    pub radius: i64,
}

impl Circle {
    /// Squared-distance containment: the boundary counts as inside, and a
    /// negative radius admits no point at all.
    pub open spec fn spec_contains(self, p: Point) -> bool {
        (p.x - self.center.x) * (p.x - self.center.x) + (p.y - self.center.y) * (p.y
            - self.center.y) <= self.radius * self.radius
    }

    pub fn new(center: Point, radius: i64) -> (r: Self)
        ensures
            r == (Circle { center, radius }),
    {
        Circle { center, radius }
    }

    /// The unit circle at the origin.
    pub fn unit() -> (r: Self)
        ensures
            r == (Circle { center: Point { x: 0i64, y: 0i64 }, radius: 1i64 }),
    {
        Self::new(Point::zero(), 1)
    }

    /// The degenerate circle at the origin with zero radius.
    pub fn zero() -> (r: Self)
        ensures
            r == (Circle { center: Point { x: 0i64, y: 0i64 }, radius: 0i64 }),
    {
        Self::from_radius(0)
    }

    /// A circle of the given radius at the origin.
    pub fn from_radius(radius: i64) -> (r: Self)
        ensures
            r == (Circle { center: Point { x: 0i64, y: 0i64 }, radius }),
    {
        Self::default().with_radius(radius)
    }

    /// A unit-radius circle at the given center.
    pub fn from_center(center: Point) -> (r: Self)
        ensures
            r == (Circle { center, radius: 1i64 }),
    {
        Self::default().with_center(center)
    }

    pub fn with_radius(self, radius: i64) -> (r: Self)
        ensures
            r == (Circle { center: self.center, radius }),
    {
        Circle { center: self.center, radius }
    }

    pub fn with_center(self, center: Point) -> (r: Self)
        ensures
            r == (Circle { center, radius: self.radius }),
    {
        Circle { center, radius: self.radius }
    }

    /// Grows the radius by `by`, keeping the center.
    pub fn add_radius(self, by: i64) -> (r: Self)
        requires
            fits(self.radius + by),
        ensures
            r.center == self.center,
            r.radius == self.radius + by,
    {
        Circle { center: self.center, radius: self.radius + by }
    }

    /// Scales the radius by `coeff`, keeping the center.
    pub fn scale_radius(self, coeff: i64) -> (r: Self)
        requires
            fits(self.radius * coeff),
        ensures
            r.center == self.center,
            r.radius == self.radius * coeff,
    {
        Circle { center: self.center, radius: self.radius * coeff }
    }

    pub fn center(&self) -> (r: Point)
        ensures
            r == self.center,
    {
        self.center
    }

    pub fn radius(&self) -> (r: i64)
        ensures
            r == self.radius,
    {
        self.radius
    }

    pub fn radius_squared(&self) -> (r: i64)
        requires
            fits(self.radius * self.radius),
        ensures
            r == self.radius * self.radius,
    {
        self.radius * self.radius
    }

    /// Whether `point` lies inside or on the circle, by comparing the
    /// squared distance from the center with the squared radius.
    pub fn contains(&self, point: Point) -> (r: bool)
        requires
            fits(point.x - self.center.x),
            fits(point.y - self.center.y),
            fits((point.x - self.center.x) * (point.x - self.center.x)),
            fits((point.y - self.center.y) * (point.y - self.center.y)),
            fits(
                (point.x - self.center.x) * (point.x - self.center.x) + (point.y - self.center.y)
                    * (point.y - self.center.y),
            ),
            fits(self.radius * self.radius),
        ensures
            r == self.spec_contains(point),
    {
        (point - self.center).magnitude_squared() <= self.radius_squared()
    }

    /// The smallest axis-aligned rectangle enclosing the circle: the
    /// center pushed out by the radius on every side.
    pub fn bounding_rect(&self) -> (r: Rect)
        requires
            fits(self.center.x - self.radius),
            fits(self.center.x + self.radius),
            fits(self.center.y - self.radius),
            fits(self.center.y + self.radius),
        ensures
            r.left == self.center.x - self.radius,
            r.top == self.center.y - self.radius,
            r.right == self.center.x + self.radius,
            r.bottom == self.center.y + self.radius,
    {
        Rect {
            left: self.center.x - self.radius,
            top: self.center.y - self.radius,
            right: self.center.x + self.radius,
            bottom: self.center.y + self.radius,
        }
    }

    /// Applies `f` to the center and the radius together; the single
    /// point through which every reshaping operation is expressed.
    pub fn map<F: Fn(Point, i64) -> (Point, i64)>(self, f: F) -> (r: Self)
        requires
            f.requires((self.center, self.radius)),
        ensures
            f.ensures((self.center, self.radius), (r.center, r.radius)),
    {
        let (center, radius) = f(self.center, self.radius);
        Circle::new(center, radius)
    }

    /// Applies `f` to the center, keeping the radius.
    pub fn map_center<F: Fn(Point) -> Point>(self, f: F) -> (r: Self)
        requires
            f.requires((self.center,)),
        ensures
            f.ensures((self.center,), r.center),
            r.radius == self.radius,
    {
        let center = f(self.center);
        Circle { center, radius: self.radius }
    }

    /// Applies `f` to the radius, keeping the center.
    pub fn map_radius<F: Fn(i64) -> i64>(self, f: F) -> (r: Self)
        requires
            f.requires((self.radius,)),
        ensures
            r.center == self.center,
            f.ensures((self.radius,), r.radius),
    {
        let radius = f(self.radius);
        Circle { center: self.center, radius }
    }

    /// Translates the center by `rhs`, keeping the radius; the assigning
    /// form of `+`.
    pub fn add_assign(&mut self, rhs: Vector)
        requires
            fits(old(self).center.x + rhs.dx),
            fits(old(self).center.y + rhs.dy),
        ensures
            final(self).center.x == old(self).center.x + rhs.dx,
            final(self).center.y == old(self).center.y + rhs.dy,
            final(self).radius == old(self).radius,
    {
        self.center = self.center + rhs;
    }

    /// The assigning form of `-`, which moves the center the same way `+`
    /// does.
    pub fn sub_assign(&mut self, rhs: Vector)
        requires
            fits(old(self).center.x + rhs.dx),
            fits(old(self).center.y + rhs.dy),
        ensures
            final(self).center.x == old(self).center.x + rhs.dx,
            final(self).center.y == old(self).center.y + rhs.dy,
            final(self).radius == old(self).radius,
    {
        self.center = self.center + rhs;
    }
}

impl Default for Circle {
    /// The unit circle.
    fn default() -> (r: Self)
        ensures
            r == (Circle { center: Point { x: 0i64, y: 0i64 }, radius: 1i64 }),
    {
        Self::unit()
    }
}

impl core::ops::Add<Vector> for Circle {
    type Output = Circle;

    /// The circle with its center displaced by `rhs`.
    fn add(self, rhs: Vector) -> (r: Circle) {
        Circle { center: self.center + rhs, radius: self.radius }
    }
}

impl vstd::std_specs::ops::AddSpecImpl<Vector> for Circle {
    open spec fn obeys_add_spec() -> bool {
        true
    }

    open spec fn add_req(self, rhs: Vector) -> bool {
        fits(self.center.x + rhs.dx) && fits(self.center.y + rhs.dy)
    }

    open spec fn add_spec(self, rhs: Vector) -> Circle {
        Circle {
            center: Point {
                x: (self.center.x + rhs.dx) as i64,
                y: (self.center.y + rhs.dy) as i64,
            },
            radius: self.radius,
        }
    }
}

impl core::ops::Sub<Vector> for Circle {
    type Output = Circle;

    /// Displaces the center by `rhs` itself, exactly as `+` does: the two
    /// operators translate the same way.
    fn sub(self, rhs: Vector) -> (r: Circle) {
        Circle { center: self.center + rhs, radius: self.radius }
    }
}

impl vstd::std_specs::ops::SubSpecImpl<Vector> for Circle {
    open spec fn obeys_sub_spec() -> bool {
        true
    }

    open spec fn sub_req(self, rhs: Vector) -> bool {
        fits(self.center.x + rhs.dx) && fits(self.center.y + rhs.dy)
    }

    open spec fn sub_spec(self, rhs: Vector) -> Circle {
        Circle {
            center: Point {
                x: (self.center.x + rhs.dx) as i64,
                y: (self.center.y + rhs.dy) as i64,
            },
            radius: self.radius,
        }
    }
}

} // verus!
