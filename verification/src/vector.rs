//! A displacement in the plane: the algebraic core every other type
//! delegates to.

use vstd::prelude::*;
use crate::point::Point;
use crate::scalar::div_i64;
use crate::scalar::div_trunc;
use crate::scalar::fits;
use crate::scalar::rem_i64;
use crate::scalar::rem_trunc;
use crate::size::Size;

verus! {

/// A displacement `(dx, dy)`. Unlike a [`Point`], a vector is relative:
/// adding one to a point moves the point, adding two vectors composes the
/// displacements.
#[derive(Clone, Copy, Debug, PartialEq, Eq, Structural, Hash)]
pub struct Vector {
    pub dx: i64,
    pub dy: i64,
}

/// The dot product of two vectors, as a mathematical integer.
pub open spec fn spec_dot(a: Vector, b: Vector) -> int {
    a.dx * b.dx + a.dy * b.dy
}

/// The squared magnitude of a vector: its dot product with itself.
pub open spec fn spec_magnitude_squared(v: Vector) -> int {
    spec_dot(v, v)
}

impl Vector {
    pub fn new(dx: i64, dy: i64) -> (r: Self)
        ensures
            r == (Vector { dx, dy }),
    {
        Vector { dx, dy }
    }

    /// Both components equal to `d`.
    pub fn uniform(d: i64) -> (r: Self)
        ensures
            r == (Vector { dx: d, dy: d }),
    {
        Self::new(d, d)
    }

    pub fn from_dx(dx: i64) -> (r: Self)
        ensures
            r == (Vector { dx, dy: 0i64 }),
    {
        Vector { dx, dy: 0 }
    }

    pub fn from_dy(dy: i64) -> (r: Self)
        ensures
            r == (Vector { dx: 0i64, dy }),
    {
        Vector { dx: 0, dy }
    }

    /// The zero vector, the additive identity.
    pub fn zero() -> (r: Self)
        ensures
            r == (Vector { dx: 0i64, dy: 0i64 }),
    {
        Self::uniform(0)
    }

    pub fn one() -> (r: Self)
        ensures
            r == (Vector { dx: 1i64, dy: 1i64 }),
    {
        Self::uniform(1)
    }

    pub fn from_array(a: [i64; 2]) -> (r: Self)
        ensures
            r == (Vector { dx: a[0], dy: a[1] }),
    {
        Self::new(a[0], a[1])
    }

    pub fn from_tuple(t: (i64, i64)) -> (r: Self)
        ensures
            r == (Vector { dx: t.0, dy: t.1 }),
    {
        Self::new(t.0, t.1)
    }

    pub fn from_size(size: Size) -> (r: Self)
        ensures
            r == (Vector { dx: size.width, dy: size.height }),
    {
        Self::new(size.width, size.height)
    }

    pub fn with_dx(self, dx: i64) -> (r: Self)
        ensures
            r == (Vector { dx, dy: self.dy }),
    {
        Self::new(dx, self.dy)
    }

    pub fn with_dy(self, dy: i64) -> (r: Self)
        ensures
            r == (Vector { dx: self.dx, dy }),
    {
        Self::new(self.dx, dy)
    }

    pub fn dot_product(self, rhs: Self) -> (r: i64)
        requires
            fits(self.dx * rhs.dx),
            fits(self.dy * rhs.dy),
            fits(self.dx * rhs.dx + self.dy * rhs.dy),
        ensures
            r == spec_dot(self, rhs),
    {
        self.dx * rhs.dx + self.dy * rhs.dy
    }

    /// The squared length of the vector; exact where a square root would
    /// not be.
    pub fn magnitude_squared(self) -> (r: i64)
        requires
            fits(self.dx * self.dx),
            fits(self.dy * self.dy),
            fits(self.dx * self.dx + self.dy * self.dy),
        ensures
            r == spec_magnitude_squared(self),
    {
        self.dot_product(self)
    }

    /// Component-wise product with a size.
    pub fn scaled(self, rhs: Size) -> (r: Self)
        requires
            fits(self.dx * rhs.width),
            fits(self.dy * rhs.height),
        ensures
            r.dx == self.dx * rhs.width,
            r.dy == self.dy * rhs.height,
    {
        Self::new(self.dx * rhs.width(), self.dy * rhs.height())
    }

    /// Rotation by a quarter turn: `(dx, dy)` becomes `(-dy, dx)`.
    pub fn perpendicular(self) -> (r: Self)
        requires
            self.dy != i64::MIN,
        ensures
            r.dx == -self.dy,
            r.dy == self.dx,
    {
        Self::new(-self.dy, self.dx)
    }

    /// The components swapped.
    pub fn yx(self) -> (r: Self)
        ensures
            r == (Vector { dx: self.dy, dy: self.dx }),
    {
        Self::new(self.dy, self.dx)
    }

    /// Applies `f` to both components; the single point through which
    /// every component-wise operation is expressed.
    pub fn map<F: Fn(i64) -> i64>(&self, f: F) -> (r: Self)
        requires
            f.requires((self.dx,)),
            f.requires((self.dy,)),
        ensures
            f.ensures((self.dx,), r.dx),
            f.ensures((self.dy,), r.dy),
    {
        Vector::new(f(self.dx), f(self.dy))
    }

    pub fn map_dx<F: Fn(i64) -> i64>(&self, f: F) -> (r: Self)
        requires
            f.requires((self.dx,)),
        ensures
            f.ensures((self.dx,), r.dx),
            r.dy == self.dy,
    {
        self.with_dx(f(self.dx))
    }

    pub fn map_dy<F: Fn(i64) -> i64>(&self, f: F) -> (r: Self)
        requires
            f.requires((self.dy,)),
        ensures
            r.dx == self.dx,
            f.ensures((self.dy,), r.dy),
    {
        self.with_dy(f(self.dy))
    }

    pub fn to_array(self) -> (r: [i64; 2])
        ensures
            r[0] == self.dx,
            r[1] == self.dy,
    {
        [self.dx, self.dy]
    }

    pub fn to_tuple(self) -> (r: (i64, i64))
        ensures
            r.0 == self.dx,
            r.1 == self.dy,
    {
        (self.dx, self.dy)
    }

    /// The position reached by displacing the origin.
    pub fn to_point(self) -> (r: Point)
        ensures
            r == (Point { x: self.dx, y: self.dy }),
    {
        Point::zero() + self
    }

    pub fn to_size(self) -> (r: Size)
        ensures
            r == (Size { width: self.dx, height: self.dy }),
    {
        Size::new(self.dx, self.dy)
    }

    /// The assigning form of component-wise `+`.
    pub fn add_assign(&mut self, rhs: Vector)
        requires
            fits(old(self).dx + rhs.dx),
            fits(old(self).dy + rhs.dy),
        ensures
            final(self).dx == old(self).dx + rhs.dx,
            final(self).dy == old(self).dy + rhs.dy,
    {
        *self = *self + rhs;
    }

    /// The assigning form of component-wise `-`.
    pub fn sub_assign(&mut self, rhs: Vector)
        requires
            fits(old(self).dx - rhs.dx),
            fits(old(self).dy - rhs.dy),
        ensures
            final(self).dx == old(self).dx - rhs.dx,
            final(self).dy == old(self).dy - rhs.dy,
    {
        *self = *self - rhs;
    }

    /// The assigning form of component-wise `*`.
    pub fn mul_assign(&mut self, rhs: Vector)
        requires
            fits(old(self).dx * rhs.dx),
            fits(old(self).dy * rhs.dy),
        ensures
            final(self).dx == old(self).dx * rhs.dx,
            final(self).dy == old(self).dy * rhs.dy,
    {
        *self = *self * rhs;
    }

    /// The assigning form of component-wise `/`.
    pub fn div_assign(&mut self, rhs: Vector)
        requires
            rhs.dx != 0,
            rhs.dy != 0,
            !(old(self).dx == i64::MIN && rhs.dx == -1),
            !(old(self).dy == i64::MIN && rhs.dy == -1),
        ensures
            final(self).dx == div_trunc(old(self).dx as int, rhs.dx as int),
            final(self).dy == div_trunc(old(self).dy as int, rhs.dy as int),
    {
        self.dx = div_i64(self.dx, rhs.dx);
        self.dy = div_i64(self.dy, rhs.dy);
    }

    /// The assigning form of component-wise `%`.
    pub fn rem_assign(&mut self, rhs: Vector)
        requires
            rhs.dx != 0,
            rhs.dy != 0,
            !(old(self).dx == i64::MIN && rhs.dx == -1),
            !(old(self).dy == i64::MIN && rhs.dy == -1),
        ensures
            final(self).dx == rem_trunc(old(self).dx as int, rhs.dx as int),
            final(self).dy == rem_trunc(old(self).dy as int, rhs.dy as int),
    {
        self.dx = rem_i64(self.dx, rhs.dx);
        self.dy = rem_i64(self.dy, rhs.dy);
    }
}

/// The squared magnitude of a vector is its dot product with itself.
pub proof fn lemma_magnitude_squared_is_self_dot(v: Vector)
    ensures
        spec_magnitude_squared(v) == spec_dot(v, v),
{
}

impl Default for Vector {
    /// The zero vector.
    fn default() -> (r: Self)
        ensures
            r == (Vector { dx: 0i64, dy: 0i64 }),
    {
        Self::zero()
    }
}

impl core::ops::Add for Vector {
    type Output = Vector;

    fn add(self, rhs: Vector) -> (r: Vector) {
        Vector { dx: self.dx + rhs.dx, dy: self.dy + rhs.dy }
    }
}

impl vstd::std_specs::ops::AddSpecImpl for Vector {
    open spec fn obeys_add_spec() -> bool {
        true
    }

    open spec fn add_req(self, rhs: Vector) -> bool {
        fits(self.dx + rhs.dx) && fits(self.dy + rhs.dy)
    }

    open spec fn add_spec(self, rhs: Vector) -> Vector {
        Vector { dx: (self.dx + rhs.dx) as i64, dy: (self.dy + rhs.dy) as i64 }
    }
}

impl core::ops::Sub for Vector {
    type Output = Vector;

    fn sub(self, rhs: Vector) -> (r: Vector) {
        Vector { dx: self.dx - rhs.dx, dy: self.dy - rhs.dy }
    }
}

impl vstd::std_specs::ops::SubSpecImpl for Vector {
    open spec fn obeys_sub_spec() -> bool {
        true
    }

    open spec fn sub_req(self, rhs: Vector) -> bool {
        fits(self.dx - rhs.dx) && fits(self.dy - rhs.dy)
    }

    open spec fn sub_spec(self, rhs: Vector) -> Vector {
        Vector { dx: (self.dx - rhs.dx) as i64, dy: (self.dy - rhs.dy) as i64 }
    }
}

impl core::ops::Mul for Vector {
    type Output = Vector;

    /// Component-wise product.
    fn mul(self, rhs: Vector) -> (r: Vector) {
        Vector { dx: self.dx * rhs.dx, dy: self.dy * rhs.dy }
    }
}

impl vstd::std_specs::ops::MulSpecImpl for Vector {
    open spec fn obeys_mul_spec() -> bool {
        true
    }

    open spec fn mul_req(self, rhs: Vector) -> bool {
        fits(self.dx * rhs.dx) && fits(self.dy * rhs.dy)
    }

    open spec fn mul_spec(self, rhs: Vector) -> Vector {
        Vector { dx: (self.dx * rhs.dx) as i64, dy: (self.dy * rhs.dy) as i64 }
    }
}

impl core::ops::Mul<i64> for Vector {
    type Output = Vector;

    /// Both components scaled by `rhs`.
    fn mul(self, rhs: i64) -> (r: Vector) {
        Vector { dx: self.dx * rhs, dy: self.dy * rhs }
    }
}

impl vstd::std_specs::ops::MulSpecImpl<i64> for Vector {
    open spec fn obeys_mul_spec() -> bool {
        true
    }

    open spec fn mul_req(self, rhs: i64) -> bool {
        fits(self.dx * rhs) && fits(self.dy * rhs)
    }

    open spec fn mul_spec(self, rhs: i64) -> Vector {
        Vector { dx: (self.dx * rhs) as i64, dy: (self.dy * rhs) as i64 }
    }
}

impl core::ops::Div for Vector {
    type Output = Vector;

    /// Component-wise truncating division.
    fn div(self, rhs: Vector) -> (r: Vector) {
        Vector { dx: div_i64(self.dx, rhs.dx), dy: div_i64(self.dy, rhs.dy) }
    }
}

impl vstd::std_specs::ops::DivSpecImpl for Vector {
    open spec fn obeys_div_spec() -> bool {
        true
    }

    open spec fn div_req(self, rhs: Vector) -> bool {
        &&& rhs.dx != 0
        &&& rhs.dy != 0
        &&& !(self.dx == i64::MIN && rhs.dx == -1)
        &&& !(self.dy == i64::MIN && rhs.dy == -1)
    }

    open spec fn div_spec(self, rhs: Vector) -> Vector {
        Vector {
            dx: div_trunc(self.dx as int, rhs.dx as int) as i64,
            dy: div_trunc(self.dy as int, rhs.dy as int) as i64,
        }
    }
}

impl core::ops::Div<i64> for Vector {
    type Output = Vector;

    /// Both components divided by `rhs`, truncating.
    fn div(self, rhs: i64) -> (r: Vector) {
        Vector { dx: div_i64(self.dx, rhs), dy: div_i64(self.dy, rhs) }
    }
}

impl vstd::std_specs::ops::DivSpecImpl<i64> for Vector {
    open spec fn obeys_div_spec() -> bool {
        true
    }

    open spec fn div_req(self, rhs: i64) -> bool {
        &&& rhs != 0
        &&& !(self.dx == i64::MIN && rhs == -1)
        &&& !(self.dy == i64::MIN && rhs == -1)
    }

    open spec fn div_spec(self, rhs: i64) -> Vector {
        Vector {
            dx: div_trunc(self.dx as int, rhs as int) as i64,
            dy: div_trunc(self.dy as int, rhs as int) as i64,
        }
    }
}

impl core::ops::Rem for Vector {
    type Output = Vector;

    /// Component-wise truncating remainder.
    fn rem(self, rhs: Vector) -> (r: Vector) {
        Vector { dx: rem_i64(self.dx, rhs.dx), dy: rem_i64(self.dy, rhs.dy) }
    }
}

impl vstd::std_specs::ops::RemSpecImpl for Vector {
    open spec fn obeys_rem_spec() -> bool {
        true
    }

    open spec fn rem_req(self, rhs: Vector) -> bool {
        &&& rhs.dx != 0
        &&& rhs.dy != 0
        &&& !(self.dx == i64::MIN && rhs.dx == -1)
        &&& !(self.dy == i64::MIN && rhs.dy == -1)
    }

    open spec fn rem_spec(self, rhs: Vector) -> Vector {
        Vector {
            dx: rem_trunc(self.dx as int, rhs.dx as int) as i64,
            dy: rem_trunc(self.dy as int, rhs.dy as int) as i64,
        }
    }
}

impl core::ops::Rem<i64> for Vector {
    type Output = Vector;

    /// Both components reduced modulo `rhs`, truncating.
    fn rem(self, rhs: i64) -> (r: Vector) {
        Vector { dx: rem_i64(self.dx, rhs), dy: rem_i64(self.dy, rhs) }
    }
}

impl vstd::std_specs::ops::RemSpecImpl<i64> for Vector {
    open spec fn obeys_rem_spec() -> bool {
        true
    }

    open spec fn rem_req(self, rhs: i64) -> bool {
        &&& rhs != 0
        &&& !(self.dx == i64::MIN && rhs == -1)
        &&& !(self.dy == i64::MIN && rhs == -1)
    }

    open spec fn rem_spec(self, rhs: i64) -> Vector {
        Vector {
            dx: rem_trunc(self.dx as int, rhs as int) as i64,
            dy: rem_trunc(self.dy as int, rhs as int) as i64,
        }
    }
}

impl core::ops::Neg for Vector {
    type Output = Vector;

    fn neg(self) -> (r: Vector) {
        Vector { dx: -self.dx, dy: -self.dy }
    }
}

impl vstd::std_specs::ops::NegSpecImpl for Vector {
    open spec fn obeys_neg_spec() -> bool {
        true
    }

    open spec fn neg_req(self) -> bool {
        self.dx != i64::MIN && self.dy != i64::MIN
    }

    open spec fn neg_spec(self) -> Vector {
        Vector { dx: (-self.dx) as i64, dy: (-self.dy) as i64 }
    }
}

} // verus!
