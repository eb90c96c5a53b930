//! An axis-aligned rectangle stored as its four edges. Degenerate and
//! inverted rectangles are representable; "empty" means a pair of equal
//! opposite edges, not zero area. `contains` uses half-open intervals, so
//! adjacent rectangles tile the plane without double-counting.

use vstd::prelude::*;
use vstd::math::max;
use vstd::math::min;
use crate::point::Point;
use crate::scalar::div_i64;
use crate::scalar::div_trunc;
use crate::scalar::fits;
use crate::scalar::lerp_half;
use crate::scalar::max_i64;
use crate::scalar::min_i64;
use crate::size::Size;
use crate::vector::Vector;

verus! {

/// An axis-aligned rectangle `(left, top, right, bottom)`, well-formed
/// when `left <= right` and `top <= bottom`.
#[derive(Clone, Copy, Debug, PartialEq, Eq, Structural, Hash)]
pub struct Rect {
    pub left: i64,
    pub top: i64,
    pub right: i64,
    pub bottom: i64,
}

impl Rect {
    /// The signed width, `right - left`.
    pub open spec fn spec_width(self) -> int {
        self.right - self.left
    }

    /// The signed height, `bottom - top`.
    pub open spec fn spec_height(self) -> int {
        self.bottom - self.top
    }

    /// Half-open containment: the right and bottom edges are excluded.
    pub open spec fn spec_contains(self, p: Point) -> bool {
        self.left <= p.x < self.right && self.top <= p.y < self.bottom
    }

    /// A rectangle is empty when either pair of opposite edges coincides.
    pub open spec fn spec_is_empty(self) -> bool {
        self.top == self.bottom || self.left == self.right
    }

    /// The two rectangles overlap on both axes; sharing a single edge or
    /// corner still counts as overlapping.
    pub open spec fn spec_intersects(a: Rect, b: Rect) -> bool {
        max(a.top as int, b.top as int) <= min(a.bottom as int, b.bottom as int)
            && max(a.left as int, b.left as int) <= min(a.right as int, b.right as int)
    }

    /// The common region of two overlapping rectangles.
    pub open spec fn spec_intersection(a: Rect, b: Rect) -> Rect {
        Rect {
            left: max(a.left as int, b.left as int) as i64,
            top: max(a.top as int, b.top as int) as i64,
            right: min(a.right as int, b.right as int) as i64,
            bottom: min(a.bottom as int, b.bottom as int) as i64,
        }
    }

    /// The smallest rectangle enclosing both arguments.
    pub open spec fn spec_union(a: Rect, b: Rect) -> Rect {
        Rect {
            left: min(a.left as int, b.left as int) as i64,
            top: min(a.top as int, b.top as int) as i64,
            right: max(a.right as int, b.right as int) as i64,
            bottom: max(a.bottom as int, b.bottom as int) as i64,
        }
    }

    /// The canonical rectangle spanned by two opposite corners, in either
    /// order.
    pub open spec fn spec_from_points(a: Point, b: Point) -> Rect {
        Rect {
            left: min(a.x as int, b.x as int) as i64,
            top: min(a.y as int, b.y as int) as i64,
            right: max(a.x as int, b.x as int) as i64,
            bottom: max(a.y as int, b.y as int) as i64,
        }
    }

    pub fn with_top_left(top_left: Point, size: Size) -> (r: Self)
        requires
            fits(top_left.x + size.width),
            fits(top_left.y + size.height),
        ensures
            r.left == top_left.x,
            r.top == top_left.y,
            r.right == top_left.x + size.width,
            r.bottom == top_left.y + size.height,
    {
        Rect {
            left: top_left.x,
            top: top_left.y,
            right: top_left.x + size.width,
            bottom: top_left.y + size.height,
        }
    }

    pub fn with_top_right(top_right: Point, size: Size) -> (r: Self)
        requires
            fits(top_right.x - size.width),
            fits(top_right.y + size.height),
        ensures
            r.left == top_right.x - size.width,
            r.top == top_right.y,
            r.right == top_right.x,
            r.bottom == top_right.y + size.height,
    {
        Rect {
            left: top_right.x - size.width,
            top: top_right.y,
            right: top_right.x,
            bottom: top_right.y + size.height,
        }
    }

    pub fn with_bottom_right(bottom_right: Point, size: Size) -> (r: Self)
        requires
            fits(bottom_right.x - size.width),
            fits(bottom_right.y - size.height),
        ensures
            r.left == bottom_right.x - size.width,
            r.top == bottom_right.y - size.height,
            r.right == bottom_right.x,
            r.bottom == bottom_right.y,
    {
        Rect {
            left: bottom_right.x - size.width,
            top: bottom_right.y - size.height,
            right: bottom_right.x,
            bottom: bottom_right.y,
        }
    }

    pub fn with_bottom_left(bottom_left: Point, size: Size) -> (r: Self)
        requires
            fits(bottom_left.x + size.width),
            fits(bottom_left.y - size.height),
        ensures
            r.left == bottom_left.x,
            r.top == bottom_left.y - size.height,
            r.right == bottom_left.x + size.width,
            r.bottom == bottom_left.y,
    {
        Rect {
            left: bottom_left.x,
            top: bottom_left.y - size.height,
            right: bottom_left.x + size.width,
            bottom: bottom_left.y,
        }
    }

    /// Centered on `center`; each half-extent is the truncating half of
    /// the size, so an odd extent loses its last unit.
    pub fn with_center(center: Point, size: Size) -> (r: Self)
        requires
            fits(center.x - div_trunc(size.width as int, 2)),
            fits(center.x + div_trunc(size.width as int, 2)),
            fits(center.y - div_trunc(size.height as int, 2)),
            fits(center.y + div_trunc(size.height as int, 2)),
        ensures
            r.left == center.x - div_trunc(size.width as int, 2),
            r.top == center.y - div_trunc(size.height as int, 2),
            r.right == center.x + div_trunc(size.width as int, 2),
            r.bottom == center.y + div_trunc(size.height as int, 2),
    {
        let half_width: i64 = size.width / 2;
        let half_height: i64 = size.height / 2;
        Rect {
            left: center.x - half_width,
            top: center.y - half_height,
            right: center.x + half_width,
            bottom: center.y + half_height,
        }
    }

    pub fn with_top_center(top_center: Point, size: Size) -> (r: Self)
        requires
            fits(top_center.x - div_trunc(size.width as int, 2)),
            fits(top_center.x + div_trunc(size.width as int, 2)),
            fits(top_center.y + size.height),
        ensures
            r.left == top_center.x - div_trunc(size.width as int, 2),
            r.top == top_center.y,
            r.right == top_center.x + div_trunc(size.width as int, 2),
            r.bottom == top_center.y + size.height,
    {
        let half_width: i64 = size.width / 2;
        Rect {
            left: top_center.x - half_width,
            top: top_center.y,
            right: top_center.x + half_width,
            bottom: top_center.y + size.height,
        }
    }

    pub fn with_bottom_center(bottom_center: Point, size: Size) -> (r: Self)
        requires
            fits(bottom_center.x - div_trunc(size.width as int, 2)),
            fits(bottom_center.x + div_trunc(size.width as int, 2)),
            fits(bottom_center.y - size.height),
        ensures
            r.left == bottom_center.x - div_trunc(size.width as int, 2),
            r.top == bottom_center.y - size.height,
            r.right == bottom_center.x + div_trunc(size.width as int, 2),
            r.bottom == bottom_center.y,
    {
        let half_width: i64 = size.width / 2;
        Rect {
            left: bottom_center.x - half_width,
            top: bottom_center.y - size.height,
            right: bottom_center.x + half_width,
            bottom: bottom_center.y,
        }
    }

    pub fn with_left_center(left_center: Point, size: Size) -> (r: Self)
        requires
            fits(left_center.y - div_trunc(size.height as int, 2)),
            fits(left_center.y + div_trunc(size.height as int, 2)),
            fits(left_center.x + size.width),
        ensures
            r.left == left_center.x,
            r.top == left_center.y - div_trunc(size.height as int, 2),
            r.right == left_center.x + size.width,
            r.bottom == left_center.y + div_trunc(size.height as int, 2),
    {
        let half_height: i64 = size.height / 2;
        Rect {
            left: left_center.x,
            top: left_center.y - half_height,
            right: left_center.x + size.width,
            bottom: left_center.y + half_height,
        }
    }

    pub fn with_right_center(right_center: Point, size: Size) -> (r: Self)
        requires
            fits(right_center.y - div_trunc(size.height as int, 2)),
            fits(right_center.y + div_trunc(size.height as int, 2)),
            fits(right_center.x - size.width),
        ensures
            r.left == right_center.x - size.width,
            r.top == right_center.y - div_trunc(size.height as int, 2),
            r.right == right_center.x,
            r.bottom == right_center.y + div_trunc(size.height as int, 2),
    {
        let half_height: i64 = size.height / 2;
        Rect {
            left: right_center.x - size.width,
            top: right_center.y - half_height,
            right: right_center.x,
            bottom: right_center.y + half_height,
        }
    }

    /// Moves the top edge down to `y` if it lies above it.
    pub fn clipped_above(&self, y: i64) -> (r: Self)
        ensures
            r.top == max(self.top as int, y as int),
            r.left == self.left,
            r.right == self.right,
            r.bottom == self.bottom,
    {
        Rect { left: self.left, top: max_i64(self.top, y), right: self.right, bottom: self.bottom }
    }

    /// Moves the bottom edge up to `y` if it lies below it.
    pub fn clipped_below(&self, y: i64) -> (r: Self)
        ensures
            r.bottom == min(self.bottom as int, y as int),
            r.left == self.left,
            r.top == self.top,
            r.right == self.right,
    {
        Rect { left: self.left, top: self.top, right: self.right, bottom: min_i64(self.bottom, y) }
    }

    /// Moves the left edge right to `x` if it lies before it.
    pub fn clipped_left(&self, x: i64) -> (r: Self)
        ensures
            r.left == max(self.left as int, x as int),
            r.top == self.top,
            r.right == self.right,
            r.bottom == self.bottom,
    {
        Rect { left: max_i64(self.left, x), top: self.top, right: self.right, bottom: self.bottom }
    }

    /// Moves the right edge left to `x` if it lies past it.
    pub fn clipped_right(&self, x: i64) -> (r: Self)
        ensures
            r.right == min(self.right as int, x as int),
            r.left == self.left,
            r.top == self.top,
            r.bottom == self.bottom,
    {
        Rect { left: self.left, top: self.top, right: min_i64(self.right, x), bottom: self.bottom }
    }

    /// Rescales the height by `scale`, keeping the top edge fixed.
    pub fn scaled_from_top(&self, scale: i64) -> (r: Self)
        requires
            fits(self.spec_height()),
            fits(self.spec_height() * scale),
            fits(self.top + self.spec_height() * scale),
        ensures
            r.left == self.left,
            r.top == self.top,
            r.right == self.right,
            r.bottom == self.top + self.spec_height() * scale,
    {
        Rect {
            left: self.left,
            top: self.top,
            right: self.right,
            bottom: self.top + self.height() * scale,
        }
    }

    /// Rescales the height by `scale`, keeping the bottom edge fixed.
    pub fn scaled_from_bottom(&self, scale: i64) -> (r: Self)
        requires
            fits(self.spec_height()),
            fits(self.spec_height() * scale),
            fits(self.bottom - self.spec_height() * scale),
        ensures
            r.left == self.left,
            r.top == self.bottom - self.spec_height() * scale,
            r.right == self.right,
            r.bottom == self.bottom,
    {
        Rect {
            left: self.left,
            top: self.bottom - self.height() * scale,
            right: self.right,
            bottom: self.bottom,
        }
    }

    /// Rescales the width by `scale`, keeping the left edge fixed.
    pub fn scaled_from_left(&self, scale: i64) -> (r: Self)
        requires
            fits(self.spec_width()),
            fits(self.spec_width() * scale),
            fits(self.left + self.spec_width() * scale),
        ensures
            r.left == self.left,
            r.top == self.top,
            r.right == self.left + self.spec_width() * scale,
            r.bottom == self.bottom,
    {
        Rect {
            left: self.left,
            top: self.top,
            right: self.left + self.width() * scale,
            bottom: self.bottom,
        }
    }

    /// Rescales the width by `scale`, keeping the right edge fixed.
    pub fn scaled_from_right(&self, scale: i64) -> (r: Self)
        requires
            fits(self.spec_width()),
            fits(self.spec_width() * scale),
            fits(self.right - self.spec_width() * scale),
        ensures
            r.left == self.right - self.spec_width() * scale,
            r.top == self.top,
            r.right == self.right,
            r.bottom == self.bottom,
    {
        Rect {
            left: self.right - self.width() * scale,
            top: self.top,
            right: self.right,
            bottom: self.bottom,
        }
    }

    pub fn top_left(&self) -> (r: Point)
        ensures
            r == (Point { x: self.left, y: self.top }),
    {
        Point::new(self.left, self.top)
    }

    pub fn top_right(&self) -> (r: Point)
        ensures
            r == (Point { x: self.right, y: self.top }),
    {
        Point::new(self.right, self.top)
    }

    pub fn bottom_left(&self) -> (r: Point)
        ensures
            r == (Point { x: self.left, y: self.bottom }),
    {
        Point::new(self.left, self.bottom)
    }

    pub fn bottom_right(&self) -> (r: Point)
        ensures
            r == (Point { x: self.right, y: self.bottom }),
    {
        Point::new(self.right, self.bottom)
    }

    /// The signed width; negative for an inverted rectangle.
    pub fn width(&self) -> (r: i64)
        requires
            fits(self.spec_width()),
        ensures
            r == self.spec_width(),
    {
        self.right - self.left
    }

    /// The signed height; negative for an inverted rectangle.
    pub fn height(&self) -> (r: i64)
        requires
            fits(self.spec_height()),
        ensures
            r == self.spec_height(),
    {
        self.bottom - self.top
    }

    pub fn size(&self) -> (r: Size)
        requires
            fits(self.spec_width()),
            fits(self.spec_height()),
        ensures
            r.width == self.spec_width(),
            r.height == self.spec_height(),
    {
        Size::new(self.width(), self.height())
    }

    /// Width over height, truncating. The caller guards a zero height.
    pub fn aspect_ratio(&self) -> (r: i64)
        requires
            fits(self.spec_width()),
            fits(self.spec_height()),
            self.spec_height() != 0,
            !(self.spec_width() == i64::MIN && self.spec_height() == -1),
        ensures
            r == div_trunc(self.spec_width(), self.spec_height()),
    {
        let s = self.size();
        s.aspect_ratio()
    }

    /// Half-open containment: a point on the right or bottom edge is
    /// outside.
    pub fn contains(&self, point: &Point) -> (r: bool)
        ensures
            r == self.spec_contains(*point),
    {
        self.left <= point.x && point.x < self.right && self.top <= point.y && point.y
            < self.bottom
    }

    /// The rectangle with all four edges at the origin.
    pub fn zero() -> (r: Self)
        ensures
            r == (Rect { left: 0i64, top: 0i64, right: 0i64, bottom: 0i64 }),
    {
        Rect { left: 0, top: 0, right: 0, bottom: 0 }
    }

    /// True when either pair of opposite edges coincides; area plays no
    /// part.
    pub fn is_empty(&self) -> (r: bool)
        ensures
            r == self.spec_is_empty(),
    {
        self.top == self.bottom || self.left == self.right
    }

    /// The canonical rectangle spanned by two opposite corners, in either
    /// order.
    pub fn from_points(a: Point, b: Point) -> (r: Self)
        ensures
            r == Self::spec_from_points(a, b),
    {
        Rect {
            left: min_i64(a.x, b.x),
            top: min_i64(a.y, b.y),
            right: max_i64(a.x, b.x),
            bottom: max_i64(a.y, b.y),
        }
    }

    /// The bounding rectangle of a sequence of points; the zero rectangle
    /// for an empty sequence, by choice rather than by error.
    pub fn from_points_iter(points: &Vec<Point>) -> (r: Self)
        ensures
            points@.len() == 0 ==> r == (Rect { left: 0i64, top: 0i64, right: 0i64, bottom: 0i64 }),
            points@.len() > 0 ==> {
                &&& r.left == lo_x(points@)
                &&& r.top == lo_y(points@)
                &&& r.right == hi_x(points@)
                &&& r.bottom == hi_y(points@)
            },
    {
        if points.len() == 0 {
            return Rect::zero();
        }
        let first = points[0];
        let mut min_x: i64 = first.x;
        let mut min_y: i64 = first.y;
        let mut max_x: i64 = first.x;
        let mut max_y: i64 = first.y;
        let mut i: usize = 1;
        while i < points.len()
            invariant
                1 <= i <= points@.len(),
                min_x == lo_x(points@.take(i as int)),
                min_y == lo_y(points@.take(i as int)),
                max_x == hi_x(points@.take(i as int)),
                max_y == hi_y(points@.take(i as int)),
            decreases points@.len() - i,
        {
            let p = points[i];
            proof {
                assert(points@.take(i + 1).drop_last() =~= points@.take(i as int));
                assert(points@.take(i + 1).last() == points@[i as int]);
            }
            if p.x < min_x {
                min_x = p.x;
            }
            if p.x > max_x {
                max_x = p.x;
            }
            if p.y < min_y {
                min_y = p.y;
            }
            if p.y > max_y {
                max_y = p.y;
            }
            i = i + 1;
        }
        proof {
            assert(points@.take(points@.len() as int) =~= points@);
        }
        Rect { left: min_x, top: min_y, right: max_x, bottom: max_y }
    }

    /// The horizontal midpoint, `left + (right - left) / 2`.
    pub fn center_x(&self) -> (r: i64)
        requires
            fits(self.spec_width()),
        ensures
            r == self.left + div_trunc(self.spec_width(), 2),
    {
        lerp_half(self.left, self.right)
    }

    /// The vertical midpoint, `top + (bottom - top) / 2`.
    pub fn center_y(&self) -> (r: i64)
        requires
            fits(self.spec_height()),
        ensures
            r == self.top + div_trunc(self.spec_height(), 2),
    {
        lerp_half(self.top, self.bottom)
    }

    pub fn center(&self) -> (r: Point)
        requires
            fits(self.spec_width()),
            fits(self.spec_height()),
        ensures
            r.x == self.left + div_trunc(self.spec_width(), 2),
            r.y == self.top + div_trunc(self.spec_height(), 2),
    {
        Point::new(self.center_x(), self.center_y())
    }

    pub fn top_center(&self) -> (r: Point)
        requires
            fits(self.spec_width()),
        ensures
            r.x == self.left + div_trunc(self.spec_width(), 2),
            r.y == self.top,
    {
        Point::new(self.center_x(), self.top)
    }

    pub fn bottom_center(&self) -> (r: Point)
        requires
            fits(self.spec_width()),
        ensures
            r.x == self.left + div_trunc(self.spec_width(), 2),
            r.y == self.bottom,
    {
        Point::new(self.center_x(), self.bottom)
    }

    pub fn center_left(&self) -> (r: Point)
        requires
            fits(self.spec_height()),
        ensures
            r.x == self.left,
            r.y == self.top + div_trunc(self.spec_height(), 2),
    {
        Point::new(self.left, self.center_y())
    }

    pub fn center_right(&self) -> (r: Point)
        requires
            fits(self.spec_height()),
        ensures
            r.x == self.right,
            r.y == self.top + div_trunc(self.spec_height(), 2),
    {
        Point::new(self.right, self.center_y())
    }

    /// The common region of the two rectangles, or `None` when they do
    /// not overlap. Rectangles sharing only an edge still intersect, in
    /// an empty rectangle.
    pub fn intersection(&self, other: &Self) -> (r: Option<Self>)
        ensures
            r == if Self::spec_intersects(*self, *other) {
                Some(Self::spec_intersection(*self, *other))
            } else {
                None::<Rect>
            },
    {
        let top = max_i64(self.top, other.top);
        let bottom = min_i64(self.bottom, other.bottom);
        if top > bottom {
            return None;
        }
        let left = max_i64(self.left, other.left);
        let right = min_i64(self.right, other.right);
        if left > right {
            return None;
        }
        Some(Rect { left, top, right, bottom })
    }

    /// The smallest rectangle enclosing both; always defined.
    pub fn union(&self, other: &Self) -> (r: Self)
        ensures
            r == Self::spec_union(*self, *other),
    {
        Rect {
            left: min_i64(self.left, other.left),
            top: min_i64(self.top, other.top),
            right: max_i64(self.right, other.right),
            bottom: max_i64(self.bottom, other.bottom),
        }
    }

    /// The band at `index` when the width is divided into `num_items`
    /// equal parts; truncation may leave a sliver before the right edge.
    pub fn width_slice(&self, num_items: i64, index: i64) -> (r: Self)
        requires
            0 <= index < num_items,
            fits(self.spec_width()),
            fits(index * div_trunc(self.spec_width(), num_items as int)),
            fits(self.left + index * div_trunc(self.spec_width(), num_items as int)),
            fits(
                self.left + index * div_trunc(self.spec_width(), num_items as int) + div_trunc(
                    self.spec_width(),
                    num_items as int,
                ),
            ),
        ensures
            r.left == self.left + index * div_trunc(self.spec_width(), num_items as int),
            r.right == r.left + div_trunc(self.spec_width(), num_items as int),
            r.top == self.top,
            r.bottom == self.bottom,
    {
        let item_width = div_i64(self.width(), num_items);
        let item_left = self.left + index * item_width;
        Rect { top: self.top, left: item_left, right: item_left + item_width, bottom: self.bottom }
    }

    /// The band at `index` when the height is divided into `num_items`
    /// equal parts.
    pub fn height_slice(&self, num_items: i64, index: i64) -> (r: Self)
        requires
            0 <= index < num_items,
            fits(self.spec_height()),
            fits(index * div_trunc(self.spec_height(), num_items as int)),
            fits(self.top + index * div_trunc(self.spec_height(), num_items as int)),
            fits(
                self.top + index * div_trunc(self.spec_height(), num_items as int) + div_trunc(
                    self.spec_height(),
                    num_items as int,
                ),
            ),
        ensures
            r.top == self.top + index * div_trunc(self.spec_height(), num_items as int),
            r.bottom == r.top + div_trunc(self.spec_height(), num_items as int),
            r.left == self.left,
            r.right == self.right,
    {
        let item_height = div_i64(self.height(), num_items);
        let item_top = self.top + index * item_height;
        Rect { top: item_top, left: self.left, right: self.right, bottom: item_top + item_height }
    }

    /// As [`Self::width_slice`], but reserving `margin` before the first
    /// band, after the last, and between every pair: the margin total is
    /// `num_items * margin + margin`, and the remaining width is divided
    /// evenly.
    pub fn width_slice_with_margin(&self, num_items: i64, index: i64, margin: i64) -> (r: Self)
        requires
            0 <= index < num_items,
            fits(self.spec_width()),
            fits(num_items * margin),
            fits(num_items * margin + margin),
            fits(self.spec_width() - (num_items * margin + margin)),
            fits(self.left + margin),
            fits(
                margin + div_trunc(
                    self.spec_width() - (num_items * margin + margin),
                    num_items as int,
                ),
            ),
            fits(
                index * (
                margin + div_trunc(
                    self.spec_width() - (num_items * margin + margin),
                    num_items as int,
                )),
            ),
            fits(
                self.left + margin + index * (
                margin + div_trunc(
                    self.spec_width() - (num_items * margin + margin),
                    num_items as int,
                )),
            ),
            fits(
                self.left + margin + index * (
                margin + div_trunc(
                    self.spec_width() - (num_items * margin + margin),
                    num_items as int,
                )) + div_trunc(self.spec_width() - (num_items * margin + margin), num_items as int),
            ),
        ensures
            r.left == self.left + margin + index * (
            margin + div_trunc(self.spec_width() - (num_items * margin + margin), num_items as int)),
            r.right == r.left + div_trunc(
                self.spec_width() - (num_items * margin + margin),
                num_items as int,
            ),
            r.top == self.top,
            r.bottom == self.bottom,
    {
        let total_margin = num_items * margin + margin;
        let items_width = self.width() - total_margin;
        let item_width = div_i64(items_width, num_items);
        let item_left = self.left + margin + index * (margin + item_width);
        Rect { top: self.top, left: item_left, right: item_left + item_width, bottom: self.bottom }
    }

    /// As [`Self::height_slice`], with the same margin accounting as
    /// [`Self::width_slice_with_margin`].
    pub fn height_slice_with_margin(&self, num_items: i64, index: i64, margin: i64) -> (r: Self)
        requires
            0 <= index < num_items,
            fits(self.spec_height()),
            fits(num_items * margin),
            fits(num_items * margin + margin),
            fits(self.spec_height() - (num_items * margin + margin)),
            fits(self.top + margin),
            fits(
                margin + div_trunc(
                    self.spec_height() - (num_items * margin + margin),
                    num_items as int,
                ),
            ),
            fits(
                index * (
                margin + div_trunc(
                    self.spec_height() - (num_items * margin + margin),
                    num_items as int,
                )),
            ),
            fits(
                self.top + margin + index * (
                margin + div_trunc(
                    self.spec_height() - (num_items * margin + margin),
                    num_items as int,
                )),
            ),
            fits(
                self.top + margin + index * (
                margin + div_trunc(
                    self.spec_height() - (num_items * margin + margin),
                    num_items as int,
                )) + div_trunc(
                    self.spec_height() - (num_items * margin + margin),
                    num_items as int,
                ),
            ),
        ensures
            r.top == self.top + margin + index * (
            margin + div_trunc(self.spec_height() - (num_items * margin + margin), num_items as int)),
            r.bottom == r.top + div_trunc(
                self.spec_height() - (num_items * margin + margin),
                num_items as int,
            ),
            r.left == self.left,
            r.right == self.right,
    {
        let total_margin = num_items * margin + margin;
        let items_height = self.height() - total_margin;
        let item_height = div_i64(items_height, num_items);
        let item_top = self.top + margin + index * (margin + item_height);
        Rect { top: item_top, left: self.left, right: self.right, bottom: item_top + item_height }
    }

    /// Translates all four edges by `rhs`; the assigning form of `+`.
    pub fn add_assign(&mut self, rhs: Vector)
        requires
            fits(old(self).left + rhs.dx),
            fits(old(self).top + rhs.dy),
            fits(old(self).right + rhs.dx),
            fits(old(self).bottom + rhs.dy),
        ensures
            final(self).left == old(self).left + rhs.dx,
            final(self).top == old(self).top + rhs.dy,
            final(self).right == old(self).right + rhs.dx,
            final(self).bottom == old(self).bottom + rhs.dy,
    {
        self.left = self.left + rhs.dx;
        self.top = self.top + rhs.dy;
        self.right = self.right + rhs.dx;
        self.bottom = self.bottom + rhs.dy;
    }

    /// Scales all four edges by `rhs`; the assigning form of `*`.
    pub fn mul_assign(&mut self, rhs: i64)
        requires
            fits(old(self).left * rhs),
            fits(old(self).top * rhs),
            fits(old(self).right * rhs),
            fits(old(self).bottom * rhs),
        ensures
            final(self).left == old(self).left * rhs,
            final(self).top == old(self).top * rhs,
            final(self).right == old(self).right * rhs,
            final(self).bottom == old(self).bottom * rhs,
    {
        self.left = self.left * rhs;
        self.top = self.top * rhs;
        self.right = self.right * rhs;
        self.bottom = self.bottom * rhs;
    }
}

/// The least x-coordinate in a non-empty sequence of points.
pub open spec fn lo_x(s: Seq<Point>) -> int
    decreases s.len(),
{
    if s.len() <= 1 {
        s[0].x as int
    } else {
        min(lo_x(s.drop_last()), s.last().x as int)
    }
}

/// The greatest x-coordinate in a non-empty sequence of points.
pub open spec fn hi_x(s: Seq<Point>) -> int
    decreases s.len(),
{
    if s.len() <= 1 {
        s[0].x as int
    } else {
        max(hi_x(s.drop_last()), s.last().x as int)
    }
}

/// The least y-coordinate in a non-empty sequence of points.
pub open spec fn lo_y(s: Seq<Point>) -> int
    decreases s.len(),
{
    if s.len() <= 1 {
        s[0].y as int
    } else {
        min(lo_y(s.drop_last()), s.last().y as int)
    }
}

/// The greatest y-coordinate in a non-empty sequence of points.
pub open spec fn hi_y(s: Seq<Point>) -> int
    decreases s.len(),
{
    if s.len() <= 1 {
        s[0].y as int
    } else {
        max(hi_y(s.drop_last()), s.last().y as int)
    }
}

/// Half-open containment admits the top-left corner of every rectangle
/// whose edges are strictly ordered.
pub proof fn lemma_contains_top_left(r: Rect)
    requires
        r.left < r.right,
        r.top < r.bottom,
    ensures
        r.spec_contains(Point { x: r.left, y: r.top }),
{
}

/// Half-open containment excludes the bottom-right corner of every
/// rectangle, empty or not.
pub proof fn lemma_not_contains_bottom_right(r: Rect)
    ensures
        !r.spec_contains(Point { x: r.right, y: r.bottom }),
{
}

/// The union of two rectangles contains each of them entirely: its edges
/// enclose both edge-quadruples, and every point of either rectangle lies
/// in the union.
pub proof fn lemma_union_contains_both(a: Rect, b: Rect)
    ensures
        Rect::spec_union(a, b).left <= a.left && a.right <= Rect::spec_union(a, b).right,
        Rect::spec_union(a, b).top <= a.top && a.bottom <= Rect::spec_union(a, b).bottom,
        Rect::spec_union(a, b).left <= b.left && b.right <= Rect::spec_union(a, b).right,
        Rect::spec_union(a, b).top <= b.top && b.bottom <= Rect::spec_union(a, b).bottom,
        forall|p: Point|
            a.spec_contains(p) || b.spec_contains(p) ==> Rect::spec_union(a, b).spec_contains(p),
{
}

/// Two rectangles intersect exactly when they overlap on both axes, with
/// shared edges counting as overlap; their intersection then holds
/// precisely the points common to both.
pub proof fn lemma_intersection_exact(a: Rect, b: Rect)
    ensures
        Rect::spec_intersects(a, b) <==> (max(a.top as int, b.top as int) <= min(
            a.bottom as int,
            b.bottom as int,
        ) && max(a.left as int, b.left as int) <= min(a.right as int, b.right as int)),
        forall|p: Point|
            Rect::spec_intersection(a, b).spec_contains(p) <==> (a.spec_contains(p)
                && b.spec_contains(p)),
{
}

/// Spanning a rectangle over two corners does not depend on the order in
/// which the corners are given.
pub proof fn lemma_from_points_symmetric(a: Point, b: Point)
    ensures
        Rect::spec_from_points(a, b) == Rect::spec_from_points(b, a),
{
}

impl Default for Rect {
    /// The rectangle with all four edges at the origin.
    fn default() -> (r: Self)
        ensures
            r == (Rect { left: 0i64, top: 0i64, right: 0i64, bottom: 0i64 }),
    {
        Self::zero()
    }
}

impl core::ops::Add<Vector> for Rect {
    type Output = Rect;

    /// The rectangle translated by `rhs`.
    fn add(self, rhs: Vector) -> (r: Rect) {
        Rect {
            left: self.left + rhs.dx,
            top: self.top + rhs.dy,
            right: self.right + rhs.dx,
            bottom: self.bottom + rhs.dy,
        }
    }
}

impl vstd::std_specs::ops::AddSpecImpl<Vector> for Rect {
    open spec fn obeys_add_spec() -> bool {
        true
    }

    open spec fn add_req(self, rhs: Vector) -> bool {
        &&& fits(self.left + rhs.dx)
        &&& fits(self.top + rhs.dy)
        &&& fits(self.right + rhs.dx)
        &&& fits(self.bottom + rhs.dy)
    }

    open spec fn add_spec(self, rhs: Vector) -> Rect {
        Rect {
            left: (self.left + rhs.dx) as i64,
            top: (self.top + rhs.dy) as i64,
            right: (self.right + rhs.dx) as i64,
            bottom: (self.bottom + rhs.dy) as i64,
        }
    }
}

impl core::ops::Mul<i64> for Rect {
    type Output = Rect;

    /// All four edges scaled by `rhs`.
    fn mul(self, rhs: i64) -> (r: Rect) {
        Rect {
            left: self.left * rhs,
            top: self.top * rhs,
            right: self.right * rhs,
            bottom: self.bottom * rhs,
        }
    }
}

impl vstd::std_specs::ops::MulSpecImpl<i64> for Rect {
    open spec fn obeys_mul_spec() -> bool {
        true
    }

    open spec fn mul_req(self, rhs: i64) -> bool {
        &&& fits(self.left * rhs)
        &&& fits(self.top * rhs)
        &&& fits(self.right * rhs)
        &&& fits(self.bottom * rhs)
    }

    open spec fn mul_spec(self, rhs: i64) -> Rect {
        Rect {
            left: (self.left * rhs) as i64,
            top: (self.top * rhs) as i64,
            right: (self.right * rhs) as i64,
            bottom: (self.bottom * rhs) as i64,
        }
    }
}

} // verus!
