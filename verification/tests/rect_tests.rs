use gee::Point;
use gee::Rect;
use gee::Size;
use gee::Vector;

#[test]
fn with_top_left_fields() {
    let r = Rect::with_top_left(Point::new(3, 4), Size::new(10, 20));
    assert_eq!(r, Rect { left: 3, top: 4, right: 13, bottom: 24 });
}

#[test]
fn with_anchors_opposite_corners() {
    let size = Size::new(10, 20);
    assert_eq!(
        Rect::with_top_right(Point::new(13, 4), size),
        Rect { left: 3, top: 4, right: 13, bottom: 24 }
    );
    assert_eq!(
        Rect::with_bottom_right(Point::new(13, 24), size),
        Rect { left: 3, top: 4, right: 13, bottom: 24 }
    );
    assert_eq!(
        Rect::with_bottom_left(Point::new(3, 24), size),
        Rect { left: 3, top: 4, right: 13, bottom: 24 }
    );
}

#[test]
fn with_center_even_size() {
    let r = Rect::with_center(Point::new(0, 0), Size::new(10, 8));
    assert_eq!(r, Rect { left: -5, top: -4, right: 5, bottom: 4 });
}

#[test]
fn with_center_odd_size_truncates() {
    let r = Rect::with_center(Point::new(0, 0), Size::new(7, 9));
    assert_eq!(r, Rect { left: -3, top: -4, right: 3, bottom: 4 });
}

#[test]
fn with_edge_centers() {
    let size = Size::new(10, 8);
    assert_eq!(
        Rect::with_top_center(Point::new(0, 0), size),
        Rect { left: -5, top: 0, right: 5, bottom: 8 }
    );
    assert_eq!(
        Rect::with_bottom_center(Point::new(0, 8), size),
        Rect { left: -5, top: 0, right: 5, bottom: 8 }
    );
    assert_eq!(
        Rect::with_left_center(Point::new(0, 4), size),
        Rect { left: 0, top: 0, right: 10, bottom: 8 }
    );
    assert_eq!(
        Rect::with_right_center(Point::new(10, 4), size),
        Rect { left: 0, top: 0, right: 10, bottom: 8 }
    );
}

#[test]
fn contains_is_half_open() {
    let r = Rect::with_top_left(Point::new(0, 0), Size::new(10, 10));
    assert!(r.contains(&r.top_left()));
    assert!(!r.contains(&r.bottom_right()));
    assert!(!r.contains(&r.top_right()));
    assert!(!r.contains(&r.bottom_left()));
    assert!(r.contains(&Point::new(9, 9)));
    assert!(!r.contains(&Point::new(10, 5)));
    assert!(!r.contains(&Point::new(5, 10)));
    assert!(!r.contains(&Point::new(-1, 5)));
}

#[test]
fn zero_rect_is_empty() {
    assert!(Rect::zero().is_empty());
}

#[test]
fn zero_width_rect_is_empty() {
    assert!(Rect::with_top_left(Point::new(0, 0), Size::new(0, 5)).is_empty());
    assert!(Rect::with_top_left(Point::new(0, 0), Size::new(5, 0)).is_empty());
    assert!(!Rect::with_top_left(Point::new(0, 0), Size::new(5, 5)).is_empty());
}

#[test]
fn width_height_size_signed() {
    let r = Rect { left: 10, top: 20, right: 4, bottom: 50 };
    assert_eq!(r.width(), -6);
    assert_eq!(r.height(), 30);
    assert_eq!(r.size(), Size::new(-6, 30));
}

#[test]
fn aspect_ratio_truncates_toward_zero() {
    let r = Rect::with_top_left(Point::new(0, 0), Size::new(16, 9));
    assert_eq!(r.aspect_ratio(), 1);
    let inverted = Rect { left: 0, top: 0, right: -10, bottom: 3 };
    assert_eq!(inverted.aspect_ratio(), -3);
}

#[test]
fn clipping_moves_one_edge_inward() {
    let r = Rect { left: 0, top: 0, right: 10, bottom: 10 };
    assert_eq!(r.clipped_above(3), Rect { left: 0, top: 3, right: 10, bottom: 10 });
    assert_eq!(r.clipped_above(-3), r);
    assert_eq!(r.clipped_below(7), Rect { left: 0, top: 0, right: 10, bottom: 7 });
    assert_eq!(r.clipped_below(17), r);
    assert_eq!(r.clipped_left(2), Rect { left: 2, top: 0, right: 10, bottom: 10 });
    assert_eq!(r.clipped_left(-2), r);
    assert_eq!(r.clipped_right(8), Rect { left: 0, top: 0, right: 8, bottom: 10 });
    assert_eq!(r.clipped_right(18), r);
}

#[test]
fn scaling_anchors_at_opposite_edge() {
    let r = Rect { left: 1, top: 2, right: 11, bottom: 22 };
    assert_eq!(r.scaled_from_top(2), Rect { left: 1, top: 2, right: 11, bottom: 42 });
    assert_eq!(r.scaled_from_bottom(2), Rect { left: 1, top: -18, right: 11, bottom: 22 });
    assert_eq!(r.scaled_from_left(3), Rect { left: 1, top: 2, right: 31, bottom: 22 });
    assert_eq!(r.scaled_from_right(3), Rect { left: -19, top: 2, right: 11, bottom: 22 });
}

#[test]
fn corners_and_centers() {
    let r = Rect { left: 0, top: 0, right: 10, bottom: 20 };
    assert_eq!(r.top_left(), Point::new(0, 0));
    assert_eq!(r.top_right(), Point::new(10, 0));
    assert_eq!(r.bottom_left(), Point::new(0, 20));
    assert_eq!(r.bottom_right(), Point::new(10, 20));
    assert_eq!(r.center_x(), 5);
    assert_eq!(r.center_y(), 10);
    assert_eq!(r.center(), Point::new(5, 10));
    assert_eq!(r.top_center(), Point::new(5, 0));
    assert_eq!(r.bottom_center(), Point::new(5, 20));
    assert_eq!(r.center_left(), Point::new(0, 10));
    assert_eq!(r.center_right(), Point::new(10, 10));
}

#[test]
fn center_avoids_intermediate_overflow() {
    let r = Rect { left: i64::MAX - 10, top: i64::MAX - 4, right: i64::MAX, bottom: i64::MAX };
    assert_eq!(r.center_x(), i64::MAX - 5);
    assert_eq!(r.center_y(), i64::MAX - 2);
}

#[test]
fn intersection_overlapping() {
    let a = Rect { left: 0, top: 0, right: 10, bottom: 10 };
    let b = Rect { left: 5, top: -5, right: 15, bottom: 5 };
    assert_eq!(a.intersection(&b), Some(Rect { left: 5, top: 0, right: 10, bottom: 5 }));
    assert_eq!(b.intersection(&a), Some(Rect { left: 5, top: 0, right: 10, bottom: 5 }));
}

#[test]
fn intersection_shared_edge_still_intersects() {
    let a = Rect { left: 0, top: 0, right: 10, bottom: 10 };
    let b = Rect { left: 10, top: 0, right: 20, bottom: 10 };
    assert_eq!(a.intersection(&b), Some(Rect { left: 10, top: 0, right: 10, bottom: 10 }));
}

#[test]
fn intersection_disjoint_is_none() {
    let a = Rect { left: 0, top: 0, right: 10, bottom: 10 };
    let b = Rect { left: 11, top: 0, right: 20, bottom: 10 };
    assert_eq!(a.intersection(&b), None);
    let c = Rect { left: 0, top: 11, right: 10, bottom: 20 };
    assert_eq!(a.intersection(&c), None);
}

#[test]
fn union_encloses_both() {
    let a = Rect { left: 0, top: 0, right: 10, bottom: 10 };
    let b = Rect { left: 5, top: -5, right: 15, bottom: 5 };
    let u = a.union(&b);
    assert_eq!(u, Rect { left: 0, top: -5, right: 15, bottom: 10 });
    assert!(u.left <= a.left && a.right <= u.right && u.top <= a.top && a.bottom <= u.bottom);
    assert!(u.left <= b.left && b.right <= u.right && u.top <= b.top && b.bottom <= u.bottom);
}

#[test]
fn from_points_order_independent() {
    let a = Point::new(12, -3);
    let b = Point::new(-7, 9);
    assert_eq!(Rect::from_points(a, b), Rect::from_points(b, a));
    assert_eq!(Rect::from_points(a, b), Rect { left: -7, top: -3, right: 12, bottom: 9 });
}

#[test]
fn from_points_iter_empty_is_zero() {
    assert_eq!(Rect::from_points_iter(&Vec::new()), Rect::zero());
}

#[test]
fn from_points_iter_bounds() {
    let pts = vec![
        Point::new(3, 4),
        Point::new(-1, 10),
        Point::new(7, -2),
        Point::new(0, 0),
    ];
    assert_eq!(Rect::from_points_iter(&pts), Rect { left: -1, top: -2, right: 7, bottom: 10 });
    assert_eq!(
        Rect::from_points_iter(&vec![Point::new(5, 6)]),
        Rect { left: 5, top: 6, right: 5, bottom: 6 }
    );
}

#[test]
fn width_slice_bands() {
    let r = Rect::with_top_left(Point::new(0, 0), Size::new(100, 100));
    let s0 = r.width_slice(4, 0);
    assert_eq!(s0.left, 0);
    assert_eq!(s0.right, 25);
    let s3 = r.width_slice(4, 3);
    assert_eq!(s3.left, 75);
    assert_eq!(s3.right, 100);
    assert_eq!(s0.top, 0);
    assert_eq!(s0.bottom, 100);
}

#[test]
fn height_slice_bands() {
    let r = Rect::with_top_left(Point::new(0, 0), Size::new(100, 100));
    let s1 = r.height_slice(5, 1);
    assert_eq!(s1, Rect { left: 0, top: 20, right: 100, bottom: 40 });
}

#[test]
fn width_slice_with_margin_accounting() {
    let r = Rect::with_top_left(Point::new(0, 0), Size::new(100, 10));
    // total margin 3*5 + 5 = 20, band width (100 - 20) / 3 = 26
    let s0 = r.width_slice_with_margin(3, 0, 5);
    assert_eq!(s0, Rect { left: 5, top: 0, right: 31, bottom: 10 });
    let s1 = r.width_slice_with_margin(3, 1, 5);
    assert_eq!(s1, Rect { left: 36, top: 0, right: 62, bottom: 10 });
    let s2 = r.width_slice_with_margin(3, 2, 5);
    assert_eq!(s2, Rect { left: 67, top: 0, right: 93, bottom: 10 });
}

#[test]
fn height_slice_with_margin_accounting() {
    let r = Rect::with_top_left(Point::new(0, 0), Size::new(10, 100));
    let s1 = r.height_slice_with_margin(3, 1, 5);
    assert_eq!(s1, Rect { left: 0, top: 36, right: 10, bottom: 62 });
}

#[test]
fn translate_and_scale_operators() {
    let r = Rect { left: 1, top: 2, right: 3, bottom: 4 };
    assert_eq!(r + Vector::new(10, 20), Rect { left: 11, top: 22, right: 13, bottom: 24 });
    assert_eq!(r * 3, Rect { left: 3, top: 6, right: 9, bottom: 12 });
    let mut m = r;
    m.add_assign(Vector::new(10, 20));
    assert_eq!(m, Rect { left: 11, top: 22, right: 13, bottom: 24 });
    let mut n = r;
    n.mul_assign(-2);
    assert_eq!(n, Rect { left: -2, top: -4, right: -6, bottom: -8 });
}

#[test]
fn default_is_zero_rect() {
    assert_eq!(Rect::default(), Rect::zero());
}
