use gee::scalar::div_i64;
use gee::scalar::lerp_half;
use gee::scalar::max_i64;
use gee::scalar::min_i64;
use gee::scalar::rem_i64;
use gee::Point;
use gee::Size;
use gee::Vector;

#[test]
fn division_matches_native_truncating_division() {
    let samples: [i64; 9] = [-100, -17, -7, -1, 0, 1, 7, 17, 100];
    for &a in &samples {
        for &b in &samples {
            if b == 0 {
                continue;
            }
            assert_eq!(div_i64(a, b), a / b, "div {a} / {b}");
            assert_eq!(rem_i64(a, b), a % b, "rem {a} % {b}");
        }
    }
}

#[test]
fn division_at_the_extremes() {
    assert_eq!(div_i64(i64::MIN, 2), i64::MIN / 2);
    assert_eq!(div_i64(i64::MIN, i64::MIN), 1);
    assert_eq!(div_i64(i64::MAX, -1), -i64::MAX);
    assert_eq!(rem_i64(i64::MIN, 2), 0);
    assert_eq!(rem_i64(i64::MIN, 3), i64::MIN % 3);
}

#[test]
fn min_max() {
    assert_eq!(min_i64(3, -4), -4);
    assert_eq!(max_i64(3, -4), 3);
    assert_eq!(min_i64(5, 5), 5);
    assert_eq!(max_i64(5, 5), 5);
}

#[test]
fn lerp_half_midpoints() {
    assert_eq!(lerp_half(0, 10), 5);
    assert_eq!(lerp_half(0, 11), 5);
    assert_eq!(lerp_half(-10, 10), 0);
    assert_eq!(lerp_half(i64::MAX - 10, i64::MAX), i64::MAX - 5);
    assert_eq!(lerp_half(i64::MIN, i64::MIN + 10), i64::MIN + 5);
}

#[test]
fn point_and_vector_arithmetic() {
    let p = Point::new(3, 4);
    let v = Vector::new(10, 20);
    assert_eq!(p + v, Point::new(13, 24));
    assert_eq!(p - v, Point::new(-7, -16));
    assert_eq!((p + v) - p, v);
    assert_eq!(p - Point::new(1, 1), Vector::new(2, 3));
    assert_eq!(p.to_vector(), Vector::new(3, 4));
    assert_eq!(p.map(|c| c * 10), Point::new(30, 40));
    assert_eq!(Point::default(), Point::zero());
}

#[test]
fn size_helpers() {
    let s = Size::new(16, 9);
    assert_eq!(s.width(), 16);
    assert_eq!(s.height(), 9);
    assert_eq!(s.aspect_ratio(), 1);
    assert_eq!(Size::new(100, 25).aspect_ratio(), 4);
    assert_eq!(Size::new(-10, 3).aspect_ratio(), -3);
    assert_eq!(s.scaled(3), Size::new(48, 27));
    assert_eq!(s.to_vector(), Vector::new(16, 9));
    assert_eq!(Size::default(), Size::zero());
}
