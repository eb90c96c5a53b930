use gee::Circle;
use gee::Point;
use gee::Vector;

#[test]
fn constructors_and_accessors() {
    let c = Circle::new(Point::new(1, 2), 5);
    assert_eq!(c.center(), Point::new(1, 2));
    assert_eq!(c.radius(), 5);
    assert_eq!(Circle::unit(), Circle::new(Point::zero(), 1));
    assert_eq!(Circle::zero(), Circle::new(Point::zero(), 0));
    assert_eq!(Circle::from_radius(7), Circle::new(Point::zero(), 7));
    assert_eq!(Circle::from_center(Point::new(3, 4)), Circle::new(Point::new(3, 4), 1));
    assert_eq!(Circle::default(), Circle::unit());
}

#[test]
fn with_and_radius_helpers() {
    let c = Circle::new(Point::new(1, 2), 5);
    assert_eq!(c.with_radius(9), Circle::new(Point::new(1, 2), 9));
    assert_eq!(c.with_center(Point::zero()), Circle::new(Point::zero(), 5));
    assert_eq!(c.add_radius(3), Circle::new(Point::new(1, 2), 8));
    assert_eq!(c.scale_radius(-2), Circle::new(Point::new(1, 2), -10));
    assert_eq!(c.radius_squared(), 25);
}

#[test]
fn contains_compares_squared_distance() {
    let c = Circle::new(Point::new(0, 0), 5);
    assert!(c.contains(Point::new(3, 4))); // on the boundary
    assert!(c.contains(Point::new(0, 0)));
    assert!(c.contains(Point::new(5, 0)));
    assert!(!c.contains(Point::new(4, 4)));
    assert!(!c.contains(Point::new(6, 0)));
}

#[test]
fn negative_radius_contains_nothing() {
    let c = Circle::new(Point::new(0, 0), -1);
    // squared radius is 1, so the comparison degrades gracefully
    assert!(c.contains(Point::new(1, 0)));
    assert!(!c.contains(Point::new(2, 0)));
    let tiny = Circle::new(Point::new(0, 0), 0);
    assert!(tiny.contains(Point::new(0, 0)));
    assert!(!tiny.contains(Point::new(1, 0)));
}

#[test]
fn map_helpers() {
    let c = Circle::new(Point::new(1, 2), 5);
    assert_eq!(
        c.map(|p, r| (Point::new(p.x * 2, p.y * 2), r + 1)),
        Circle::new(Point::new(2, 4), 6)
    );
    assert_eq!(c.map_center(|p| Point::new(p.y, p.x)), Circle::new(Point::new(2, 1), 5));
    assert_eq!(c.map_radius(|r| r * 3), Circle::new(Point::new(1, 2), 15));
}

#[test]
fn add_and_sub_translate_the_same_way() {
    let c = Circle::new(Point::new(1, 2), 5);
    let v = Vector::new(10, 20);
    assert_eq!(c + v, Circle::new(Point::new(11, 22), 5));
    assert_eq!(c - v, Circle::new(Point::new(11, 22), 5));
    let mut m = c;
    m.add_assign(v);
    assert_eq!(m, Circle::new(Point::new(11, 22), 5));
    let mut n = c;
    n.sub_assign(v);
    assert_eq!(n, Circle::new(Point::new(11, 22), 5));
}

#[test]
fn bounding_rect_pushes_radius_outward() {
    let c = Circle::new(Point::new(1, 2), 5);
    let r = c.bounding_rect();
    assert_eq!(r, gee::Rect { left: -4, top: -3, right: 6, bottom: 7 });
    assert!(r.contains(&c.center()));
}
