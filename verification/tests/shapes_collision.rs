//! Collision scenarios and shape construction.

use pga2d::pga::Multivector;
use pga2d::shapes::{Rectangle, Transformed};
use pga2d::collision::{collides, in_segment};

/// A point at `(x, y)` scaled by the weight `w`, carried exactly.
fn wpoint(w: i64, x: i64, y: i64) -> Multivector {
    Multivector { s: 0, e0: 0, e1: 0, e2: 0, e12: w, e20: x, e01: y, e012: 0 }
}

/// A triangle of circumradius 2 centered on the origin, at weight 500.
fn triangle() -> Vec<Multivector> {
    vec![wpoint(500, 1000, 0), wpoint(500, -500, 866), wpoint(500, -500, -866)]
}

/// A pentagon of circumradius 1 centered at `(cx, cy)`, at weight 500.
fn pentagon(cx: i64, cy: i64) -> Vec<Multivector> {
    vec![
        wpoint(500, 500 + 500 * cx, 500 * cy),
        wpoint(500, 155 + 500 * cx, 476 + 500 * cy),
        wpoint(500, -405 + 500 * cx, 294 + 500 * cy),
        wpoint(500, -405 + 500 * cx, -294 + 500 * cy),
        wpoint(500, 155 + 500 * cx, -476 + 500 * cy),
    ]
}

#[test]
fn concentric_polygons_collide() {
    let a = triangle();
    let b = pentagon(0, 0);
    assert!(collides(&a, &b));
}

#[test]
fn distant_polygons_do_not_collide() {
    let a = triangle();
    assert!(!collides(&a, &pentagon(10, 0)));
    assert!(!collides(&a, &pentagon(-10, 0)));
    assert!(!collides(&a, &pentagon(0, 10)));
    assert!(!collides(&a, &pentagon(0, -10)));
}

#[test]
fn touching_point_is_on_segment() {
    let a = Multivector::point(1, 1);
    let b = Multivector::point(-1, 1);
    // exactly on the edge, including the endpoints
    assert!(in_segment(a, b, Multivector::point(0, 1)));
    assert!(in_segment(a, b, a));
    assert!(in_segment(a, b, b));
    // off the edge line, or beyond the endpoints
    assert!(!in_segment(a, b, Multivector::point(0, 2)));
    assert!(!in_segment(a, b, Multivector::point(2, 1)));
}

#[test]
fn rectangle_corners() {
    let r = Rectangle::new(4, 2);
    let pts = r.points();
    assert_eq!(pts.len(), 4);
    // weight-2 homogeneous corners of the 4 x 2 rectangle
    assert_eq!(pts[0], wpoint(2, 4, 2));
    assert_eq!(pts[1], wpoint(2, -4, 2));
    assert_eq!(pts[2], wpoint(2, -4, -2));
    assert_eq!(pts[3], wpoint(2, 4, -2));
}

#[test]
fn transformed_polygon_moves() {
    let r = Rectangle::new(4, 2);
    let mut t = Transformed::new(r.points());
    // move by (2, 0): the rectangles no longer overlap a far one
    t.compose(Multivector::translator(1, 0));
    let moved = t.points();
    // each corner moved two units right (weights scale by the motor norm)
    let p = moved[0].to_point().unwrap();
    assert_eq!((p.x / p.w, p.y / p.w), (4, 1));
    // a translated copy collides with the original (they overlap)
    assert!(collides(&r.points(), &moved));
    // a far translation does not
    let mut far = Transformed::new(r.points());
    far.compose(Multivector::translator(500, 0));
    assert!(!collides(&r.points(), &far.points()));
}
