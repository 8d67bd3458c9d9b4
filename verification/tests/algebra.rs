//! Literal regression vectors and concrete instances of the algebraic laws.

use pga2d::pga::{Multivector, Point};

fn mv(s: i64, e0: i64, e1: i64, e2: i64, e12: i64, e20: i64, e01: i64, e012: i64) -> Multivector {
    Multivector { s, e0, e1, e2, e12, e20, e01, e012 }
}

#[test]
fn regression_vectors() {
    let one = Multivector::one();
    let zero = Multivector::zero();
    let e0 = Multivector::e0();
    let e1 = Multivector::e1();
    let e2 = Multivector::e2();
    let ce0 = Multivector::e12();
    let ce1 = Multivector::e20();
    let ce2 = Multivector::e01();

    // E1 - E1 == E2 - E2 (both zero)
    assert_eq!(ce1.sub(ce1), ce2.sub(ce2));
    assert_eq!(ce1.sub(ce1), zero);
    // E1 | E2 == 0
    assert_eq!(ce1.dot(ce2), zero);
    // e2 ^ e0 == E1
    assert_eq!(e2.wedge(e0), ce1);
    // e2 ^ e1 == -E0
    assert_eq!(e2.wedge(e1), ce0.neg());
    // !E1 == e1
    assert_eq!(ce1.dual(), e1);
    // !e2 == E2
    assert_eq!(e2.dual(), ce2);
    // e2 | e2 == 1
    assert_eq!(e2.dot(e2), one);
    // e2 | e1 == 0
    assert_eq!(e2.dot(e1), zero);
    // E0 & E1 == e2
    assert_eq!(ce0.meet(ce1), e2);
    // 2 e0 e1 == 2 E2
    assert_eq!(e0.scale(2).mul(e1), ce2.scale(2));
}

#[test]
fn product_laws_concrete() {
    let u = mv(1, -2, 3, 4, -5, 6, 7, -8);
    let v = mv(2, 1, 0, -3, 4, -1, 5, 2);
    let w = mv(-1, 3, 2, 0, 1, 4, -2, 6);
    // distributivity on both sides
    assert_eq!(u.mul(v.add(w)), u.mul(v).add(u.mul(w)));
    assert_eq!(v.add(w).mul(u), v.mul(u).add(w.mul(u)));
    // scalars slide through the product
    assert_eq!(u.scale(3).mul(v), u.mul(v.scale(3)));
    // associativity
    assert_eq!(u.mul(v.mul(w)), u.mul(v).mul(w));
    // scalar unit
    assert_eq!(Multivector::one().mul(u), u);
    assert_eq!(u.mul(Multivector::one()), u);
}

#[test]
fn motor_inverse_concrete() {
    // a quarter-turn rotor around the origin: 0 * 1 + 1 * e12
    let m = Multivector::e12().rotor(0, 1);
    let one = Multivector::one();
    assert_eq!(m.mul(m.reverse()), one);
    assert_eq!(m.reverse().mul(m), one);
    assert_eq!(m.reverse().reverse(), m);
    // a translator is a motor too
    let t = Multivector::translator(5, -7);
    assert_eq!(t.mul(t.reverse()), one);
}

#[test]
fn dual_involution_concrete() {
    let u = mv(1, -2, 3, 4, -5, 6, 7, -8);
    assert_eq!(u.dual().dual(), u);
}

#[test]
fn meet_duality_concrete() {
    let a = mv(0, 1, -2, 3, 0, 0, 0, 0);
    let b = mv(0, 2, 5, -1, 0, 0, 0, 0);
    assert_eq!(a.meet(b), a.dual().wedge(b.dual()).dual());
    assert_eq!(a.wedge(b).dual(), a.dual().meet(b.dual()));
    // the wedge of two lines anticommutes
    assert_eq!(a.wedge(b), b.wedge(a).neg());
}

#[test]
fn translator_round_trip() {
    let t = Multivector::translator(3, 4);
    let back = Multivector::translator(-3, -4);
    assert_eq!(back.mul(t), Multivector::one());
    assert_eq!(t.mul(back), Multivector::one());
    // the identity motor moves nothing
    let p = Multivector::point(11, -9);
    assert_eq!(Multivector::one().sandwich(p), p);
}

#[test]
fn translator_moves_points() {
    // translator(3, 4) moves by (6, 8)
    let t = Multivector::translator(3, 4);
    let p = Multivector::point(1, 2);
    let q = t.sandwich(p);
    assert_eq!(q.to_point(), Some(Point { w: 1, x: 7, y: 10 }));
}

#[test]
fn rotor_half_turn() {
    // cos and sine of the half-angle for a half turn: (0, 1)
    let m = Multivector::e12().rotor(0, 1);
    let p = Multivector::point(1, 0);
    let q = m.sandwich(p);
    assert_eq!(q.to_point(), Some(Point { w: 1, x: -1, y: 0 }));
}

#[test]
fn to_point_cases() {
    // an ideal point (zero weight) has no Euclidean point
    let ideal = Multivector::e20();
    assert_eq!(ideal.to_point(), None);
    // a mixed-grade element has no Euclidean point
    let mixed = mv(1, 0, 0, 0, 1, 2, 3, 0);
    assert_eq!(mixed.to_point(), None);
    // an ordinary point comes back in homogeneous form
    let p = mv(0, 0, 0, 0, 2, 6, -4, 0);
    assert_eq!(p.to_point(), Some(Point { w: 2, x: 6, y: -4 }));
}

#[test]
fn dist_sq_cases() {
    // distance between (0,0) and (3,4) is 5; the meet of two points is a
    // line, whose signed squared length is negative: -25/1
    let a = Multivector::point(0, 0);
    let b = Multivector::point(3, 4);
    assert_eq!(a.dist_sq(b), Some((-25, 1)));
    // a degenerate (ideal) operand has no normalized form
    let ideal = Multivector::e20();
    assert_eq!(a.dist_sq(ideal), None);
}
