//! Algebraic laws of the model, proved once and for all multivectors.
//!
//! The geometric product is bilinear, so its associativity is reduced to
//! associativity with a basis blade in the middle position, one short lemma
//! per blade, and then assembled by decomposing the middle factor over the
//! basis.

use vstd::prelude::*;
use crate::pga::{Mv, mv_add, mv_mul, mv_scale, mv_neg, mv_one, mv_e0, mv_e1, mv_e2, mv_e12,
    mv_e20, mv_e01, mv_e012, mv_rev, mv_dual, mv_wedge, mv_meet, mv_sandwich, mv_translator};

verus! {

/// The geometric product distributes over addition on the left:
/// `u * (v + w) == u * v + u * w`.
pub proof fn lemma_mul_distributes_left(u: Mv, v: Mv, w: Mv)
    ensures
        mv_mul(u, mv_add(v, w)) == mv_add(mv_mul(u, v), mv_mul(u, w)),
{
    broadcast use vstd::arithmetic::mul::group_mul_is_commutative_and_distributive;

}

/// The geometric product distributes over addition on the right:
/// `(v + w) * u == v * u + w * u`.
pub proof fn lemma_mul_distributes_right(u: Mv, v: Mv, w: Mv)
    ensures
        mv_mul(mv_add(v, w), u) == mv_add(mv_mul(v, u), mv_mul(w, u)),
{
    broadcast use vstd::arithmetic::mul::group_mul_is_commutative_and_distributive;

}

/// Scalars slide through the product: `(a u) v == a (u v)`.
pub proof fn lemma_mul_scale_left(a: int, u: Mv, v: Mv)
    ensures
        mv_mul(mv_scale(a, u), v) == mv_scale(a, mv_mul(u, v)),
{
    broadcast use vstd::arithmetic::mul::group_mul_properties;

}

/// Scalars slide through the product: `u (a v) == a (u v)`.
pub proof fn lemma_mul_scale_right(a: int, u: Mv, v: Mv)
    ensures
        mv_mul(u, mv_scale(a, v)) == mv_scale(a, mv_mul(u, v)),
{
    broadcast use vstd::arithmetic::mul::group_mul_properties;

}

/// The scalar unit is a two-sided identity: `1 u == u 1 == u`.
pub proof fn lemma_mul_one(u: Mv)
    ensures
        mv_mul(mv_one(), u) == u,
        mv_mul(u, mv_one()) == u,
{
}

/// `m` associates between `u` and `w`: `u (m w) == (u m) w`.
pub open spec fn assoc_mid(u: Mv, m: Mv, w: Mv) -> bool {
    mv_mul(u, mv_mul(m, w)) == mv_mul(mv_mul(u, m), w)
}

#[verifier::rlimit(60)]
proof fn lemma_assoc_mid_one(u: Mv, w: Mv)
    ensures
        assoc_mid(u, mv_one(), w),
{
    broadcast use vstd::arithmetic::mul::group_mul_properties;

}

#[verifier::rlimit(60)]
proof fn lemma_assoc_mid_e0(u: Mv, w: Mv)
    ensures
        assoc_mid(u, mv_e0(), w),
{
    broadcast use vstd::arithmetic::mul::group_mul_is_commutative_and_distributive;
    broadcast use vstd::arithmetic::mul::lemma_mul_unary_negation;


}

#[verifier::rlimit(60)]
proof fn lemma_assoc_mid_e1(u: Mv, w: Mv)
    ensures
        assoc_mid(u, mv_e1(), w),
{
    broadcast use vstd::arithmetic::mul::group_mul_is_commutative_and_distributive;
    broadcast use vstd::arithmetic::mul::lemma_mul_unary_negation;


}

#[verifier::rlimit(60)]
proof fn lemma_assoc_mid_e2(u: Mv, w: Mv)
    ensures
        assoc_mid(u, mv_e2(), w),
{
    broadcast use vstd::arithmetic::mul::group_mul_is_commutative_and_distributive;
    broadcast use vstd::arithmetic::mul::lemma_mul_unary_negation;


}

#[verifier::rlimit(60)]
proof fn lemma_assoc_mid_e12(u: Mv, w: Mv)
    ensures
        assoc_mid(u, mv_e12(), w),
{
    broadcast use vstd::arithmetic::mul::group_mul_is_commutative_and_distributive;
    broadcast use vstd::arithmetic::mul::lemma_mul_unary_negation;


}

#[verifier::rlimit(60)]
proof fn lemma_assoc_mid_e20(u: Mv, w: Mv)
    ensures
        assoc_mid(u, mv_e20(), w),
{
    broadcast use vstd::arithmetic::mul::group_mul_is_commutative_and_distributive;
    broadcast use vstd::arithmetic::mul::lemma_mul_unary_negation;


}

#[verifier::rlimit(60)]
proof fn lemma_assoc_mid_e01(u: Mv, w: Mv)
    ensures
        assoc_mid(u, mv_e01(), w),
{
    broadcast use vstd::arithmetic::mul::group_mul_is_commutative_and_distributive;
    broadcast use vstd::arithmetic::mul::lemma_mul_unary_negation;


}

#[verifier::rlimit(60)]
proof fn lemma_assoc_mid_e012(u: Mv, w: Mv)
    ensures
        assoc_mid(u, mv_e012(), w),
{
    broadcast use vstd::arithmetic::mul::group_mul_is_commutative_and_distributive;
    broadcast use vstd::arithmetic::mul::lemma_mul_unary_negation;


}

proof fn lemma_assoc_mid_scale(u: Mv, k: int, b: Mv, w: Mv)
    requires
        assoc_mid(u, b, w),
    ensures
        assoc_mid(u, mv_scale(k, b), w),
{
    lemma_mul_scale_left(k, b, w);
    lemma_mul_scale_right(k, u, mv_mul(b, w));
    lemma_mul_scale_left(k, mv_mul(u, b), w);
    lemma_mul_scale_right(k, u, b);
}

proof fn lemma_assoc_mid_add(u: Mv, x: Mv, y: Mv, w: Mv)
    requires
        assoc_mid(u, x, w),
        assoc_mid(u, y, w),
    ensures
        assoc_mid(u, mv_add(x, y), w),
{
    lemma_mul_distributes_right(w, x, y);
    lemma_mul_distributes_left(u, mv_mul(x, w), mv_mul(y, w));
    lemma_mul_distributes_right(w, mv_mul(u, x), mv_mul(u, y));
    lemma_mul_distributes_left(u, x, y);
}

/// `c` written as the sum of its eight scaled basis blades.
spec fn mv_basis_sum(c: Mv) -> Mv {
    mv_add(
        mv_add(
            mv_add(mv_scale(c.s, mv_one()), mv_scale(c.e0, mv_e0())),
            mv_add(mv_scale(c.e1, mv_e1()), mv_scale(c.e2, mv_e2())),
        ),
        mv_add(
            mv_add(mv_scale(c.e12, mv_e12()), mv_scale(c.e20, mv_e20())),
            mv_add(mv_scale(c.e01, mv_e01()), mv_scale(c.e012, mv_e012())),
        ),
    )
}

/// Associativity of the geometric product: `u * (v * w) == (u * v) * w`.
pub proof fn lemma_mul_assoc(u: Mv, v: Mv, w: Mv)
    ensures
        mv_mul(u, mv_mul(v, w)) == mv_mul(mv_mul(u, v), w),
{
    lemma_assoc_mid_one(u, w);
    lemma_assoc_mid_e0(u, w);
    lemma_assoc_mid_e1(u, w);
    lemma_assoc_mid_e2(u, w);
    lemma_assoc_mid_e12(u, w);
    lemma_assoc_mid_e20(u, w);
    lemma_assoc_mid_e01(u, w);
    lemma_assoc_mid_e012(u, w);
    lemma_assoc_mid_scale(u, v.s, mv_one(), w);
    lemma_assoc_mid_scale(u, v.e0, mv_e0(), w);
    lemma_assoc_mid_scale(u, v.e1, mv_e1(), w);
    lemma_assoc_mid_scale(u, v.e2, mv_e2(), w);
    lemma_assoc_mid_scale(u, v.e12, mv_e12(), w);
    lemma_assoc_mid_scale(u, v.e20, mv_e20(), w);
    lemma_assoc_mid_scale(u, v.e01, mv_e01(), w);
    lemma_assoc_mid_scale(u, v.e012, mv_e012(), w);
    lemma_assoc_mid_add(u, mv_scale(v.s, mv_one()), mv_scale(v.e0, mv_e0()), w);
    lemma_assoc_mid_add(u, mv_scale(v.e1, mv_e1()), mv_scale(v.e2, mv_e2()), w);
    lemma_assoc_mid_add(u, mv_scale(v.e12, mv_e12()), mv_scale(v.e20, mv_e20()), w);
    lemma_assoc_mid_add(u, mv_scale(v.e01, mv_e01()), mv_scale(v.e012, mv_e012()), w);
    lemma_assoc_mid_add(
        u,
        mv_add(mv_scale(v.s, mv_one()), mv_scale(v.e0, mv_e0())),
        mv_add(mv_scale(v.e1, mv_e1()), mv_scale(v.e2, mv_e2())),
        w,
    );
    lemma_assoc_mid_add(
        u,
        mv_add(mv_scale(v.e12, mv_e12()), mv_scale(v.e20, mv_e20())),
        mv_add(mv_scale(v.e01, mv_e01()), mv_scale(v.e012, mv_e012())),
        w,
    );
    lemma_assoc_mid_add(
        u,
        mv_add(
            mv_add(mv_scale(v.s, mv_one()), mv_scale(v.e0, mv_e0())),
            mv_add(mv_scale(v.e1, mv_e1()), mv_scale(v.e2, mv_e2())),
        ),
        mv_add(
            mv_add(mv_scale(v.e12, mv_e12()), mv_scale(v.e20, mv_e20())),
            mv_add(mv_scale(v.e01, mv_e01()), mv_scale(v.e012, mv_e012())),
        ),
        w,
    );
    assert(mv_basis_sum(v) == v);
    assert(assoc_mid(u, v, w));
}

/// `m` lies in the even subalgebra: only scalar and grade-2 components.
pub open spec fn mv_is_even(m: Mv) -> bool {
    m.e0 == 0 && m.e1 == 0 && m.e2 == 0 && m.e012 == 0
}

/// `m` is a motor: an even element with `m * rev(m) == 1`.
pub open spec fn mv_is_motor(m: Mv) -> bool {
    mv_is_even(m) && mv_mul(m, mv_rev(m)) == mv_one()
}

/// `m` is a pure grade-1 element (a line).
pub open spec fn mv_is_vector(m: Mv) -> bool {
    m.s == 0 && m.e12 == 0 && m.e20 == 0 && m.e01 == 0 && m.e012 == 0
}

/// A motor's inverse is its reverse, on both sides, and taking the inverse
/// twice returns the motor: `m rev(m) == rev(m) m == 1` and
/// `rev(rev(m)) == m`.
pub proof fn lemma_motor_inverse(m: Mv)
    requires
        mv_is_motor(m),
    ensures
        mv_mul(m, mv_rev(m)) == mv_one(),
        mv_mul(mv_rev(m), m) == mv_one(),
        mv_rev(mv_rev(m)) == m,
{
    vstd::arithmetic::mul::lemma_mul_is_commutative(m.s, m.e12);
    vstd::arithmetic::mul::lemma_mul_is_commutative(m.s, m.e20);
    vstd::arithmetic::mul::lemma_mul_is_commutative(m.s, m.e01);
    vstd::arithmetic::mul::lemma_mul_is_commutative(m.e12, m.e20);
    vstd::arithmetic::mul::lemma_mul_is_commutative(m.e12, m.e01);
    vstd::arithmetic::mul::lemma_mul_is_commutative(m.e20, m.e01);
    vstd::arithmetic::mul::lemma_mul_unary_negation(m.s, m.e12);
    vstd::arithmetic::mul::lemma_mul_unary_negation(m.s, m.e20);
    vstd::arithmetic::mul::lemma_mul_unary_negation(m.s, m.e01);
    vstd::arithmetic::mul::lemma_mul_unary_negation(m.e12, m.e20);
    vstd::arithmetic::mul::lemma_mul_unary_negation(m.e12, m.e01);
    vstd::arithmetic::mul::lemma_mul_unary_negation(m.e20, m.e12);
    vstd::arithmetic::mul::lemma_mul_unary_negation(m.e01, m.e12);
    vstd::arithmetic::mul::lemma_mul_unary_negation(m.e20, m.e01);
    vstd::arithmetic::mul::lemma_mul_unary_negation(m.e01, m.e20);
    assert(mv_mul(mv_rev(m), m) == mv_mul(m, mv_rev(m)));
}

/// Reversal is an involution on every multivector: `rev(rev(u)) == u`.
pub proof fn lemma_rev_involution(u: Mv)
    ensures
        mv_rev(mv_rev(u)) == u,
{
}

/// Dual involution: under this algebra's sign convention the complement
/// of the complement is the element itself, `!!u == u`, for every `u`.
pub proof fn lemma_dual_involution(u: Mv)
    ensures
        mv_dual(mv_dual(u)) == u,
{
}

/// Meet/join duality: `a & b == !(!a ^ !b)` by definition, and dually
/// `!(a ^ b) == !a & !b`.
pub proof fn lemma_meet_duality(a: Mv, b: Mv)
    ensures
        mv_meet(a, b) == mv_dual(mv_wedge(mv_dual(a), mv_dual(b))),
        mv_dual(mv_wedge(a, b)) == mv_meet(mv_dual(a), mv_dual(b)),
{
    lemma_dual_involution(mv_wedge(a, b));
}

/// The wedge of two grade-1 elements anticommutes: `a ^ b == -(b ^ a)`.
pub proof fn lemma_wedge_anticommutes(a: Mv, b: Mv)
    requires
        mv_is_vector(a),
        mv_is_vector(b),
    ensures
        mv_wedge(a, b) == mv_neg(mv_wedge(b, a)),
{
    vstd::arithmetic::mul::lemma_mul_is_commutative(a.e0, b.e1);
    vstd::arithmetic::mul::lemma_mul_is_commutative(a.e0, b.e2);
    vstd::arithmetic::mul::lemma_mul_is_commutative(a.e1, b.e0);
    vstd::arithmetic::mul::lemma_mul_is_commutative(a.e1, b.e2);
    vstd::arithmetic::mul::lemma_mul_is_commutative(a.e2, b.e0);
    vstd::arithmetic::mul::lemma_mul_is_commutative(a.e2, b.e1);
}

/// Motion round trip: a translator composed with its opposite is the
/// identity motor, exactly.
pub proof fn lemma_translator_round_trip(hx: int, hy: int)
    ensures
        mv_mul(mv_translator(hx, hy), mv_translator(-hx, -hy)) == mv_one(),
        mv_mul(mv_translator(-hx, -hy), mv_translator(hx, hy)) == mv_one(),
{
}

/// The identity motor moves nothing: `1 x rev(1) == x`.
pub proof fn lemma_sandwich_identity(x: Mv)
    ensures
        mv_sandwich(mv_one(), x) == x,
{
    lemma_mul_one(x);
    lemma_mul_one(mv_mul(mv_one(), x));
}

} // verus!

