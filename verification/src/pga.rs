//! Multivectors of the 2-D projective geometric algebra.
//!
//! The algebra is generated by `e0, e1, e2` with signature `e0*e0 == 0`,
//! `e1*e1 == 1`, `e2*e2 == 1` (one null "ideal" generator, two Euclidean
//! ones).  The eight basis blades, in the fixed component order shared by
//! every operation, are
//! `1, e0, e1, e2, e12, e20, e01, e012`:
//! scalar, the three grade-1 lines, the three grade-2 points
//! (`e12` is the origin, `e20` and `e01` the two ideal points of the axes),
//! and the pseudoscalar.
//!
//! Coefficients are exact 64-bit integers; the ghost model [`Mv`] carries the
//! same eight components as unbounded integers, and every operation is
//! specified against that model.

use vstd::prelude::*;

verus! {

/// Ghost model of a multivector: the eight blade coefficients as
/// mathematical integers, in the canonical component order.
pub ghost struct Mv {
    pub s: int,
    pub e0: int,
    pub e1: int,
    pub e2: int,
    pub e12: int,
    pub e20: int,
    pub e01: int,
    pub e012: int,
}

/// The zero multivector of the model.
pub open spec fn mv_zero() -> Mv {
    Mv { s: 0, e0: 0, e1: 0, e2: 0, e12: 0, e20: 0, e01: 0, e012: 0 }
}

/// The scalar unit of the model.
pub open spec fn mv_one() -> Mv {
    Mv { s: 1, e0: 0, e1: 0, e2: 0, e12: 0, e20: 0, e01: 0, e012: 0 }
}

/// The basis line `e0` of the model.
pub open spec fn mv_e0() -> Mv {
    Mv { s: 0, e0: 1, e1: 0, e2: 0, e12: 0, e20: 0, e01: 0, e012: 0 }
}

/// The basis line `e1` of the model.
pub open spec fn mv_e1() -> Mv {
    Mv { s: 0, e0: 0, e1: 1, e2: 0, e12: 0, e20: 0, e01: 0, e012: 0 }
}

/// The basis line `e2` of the model.
pub open spec fn mv_e2() -> Mv {
    Mv { s: 0, e0: 0, e1: 0, e2: 1, e12: 0, e20: 0, e01: 0, e012: 0 }
}

/// The basis point `e12` (the origin) of the model.
pub open spec fn mv_e12() -> Mv {
    Mv { s: 0, e0: 0, e1: 0, e2: 0, e12: 1, e20: 0, e01: 0, e012: 0 }
}

/// The ideal basis point `e20` of the model.
pub open spec fn mv_e20() -> Mv {
    Mv { s: 0, e0: 0, e1: 0, e2: 0, e12: 0, e20: 1, e01: 0, e012: 0 }
}

/// The ideal basis point `e01` of the model.
pub open spec fn mv_e01() -> Mv {
    Mv { s: 0, e0: 0, e1: 0, e2: 0, e12: 0, e20: 0, e01: 1, e012: 0 }
}

/// The pseudoscalar `e012` of the model.
pub open spec fn mv_e012() -> Mv {
    Mv { s: 0, e0: 0, e1: 0, e2: 0, e12: 0, e20: 0, e01: 0, e012: 1 }
}

/// Component-wise sum.
pub open spec fn mv_add(a: Mv, b: Mv) -> Mv {
    Mv {
        s: a.s + b.s,
        e0: a.e0 + b.e0,
        e1: a.e1 + b.e1,
        e2: a.e2 + b.e2,
        e12: a.e12 + b.e12,
        e20: a.e20 + b.e20,
        e01: a.e01 + b.e01,
        e012: a.e012 + b.e012,
    }
}

/// Component-wise negation.
pub open spec fn mv_neg(a: Mv) -> Mv {
    Mv {
        s: -a.s,
        e0: -a.e0,
        e1: -a.e1,
        e2: -a.e2,
        e12: -a.e12,
        e20: -a.e20,
        e01: -a.e01,
        e012: -a.e012,
    }
}

/// Component-wise difference.
pub open spec fn mv_sub(a: Mv, b: Mv) -> Mv {
    mv_add(a, mv_neg(b))
}

/// Scaling by an integer scalar.
pub open spec fn mv_scale(c: int, a: Mv) -> Mv {
    Mv {
        s: c * a.s,
        e0: c * a.e0,
        e1: c * a.e1,
        e2: c * a.e2,
        e12: c * a.e12,
        e20: c * a.e20,
        e01: c * a.e01,
        e012: c * a.e012,
    }
}

/// Geometric product of the model, the full bilinear expansion of the
/// Cayley table for the signature `(e0*e0, e1*e1, e2*e2) == (0, 1, 1)`.
pub open spec fn mv_mul(a: Mv, b: Mv) -> Mv {
    Mv {
        s: a.s * b.s + a.e1 * b.e1 + a.e2 * b.e2 - a.e12 * b.e12,
        e0: a.s * b.e0 + a.e0 * b.s - a.e1 * b.e01 + a.e01 * b.e1 + a.e2 * b.e20 - a.e20 * b.e2
            - a.e12 * b.e012 - a.e012 * b.e12,
        e1: a.s * b.e1 + a.e1 * b.s - a.e2 * b.e12 + a.e12 * b.e2,
        e2: a.s * b.e2 + a.e2 * b.s + a.e1 * b.e12 - a.e12 * b.e1,
        e12: a.s * b.e12 + a.e12 * b.s + a.e1 * b.e2 - a.e2 * b.e1,
        e20: a.s * b.e20 + a.e20 * b.s + a.e2 * b.e0 - a.e0 * b.e2 + a.e1 * b.e012
            + a.e012 * b.e1 + a.e12 * b.e01 - a.e01 * b.e12,
        e01: a.s * b.e01 + a.e01 * b.s + a.e0 * b.e1 - a.e1 * b.e0 + a.e2 * b.e012
            + a.e012 * b.e2 + a.e20 * b.e12 - a.e12 * b.e20,
        e012: a.s * b.e012 + a.e012 * b.s + a.e0 * b.e12 + a.e12 * b.e0 + a.e1 * b.e20
            + a.e20 * b.e1 + a.e2 * b.e01 + a.e01 * b.e2,
    }
}

/// Inner (dot) product of the model: the grade-lowering part of the
/// geometric product, the bilinear extension of the grade-filtered table.
pub open spec fn mv_inner(a: Mv, b: Mv) -> Mv {
    Mv {
        s: a.s * b.s + a.e1 * b.e1 + a.e2 * b.e2 - a.e12 * b.e12,
        e0: a.e0 * b.s - a.e20 * b.e2 + a.e01 * b.e1 - a.e012 * b.e12,
        e1: a.e1 * b.s + a.e12 * b.e2,
        e2: a.e2 * b.s - a.e12 * b.e1,
        e12: a.e12 * b.s,
        e20: a.e20 * b.s + a.e012 * b.e1,
        e01: a.e01 * b.s + a.e012 * b.e2,
        e012: a.e012 * b.s,
    }
}

/// Outer (wedge) product of the model: the grade-raising part of the
/// geometric product.
pub open spec fn mv_wedge(a: Mv, b: Mv) -> Mv {
    Mv {
        s: a.s * b.s,
        e0: a.s * b.e0 + a.e0 * b.s,
        e1: a.s * b.e1 + a.e1 * b.s,
        e2: a.s * b.e2 + a.e2 * b.s,
        e12: a.s * b.e12 + a.e12 * b.s + a.e1 * b.e2 - a.e2 * b.e1,
        e20: a.s * b.e20 + a.e20 * b.s + a.e2 * b.e0 - a.e0 * b.e2,
        e01: a.s * b.e01 + a.e01 * b.s + a.e0 * b.e1 - a.e1 * b.e0,
        e012: a.s * b.e012 + a.e012 * b.s + a.e0 * b.e12 + a.e12 * b.e0 + a.e1 * b.e20
            + a.e20 * b.e1 + a.e2 * b.e01 + a.e01 * b.e2,
    }
}

/// Dual (complement): each blade is swapped with its complementary blade,
/// with sign `+1` under this algebra's convention.
pub open spec fn mv_dual(a: Mv) -> Mv {
    Mv {
        s: a.e012,
        e0: a.e12,
        e1: a.e20,
        e2: a.e01,
        e12: a.e0,
        e20: a.e1,
        e01: a.e2,
        e012: a.s,
    }
}

/// Reverse: a blade of grade `k` is scaled by `(-1)^(k*(k-1)/2)`,
/// so grades 2 and 3 change sign.
pub open spec fn mv_rev(a: Mv) -> Mv {
    Mv {
        s: a.s,
        e0: a.e0,
        e1: a.e1,
        e2: a.e2,
        e12: -a.e12,
        e20: -a.e20,
        e01: -a.e01,
        e012: -a.e012,
    }
}

/// Conjugate: grades 1 and 2 change sign.
pub open spec fn mv_conj(a: Mv) -> Mv {
    Mv {
        s: a.s,
        e0: -a.e0,
        e1: -a.e1,
        e2: -a.e2,
        e12: -a.e12,
        e20: -a.e20,
        e01: -a.e01,
        e012: a.e012,
    }
}

/// Regressive (meet) product: `a & b == !(!a ^ !b)`.
pub open spec fn mv_meet(a: Mv, b: Mv) -> Mv {
    mv_dual(mv_wedge(mv_dual(a), mv_dual(b)))
}

/// Sandwich transform: `m x rev(m)`, the uniform rigid-motion application.
pub open spec fn mv_sandwich(m: Mv, x: Mv) -> Mv {
    mv_mul(mv_mul(m, x), mv_rev(m))
}

/// The signed squared length: the scalar part of `a * conj(a)`.
pub open spec fn mv_len_scalar(a: Mv) -> int {
    mv_mul(a, mv_conj(a)).s
}

/// A translator by the displacement `(2 hx, 2 hy)`:
/// `1 + hy e20 - hx e01`.
pub open spec fn mv_translator(hx: int, hy: int) -> Mv {
    Mv { s: 1, e0: 0, e1: 0, e2: 0, e12: 0, e20: hy, e01: -hx, e012: 0 }
}

/// Every component of `m` fits in an `i64`.
pub open spec fn mv_fits(m: Mv) -> bool {
    &&& i64::MIN <= m.s <= i64::MAX
    &&& i64::MIN <= m.e0 <= i64::MAX
    &&& i64::MIN <= m.e1 <= i64::MAX
    &&& i64::MIN <= m.e2 <= i64::MAX
    &&& i64::MIN <= m.e12 <= i64::MAX
    &&& i64::MIN <= m.e20 <= i64::MAX
    &&& i64::MIN <= m.e01 <= i64::MAX
    &&& i64::MIN <= m.e012 <= i64::MAX
}

/// Every component of `m` lies within `-b ..= b`.
pub open spec fn mv_bounded(m: Mv, b: int) -> bool {
    &&& -b <= m.s <= b
    &&& -b <= m.e0 <= b
    &&& -b <= m.e1 <= b
    &&& -b <= m.e2 <= b
    &&& -b <= m.e12 <= b
    &&& -b <= m.e20 <= b
    &&& -b <= m.e01 <= b
    &&& -b <= m.e012 <= b
}

/// A multivector with exact 64-bit integer coefficients, one per basis
/// blade in the canonical order `1, e0, e1, e2, e12, e20, e01, e012`.
#[derive(Clone, Copy, PartialEq, Eq, Structural, Debug)]
pub struct Multivector {
    pub s: i64,
    pub e0: i64,
    pub e1: i64,
    pub e2: i64,
    pub e12: i64,
    pub e20: i64,
    pub e01: i64,
    pub e012: i64,
}

impl View for Multivector {
    type V = Mv;

    open spec fn view(&self) -> Mv {
        Mv {
            s: self.s as int,
            e0: self.e0 as int,
            e1: self.e1 as int,
            e2: self.e2 as int,
            e12: self.e12 as int,
            e20: self.e20 as int,
            e01: self.e01 as int,
            e012: self.e012 as int,
        }
    }
}

impl Multivector {
    /// The zero multivector.
    pub fn zero() -> (r: Multivector)
        ensures
            r@ == mv_zero(),
    {
        Multivector { s: 0, e0: 0, e1: 0, e2: 0, e12: 0, e20: 0, e01: 0, e012: 0 }
    }

    /// The scalar unit `1`.
    pub fn one() -> (r: Multivector)
        ensures
            r@ == mv_one(),
    {
        Multivector { s: 1, e0: 0, e1: 0, e2: 0, e12: 0, e20: 0, e01: 0, e012: 0 }
    }

    /// A pure scalar `c`.
    pub fn scalar(c: i64) -> (r: Multivector)
        ensures
            r@ == mv_scale(c as int, mv_one()),
    {
        Multivector { s: c, e0: 0, e1: 0, e2: 0, e12: 0, e20: 0, e01: 0, e012: 0 }
    }

    /// Component-wise sum.
    pub fn add(self, other: Multivector) -> (r: Multivector)
        requires
            mv_fits(mv_add(self@, other@)),
        ensures
            r@ == mv_add(self@, other@),
    {
        Multivector {
            s: self.s + other.s,
            e0: self.e0 + other.e0,
            e1: self.e1 + other.e1,
            e2: self.e2 + other.e2,
            e12: self.e12 + other.e12,
            e20: self.e20 + other.e20,
            e01: self.e01 + other.e01,
            e012: self.e012 + other.e012,
        }
    }

    /// Component-wise negation.
    pub fn neg(self) -> (r: Multivector)
        requires
            mv_fits(mv_neg(self@)),
        ensures
            r@ == mv_neg(self@),
    {
        Multivector {
            s: -self.s,
            e0: -self.e0,
            e1: -self.e1,
            e2: -self.e2,
            e12: -self.e12,
            e20: -self.e20,
            e01: -self.e01,
            e012: -self.e012,
        }
    }

    /// Component-wise difference.
    pub fn sub(self, other: Multivector) -> (r: Multivector)
        requires
            mv_fits(mv_neg(other@)),
            mv_fits(mv_sub(self@, other@)),
        ensures
            r@ == mv_sub(self@, other@),
    {
        self.add(other.neg())
    }

    /// Scaling by an integer scalar.
    pub fn scale(self, c: i64) -> (r: Multivector)
        requires
            mv_fits(mv_scale(c as int, self@)),
        ensures
            r@ == mv_scale(c as int, self@),
    {
        Multivector {
            s: c * self.s,
            e0: c * self.e0,
            e1: c * self.e1,
            e2: c * self.e2,
            e12: c * self.e12,
            e20: c * self.e20,
            e01: c * self.e01,
            e012: c * self.e012,
        }
    }
}

/// Coefficient bound under which one geometric, inner, outer or regressive
/// product cannot overflow: every term of a component is then at most
/// `PROD_TERM` in magnitude, and a component is a sum of at most eight terms.
pub const PROD_BOUND: i64 = 1_000_000_000;

/// Bound on one product of two `PROD_BOUND`-bounded coefficients.
pub const PROD_TERM: i64 = 1_000_000_000_000_000_000;

/// Coefficient bound under which a sandwich transform (two chained
/// products) and a squared distance cannot overflow.
pub const MOTION_BOUND: i64 = 10_000;

/// The absolute value of an integer.
pub open spec fn abs_i(x: int) -> int {
    if x < 0 {
        -x
    } else {
        x
    }
}

proof fn lemma_prod_bound(x: int, y: int, b: int)
    requires
        -b <= x <= b,
        -b <= y <= b,
        0 <= b,
    ensures
        -(b * b) <= x * y <= b * b,
{
    assert(-(b * b) <= x * y <= b * b) by (nonlinear_arith)
        requires
            -b <= x <= b,
            -b <= y <= b,
            0 <= b,
    {}
}

/// Every component of a geometric product of `k`-bounded multivectors is
/// a sum of at most eight terms, each at most `k * k` in magnitude.
pub proof fn lemma_mul_bounded(a: Mv, b: Mv, k: int)
    requires
        mv_bounded(a, k),
        mv_bounded(b, k),
        0 <= k,
    ensures
        mv_bounded(mv_mul(a, b), 8 * (k * k)),
{
    lemma_prod_bound(a.s, b.s, k);
    lemma_prod_bound(a.s, b.e0, k);
    lemma_prod_bound(a.s, b.e1, k);
    lemma_prod_bound(a.s, b.e2, k);
    lemma_prod_bound(a.s, b.e12, k);
    lemma_prod_bound(a.s, b.e20, k);
    lemma_prod_bound(a.s, b.e01, k);
    lemma_prod_bound(a.s, b.e012, k);
    lemma_prod_bound(a.e0, b.s, k);
    lemma_prod_bound(a.e0, b.e0, k);
    lemma_prod_bound(a.e0, b.e1, k);
    lemma_prod_bound(a.e0, b.e2, k);
    lemma_prod_bound(a.e0, b.e12, k);
    lemma_prod_bound(a.e0, b.e20, k);
    lemma_prod_bound(a.e0, b.e01, k);
    lemma_prod_bound(a.e0, b.e012, k);
    lemma_prod_bound(a.e1, b.s, k);
    lemma_prod_bound(a.e1, b.e0, k);
    lemma_prod_bound(a.e1, b.e1, k);
    lemma_prod_bound(a.e1, b.e2, k);
    lemma_prod_bound(a.e1, b.e12, k);
    lemma_prod_bound(a.e1, b.e20, k);
    lemma_prod_bound(a.e1, b.e01, k);
    lemma_prod_bound(a.e1, b.e012, k);
    lemma_prod_bound(a.e2, b.s, k);
    lemma_prod_bound(a.e2, b.e0, k);
    lemma_prod_bound(a.e2, b.e1, k);
    lemma_prod_bound(a.e2, b.e2, k);
    lemma_prod_bound(a.e2, b.e12, k);
    lemma_prod_bound(a.e2, b.e20, k);
    lemma_prod_bound(a.e2, b.e01, k);
    lemma_prod_bound(a.e2, b.e012, k);
    lemma_prod_bound(a.e12, b.s, k);
    lemma_prod_bound(a.e12, b.e0, k);
    lemma_prod_bound(a.e12, b.e1, k);
    lemma_prod_bound(a.e12, b.e2, k);
    lemma_prod_bound(a.e12, b.e12, k);
    lemma_prod_bound(a.e12, b.e20, k);
    lemma_prod_bound(a.e12, b.e01, k);
    lemma_prod_bound(a.e12, b.e012, k);
    lemma_prod_bound(a.e20, b.s, k);
    lemma_prod_bound(a.e20, b.e0, k);
    lemma_prod_bound(a.e20, b.e1, k);
    lemma_prod_bound(a.e20, b.e2, k);
    lemma_prod_bound(a.e20, b.e12, k);
    lemma_prod_bound(a.e20, b.e20, k);
    lemma_prod_bound(a.e20, b.e01, k);
    lemma_prod_bound(a.e20, b.e012, k);
    lemma_prod_bound(a.e01, b.s, k);
    lemma_prod_bound(a.e01, b.e0, k);
    lemma_prod_bound(a.e01, b.e1, k);
    lemma_prod_bound(a.e01, b.e2, k);
    lemma_prod_bound(a.e01, b.e12, k);
    lemma_prod_bound(a.e01, b.e20, k);
    lemma_prod_bound(a.e01, b.e01, k);
    lemma_prod_bound(a.e01, b.e012, k);
    lemma_prod_bound(a.e012, b.s, k);
    lemma_prod_bound(a.e012, b.e0, k);
    lemma_prod_bound(a.e012, b.e1, k);
    lemma_prod_bound(a.e012, b.e2, k);
    lemma_prod_bound(a.e012, b.e12, k);
    lemma_prod_bound(a.e012, b.e20, k);
    lemma_prod_bound(a.e012, b.e01, k);
    lemma_prod_bound(a.e012, b.e012, k);
}

/// The same bound for the outer product.
pub proof fn lemma_wedge_bounded(a: Mv, b: Mv, k: int)
    requires
        mv_bounded(a, k),
        mv_bounded(b, k),
        0 <= k,
    ensures
        mv_bounded(mv_wedge(a, b), 8 * (k * k)),
{
    lemma_prod_bound(a.s, b.s, k);
    lemma_prod_bound(a.s, b.e0, k);
    lemma_prod_bound(a.s, b.e1, k);
    lemma_prod_bound(a.s, b.e2, k);
    lemma_prod_bound(a.s, b.e12, k);
    lemma_prod_bound(a.s, b.e20, k);
    lemma_prod_bound(a.s, b.e01, k);
    lemma_prod_bound(a.s, b.e012, k);
    lemma_prod_bound(a.e0, b.s, k);
    lemma_prod_bound(a.e0, b.e0, k);
    lemma_prod_bound(a.e0, b.e1, k);
    lemma_prod_bound(a.e0, b.e2, k);
    lemma_prod_bound(a.e0, b.e12, k);
    lemma_prod_bound(a.e0, b.e20, k);
    lemma_prod_bound(a.e0, b.e01, k);
    lemma_prod_bound(a.e0, b.e012, k);
    lemma_prod_bound(a.e1, b.s, k);
    lemma_prod_bound(a.e1, b.e0, k);
    lemma_prod_bound(a.e1, b.e1, k);
    lemma_prod_bound(a.e1, b.e2, k);
    lemma_prod_bound(a.e1, b.e12, k);
    lemma_prod_bound(a.e1, b.e20, k);
    lemma_prod_bound(a.e1, b.e01, k);
    lemma_prod_bound(a.e1, b.e012, k);
    lemma_prod_bound(a.e2, b.s, k);
    lemma_prod_bound(a.e2, b.e0, k);
    lemma_prod_bound(a.e2, b.e1, k);
    lemma_prod_bound(a.e2, b.e2, k);
    lemma_prod_bound(a.e2, b.e12, k);
    lemma_prod_bound(a.e2, b.e20, k);
    lemma_prod_bound(a.e2, b.e01, k);
    lemma_prod_bound(a.e2, b.e012, k);
    lemma_prod_bound(a.e12, b.s, k);
    lemma_prod_bound(a.e12, b.e0, k);
    lemma_prod_bound(a.e12, b.e1, k);
    lemma_prod_bound(a.e12, b.e2, k);
    lemma_prod_bound(a.e12, b.e12, k);
    lemma_prod_bound(a.e12, b.e20, k);
    lemma_prod_bound(a.e12, b.e01, k);
    lemma_prod_bound(a.e12, b.e012, k);
    lemma_prod_bound(a.e20, b.s, k);
    lemma_prod_bound(a.e20, b.e0, k);
    lemma_prod_bound(a.e20, b.e1, k);
    lemma_prod_bound(a.e20, b.e2, k);
    lemma_prod_bound(a.e20, b.e12, k);
    lemma_prod_bound(a.e20, b.e20, k);
    lemma_prod_bound(a.e20, b.e01, k);
    lemma_prod_bound(a.e20, b.e012, k);
    lemma_prod_bound(a.e01, b.s, k);
    lemma_prod_bound(a.e01, b.e0, k);
    lemma_prod_bound(a.e01, b.e1, k);
    lemma_prod_bound(a.e01, b.e2, k);
    lemma_prod_bound(a.e01, b.e12, k);
    lemma_prod_bound(a.e01, b.e20, k);
    lemma_prod_bound(a.e01, b.e01, k);
    lemma_prod_bound(a.e01, b.e012, k);
    lemma_prod_bound(a.e012, b.s, k);
    lemma_prod_bound(a.e012, b.e0, k);
    lemma_prod_bound(a.e012, b.e1, k);
    lemma_prod_bound(a.e012, b.e2, k);
    lemma_prod_bound(a.e012, b.e12, k);
    lemma_prod_bound(a.e012, b.e20, k);
    lemma_prod_bound(a.e012, b.e01, k);
    lemma_prod_bound(a.e012, b.e012, k);
}

/// The same bound for the regressive product: the dual only permutes
/// components, so the outer-product bound carries over.
pub proof fn lemma_meet_bounded(a: Mv, b: Mv, k: int)
    requires
        mv_bounded(a, k),
        mv_bounded(b, k),
        0 <= k,
    ensures
        mv_bounded(mv_meet(a, b), 8 * (k * k)),
{
    lemma_wedge_bounded(mv_dual(a), mv_dual(b), k);
}

/// One exact bounded coefficient product, the building block of every
/// table-driven product below.
fn mulb(x: i64, y: i64) -> (r: i64)
    requires
        -PROD_BOUND <= x <= PROD_BOUND,
        -PROD_BOUND <= y <= PROD_BOUND,
    ensures
        r == x * y,
        -PROD_TERM <= r <= PROD_TERM,
{
    proof {
        lemma_prod_bound(x as int, y as int, PROD_BOUND as int);
    }
    x * y
}

impl Multivector {
    /// Geometric product `self * other`: for every pair of components, the
    /// Cayley-table entry accumulated into the result.
    pub fn mul(self, other: Multivector) -> (r: Multivector)
        requires
            mv_bounded(self@, PROD_BOUND as int),
            mv_bounded(other@, PROD_BOUND as int),
        ensures
            r@ == mv_mul(self@, other@),
    {
        let a = self;
        let b = other;
        Multivector {
            s: mulb(a.s, b.s) + mulb(a.e1, b.e1) + mulb(a.e2, b.e2) - mulb(a.e12, b.e12),
            e0: mulb(a.s, b.e0) + mulb(a.e0, b.s) - mulb(a.e1, b.e01) + mulb(a.e01, b.e1)
                + mulb(a.e2, b.e20) - mulb(a.e20, b.e2) - mulb(a.e12, b.e012)
                - mulb(a.e012, b.e12),
            e1: mulb(a.s, b.e1) + mulb(a.e1, b.s) - mulb(a.e2, b.e12) + mulb(a.e12, b.e2),
            e2: mulb(a.s, b.e2) + mulb(a.e2, b.s) + mulb(a.e1, b.e12) - mulb(a.e12, b.e1),
            e12: mulb(a.s, b.e12) + mulb(a.e12, b.s) + mulb(a.e1, b.e2) - mulb(a.e2, b.e1),
            e20: mulb(a.s, b.e20) + mulb(a.e20, b.s) + mulb(a.e2, b.e0) - mulb(a.e0, b.e2)
                + mulb(a.e1, b.e012) + mulb(a.e012, b.e1) + mulb(a.e12, b.e01)
                - mulb(a.e01, b.e12),
            e01: mulb(a.s, b.e01) + mulb(a.e01, b.s) + mulb(a.e0, b.e1) - mulb(a.e1, b.e0)
                + mulb(a.e2, b.e012) + mulb(a.e012, b.e2) + mulb(a.e20, b.e12)
                - mulb(a.e12, b.e20),
            e012: mulb(a.s, b.e012) + mulb(a.e012, b.s) + mulb(a.e0, b.e12) + mulb(a.e12, b.e0)
                + mulb(a.e1, b.e20) + mulb(a.e20, b.e1) + mulb(a.e2, b.e01)
                + mulb(a.e01, b.e2),
        }
    }

    /// Inner (dot) product `self | other`.
    pub fn dot(self, other: Multivector) -> (r: Multivector)
        requires
            mv_bounded(self@, PROD_BOUND as int),
            mv_bounded(other@, PROD_BOUND as int),
        ensures
            r@ == mv_inner(self@, other@),
    {
        let a = self;
        let b = other;
        Multivector {
            s: mulb(a.s, b.s) + mulb(a.e1, b.e1) + mulb(a.e2, b.e2) - mulb(a.e12, b.e12),
            e0: mulb(a.e0, b.s) - mulb(a.e20, b.e2) + mulb(a.e01, b.e1) - mulb(a.e012, b.e12),
            e1: mulb(a.e1, b.s) + mulb(a.e12, b.e2),
            e2: mulb(a.e2, b.s) - mulb(a.e12, b.e1),
            e12: mulb(a.e12, b.s),
            e20: mulb(a.e20, b.s) + mulb(a.e012, b.e1),
            e01: mulb(a.e01, b.s) + mulb(a.e012, b.e2),
            e012: mulb(a.e012, b.s),
        }
    }

    /// Outer (wedge) product `self ^ other`.
    pub fn wedge(self, other: Multivector) -> (r: Multivector)
        requires
            mv_bounded(self@, PROD_BOUND as int),
            mv_bounded(other@, PROD_BOUND as int),
        ensures
            r@ == mv_wedge(self@, other@),
    {
        let a = self;
        let b = other;
        Multivector {
            s: mulb(a.s, b.s),
            e0: mulb(a.s, b.e0) + mulb(a.e0, b.s),
            e1: mulb(a.s, b.e1) + mulb(a.e1, b.s),
            e2: mulb(a.s, b.e2) + mulb(a.e2, b.s),
            e12: mulb(a.s, b.e12) + mulb(a.e12, b.s) + mulb(a.e1, b.e2) - mulb(a.e2, b.e1),
            e20: mulb(a.s, b.e20) + mulb(a.e20, b.s) + mulb(a.e2, b.e0) - mulb(a.e0, b.e2),
            e01: mulb(a.s, b.e01) + mulb(a.e01, b.s) + mulb(a.e0, b.e1) - mulb(a.e1, b.e0),
            e012: mulb(a.s, b.e012) + mulb(a.e012, b.s) + mulb(a.e0, b.e12) + mulb(a.e12, b.e0)
                + mulb(a.e1, b.e20) + mulb(a.e20, b.e1) + mulb(a.e2, b.e01)
                + mulb(a.e01, b.e2),
        }
    }

    /// Dual (complement) `!self`: swaps each blade with its complement.
    pub fn dual(self) -> (r: Multivector)
        ensures
            r@ == mv_dual(self@),
    {
        Multivector {
            s: self.e012,
            e0: self.e12,
            e1: self.e20,
            e2: self.e01,
            e12: self.e0,
            e20: self.e1,
            e01: self.e2,
            e012: self.s,
        }
    }

    /// Reverse: grades 2 and 3 change sign.
    pub fn reverse(self) -> (r: Multivector)
        requires
            mv_fits(mv_rev(self@)),
        ensures
            r@ == mv_rev(self@),
    {
        Multivector {
            s: self.s,
            e0: self.e0,
            e1: self.e1,
            e2: self.e2,
            e12: -self.e12,
            e20: -self.e20,
            e01: -self.e01,
            e012: -self.e012,
        }
    }

    /// Conjugate: grades 1 and 2 change sign.
    pub fn conjugate(self) -> (r: Multivector)
        requires
            mv_fits(mv_conj(self@)),
        ensures
            r@ == mv_conj(self@),
    {
        Multivector {
            s: self.s,
            e0: -self.e0,
            e1: -self.e1,
            e2: -self.e2,
            e12: -self.e12,
            e20: -self.e20,
            e01: -self.e01,
            e012: self.e012,
        }
    }

    /// Regressive (meet) product `self & other == !(!self ^ !other)`:
    /// the intersection of two flats.
    pub fn meet(self, other: Multivector) -> (r: Multivector)
        requires
            mv_bounded(self@, PROD_BOUND as int),
            mv_bounded(other@, PROD_BOUND as int),
        ensures
            r@ == mv_meet(self@, other@),
    {
        self.dual().wedge(other.dual()).dual()
    }

    /// Sandwich transform `self * x * rev(self)`: applies this motor to a
    /// point, a line, or any other graded object uniformly.
    pub fn sandwich(self, x: Multivector) -> (r: Multivector)
        requires
            mv_bounded(self@, MOTION_BOUND as int),
            mv_bounded(x@, MOTION_BOUND as int),
        ensures
            r@ == mv_sandwich(self@, x@),
    {
        proof {
            lemma_mul_bounded(self@, x@, MOTION_BOUND as int);
        }
        self.mul(x).mul(self.reverse())
    }

    /// The signed squared length: the scalar part of `self * conj(self)`.
    /// Its sign-preserving square root is the length of the original.
    pub fn len_scalar(self) -> (r: i64)
        requires
            mv_bounded(self@, PROD_BOUND as int),
        ensures
            r == mv_len_scalar(self@),
    {
        proof {
            broadcast use vstd::arithmetic::mul::lemma_mul_unary_negation;

        }
        mulb(self.s, self.s) - mulb(self.e1, self.e1) - mulb(self.e2, self.e2)
            + mulb(self.e12, self.e12)
    }
}

/// A Euclidean point in homogeneous form: the Euclidean position is
/// `(x / w, y / w)` with `w != 0`.
#[derive(Clone, Copy, PartialEq, Eq, Structural, Debug)]
pub struct Point {
    pub w: i64,
    pub x: i64,
    pub y: i64,
}

/// `m` has only grade-2 components.
pub open spec fn mv_is_grade2(m: Mv) -> bool {
    m.s == 0 && m.e0 == 0 && m.e1 == 0 && m.e2 == 0 && m.e012 == 0
}

impl Multivector {
    /// Extracts the Euclidean point of a grade-2 multivector in homogeneous
    /// form: weight `e12`, weighted coordinates `(e20, e01)`.  A zero weight
    /// marks an ideal element (a point at infinity), which has no Euclidean
    /// point; so does any non-grade-2 input.
    pub fn to_point(self) -> (r: Option<Point>)
        ensures
            r is Some <==> mv_is_grade2(self@) && self@.e12 != 0,
            r matches Some(p) ==> p.w == self@.e12 && p.x == self@.e20 && p.y == self@.e01,
    {
        let is_grade_2 = self.s == 0 && self.e0 == 0 && self.e1 == 0 && self.e2 == 0
            && self.e012 == 0;
        if is_grade_2 && self.e12 != 0 {
            Some(Point { w: self.e12, x: self.e20, y: self.e01 })
        } else {
            None
        }
    }

    /// A grade-2 point with weight 1 at Euclidean coordinates `(x, y)`:
    /// `e12 + x e20 + y e01`.
    pub fn point(x: i64, y: i64) -> (r: Multivector)
        ensures
            r@ == (Mv { s: 0, e0: 0, e1: 0, e2: 0, e12: 1, e20: x as int, e01: y as int, e012: 0 }),
    {
        Multivector { s: 0, e0: 0, e1: 0, e2: 0, e12: 1, e20: x, e01: y, e012: 0 }
    }

    /// A rotor around this (normalized) center: `c * 1 + s * self`, where the
    /// caller supplies the cosine and sine of the half-angle in whatever
    /// common scale it works at.
    pub fn rotor(self, c: i64, s: i64) -> (r: Multivector)
        requires
            mv_fits(mv_scale(s as int, self@)),
            mv_fits(mv_add(mv_scale(c as int, mv_one()), mv_scale(s as int, self@))),
        ensures
            r@ == mv_add(mv_scale(c as int, mv_one()), mv_scale(s as int, self@)),
    {
        self.scale(s).add(Multivector::scalar(c))
    }

    /// A translator by the displacement `(2 hx, 2 hy)`:
    /// `1 + hy e20 - hx e01`.  The motor `translator(hx, hy)` moves the
    /// point `(x, y)` to `(x + 2 hx, y + 2 hy)` under the sandwich transform.
    pub fn translator(hx: i64, hy: i64) -> (r: Multivector)
        requires
            hx > i64::MIN,
        ensures
            r@ == mv_translator(hx as int, hy as int),
    {
        Multivector { s: 1, e0: 0, e1: 0, e2: 0, e12: 0, e20: hy, e01: -hx, e012: 0 }
    }

    /// The signed squared distance between the two normalized flats, as the
    /// exact fraction `num / den`: the distance itself is the sign-preserving
    /// square root of the fraction.  `None` when either operand has zero
    /// squared length, where normalization is undefined.
    pub fn dist_sq(self, other: Multivector) -> (r: Option<(i64, i64)>)
        requires
            mv_bounded(self@, MOTION_BOUND as int),
            mv_bounded(other@, MOTION_BOUND as int),
        ensures
            r is Some <==> mv_len_scalar(self@) != 0 && mv_len_scalar(other@) != 0,
            r matches Some((num, den)) ==> num == mv_len_scalar(mv_meet(self@, other@))
                && den == abs_i(mv_len_scalar(self@) * mv_len_scalar(other@)) && den > 0,
    {
        proof {
            broadcast use vstd::arithmetic::mul::lemma_mul_unary_negation;

            lemma_prod_bound(self@.s, self@.s, MOTION_BOUND as int);
            lemma_prod_bound(self@.e1, self@.e1, MOTION_BOUND as int);
            lemma_prod_bound(self@.e2, self@.e2, MOTION_BOUND as int);
            lemma_prod_bound(self@.e12, self@.e12, MOTION_BOUND as int);
            lemma_prod_bound(other@.s, other@.s, MOTION_BOUND as int);
            lemma_prod_bound(other@.e1, other@.e1, MOTION_BOUND as int);
            lemma_prod_bound(other@.e2, other@.e2, MOTION_BOUND as int);
            lemma_prod_bound(other@.e12, other@.e12, MOTION_BOUND as int);
            lemma_meet_bounded(self@, other@, MOTION_BOUND as int);
        }
        let sa = self.len_scalar();
        let sb = other.len_scalar();
        if sa == 0 || sb == 0 {
            None
        } else {
            let num = self.meet(other).len_scalar();
            proof {
                lemma_prod_bound(sa as int, sb as int, 400_000_000);
                vstd::arithmetic::mul::lemma_mul_nonzero(sa as int, sb as int);
            }
            let p = sa * sb;
            let den = if p < 0 { -p } else { p };
            Some((num, den))
        }
    }
}

impl Multivector {
    /// The basis line `e0`.
    pub fn e0() -> (r: Multivector)
        ensures
            r@ == mv_e0(),
    {
        Multivector { s: 0, e0: 1, e1: 0, e2: 0, e12: 0, e20: 0, e01: 0, e012: 0 }
    }

    /// The basis line `e1`.
    pub fn e1() -> (r: Multivector)
        ensures
            r@ == mv_e1(),
    {
        Multivector { s: 0, e0: 0, e1: 1, e2: 0, e12: 0, e20: 0, e01: 0, e012: 0 }
    }

    /// The basis line `e2`.
    pub fn e2() -> (r: Multivector)
        ensures
            r@ == mv_e2(),
    {
        Multivector { s: 0, e0: 0, e1: 0, e2: 1, e12: 0, e20: 0, e01: 0, e012: 0 }
    }

    /// The basis point `e12`, the origin.
    pub fn e12() -> (r: Multivector)
        ensures
            r@ == mv_e12(),
    {
        Multivector { s: 0, e0: 0, e1: 0, e2: 0, e12: 1, e20: 0, e01: 0, e012: 0 }
    }

    /// The ideal basis point `e20`.
    pub fn e20() -> (r: Multivector)
        ensures
            r@ == mv_e20(),
    {
        Multivector { s: 0, e0: 0, e1: 0, e2: 0, e12: 0, e20: 1, e01: 0, e012: 0 }
    }

    /// The ideal basis point `e01`.
    pub fn e01() -> (r: Multivector)
        ensures
            r@ == mv_e01(),
    {
        Multivector { s: 0, e0: 0, e1: 0, e2: 0, e12: 0, e20: 0, e01: 1, e012: 0 }
    }

    /// The pseudoscalar `e012`.
    pub fn e012() -> (r: Multivector)
        ensures
            r@ == mv_e012(),
    {
        Multivector { s: 0, e0: 0, e1: 0, e2: 0, e12: 0, e20: 0, e01: 0, e012: 1 }
    }
}

} // verus!
