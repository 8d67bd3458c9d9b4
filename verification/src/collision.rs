//! Separating-axis collision test and segment membership, expressed in the
//! algebra.
//!
//! Candidate axes are the edge lines of both polygons, each edge line the
//! regressive join of two consecutive vertices.  A vertex `p` is projected
//! onto an axis `l` by the incidence pairing `proj_num(l, p)`, the
//! pseudoscalar coefficient of `l ^ p`; for points of positive weight the
//! signed distance of `p` from `l` is `proj_num(l, p) / p.e12` up to the
//! positive Euclidean norm of `l`, so projections are compared as exact
//! fractions by cross-multiplication.  An axis separates two polygons when
//! every projection of the one polygon lies strictly below every projection
//! of the other; equal boundaries (touching) do not separate.  Two polygons
//! collide exactly when no candidate axis separates them.

use vstd::prelude::*;
use crate::pga::{Multivector, Mv, mv_bounded, mv_meet, MOTION_BOUND};
use crate::shapes::pts_bounded;

verus! {

/// Coefficient bound of an edge line joining two `MOTION_BOUND`-bounded
/// points.
pub const LINE_BOUND: i64 = 800_000_000;

/// Bound on one projection of a bounded point onto a bounded edge line.
pub const PROJ_BOUND: i64 = 24_000_000_000_000;

/// The incidence pairing of a line `l` and a point `p`: the pseudoscalar
/// coefficient of `l ^ p`, zero exactly when `p` lies on `l`.
pub open spec fn proj_num(l: Mv, p: Mv) -> int {
    l.e0 * p.e12 + l.e1 * p.e20 + l.e2 * p.e01
}

/// The projection of `p` onto `l` is strictly below the projection of `q`,
/// as the cross-multiplied comparison of the fractions
/// `proj_num(l, p) / p.e12 < proj_num(l, q) / q.e12` for positive weights.
pub open spec fn proj_lt(l: Mv, p: Mv, q: Mv) -> bool {
    proj_num(l, p) * q.e12 < proj_num(l, q) * p.e12
}

/// The edge line of `s` that starts at vertex `i`: the join of vertex `i`
/// and the next vertex in cyclic order.
pub open spec fn edge_line(s: Seq<Multivector>, i: int) -> Mv {
    mv_meet(s[i]@, s[if i + 1 == s.len() { 0int } else { i + 1 }]@)
}

/// The axis `l` separates the polygons: every projection of the one is
/// strictly below every projection of the other.
pub open spec fn separates(l: Mv, a: Seq<Multivector>, b: Seq<Multivector>) -> bool {
    ||| forall|i: int, j: int|
        0 <= i < a.len() && 0 <= j < b.len() ==> proj_lt(l, #[trigger] a[i]@, #[trigger] b[j]@)
    ||| forall|i: int, j: int|
        0 <= i < b.len() && 0 <= j < a.len() ==> proj_lt(l, #[trigger] b[i]@, #[trigger] a[j]@)
}

/// Some edge line of either polygon separates the two polygons.
pub open spec fn separating_axis_exists(a: Seq<Multivector>, b: Seq<Multivector>) -> bool {
    ||| exists|i: int| 0 <= i < a.len() && separates(#[trigger] edge_line(a, i), a, b)
    ||| exists|i: int| 0 <= i < b.len() && separates(#[trigger] edge_line(b, i), a, b)
}

/// Every point of `s` has positive weight.
pub open spec fn pts_positive(s: Seq<Multivector>) -> bool {
    forall|i: int| 0 <= i < s.len() ==> (#[trigger] s[i]@).e12 > 0
}

proof fn lemma_prod_bound2(x: int, y: int, bx: int, by: int)
    requires
        -bx <= x <= bx,
        -by <= y <= by,
        0 <= bx,
        0 <= by,
    ensures
        -(bx * by) <= x * y <= bx * by,
{
    assert(-(bx * by) <= x * y <= bx * by) by (nonlinear_arith)
        requires
            -bx <= x <= bx,
            -by <= y <= by,
            0 <= bx,
            0 <= by,
    {}
}

/// The projection of the point `p` onto the line `l`, exactly.
fn proj(l: Multivector, p: Multivector) -> (r: i64)
    requires
        mv_bounded(l@, LINE_BOUND as int),
        mv_bounded(p@, MOTION_BOUND as int),
    ensures
        r == proj_num(l@, p@),
        -PROJ_BOUND <= r <= PROJ_BOUND,
{
    proof {
        lemma_prod_bound2(l@.e0, p@.e12, LINE_BOUND as int, MOTION_BOUND as int);
        lemma_prod_bound2(l@.e1, p@.e20, LINE_BOUND as int, MOTION_BOUND as int);
        lemma_prod_bound2(l@.e2, p@.e01, LINE_BOUND as int, MOTION_BOUND as int);
    }
    l.e0 * p.e12 + l.e1 * p.e20 + l.e2 * p.e01
}

/// The cross-multiplied strict comparison of two projections onto `l`.
fn proj_lt_exec(l: Multivector, p: Multivector, q: Multivector) -> (r: bool)
    requires
        mv_bounded(l@, LINE_BOUND as int),
        mv_bounded(p@, MOTION_BOUND as int),
        mv_bounded(q@, MOTION_BOUND as int),
    ensures
        r == proj_lt(l@, p@, q@),
{
    let dp = proj(l, p);
    let dq = proj(l, q);
    proof {
        lemma_prod_bound2(dp as int, q@.e12, PROJ_BOUND as int, MOTION_BOUND as int);
        lemma_prod_bound2(dq as int, p@.e12, PROJ_BOUND as int, MOTION_BOUND as int);
    }
    dp * q.e12 < dq * p.e12
}

/// Whether every projection of `xs` lies strictly below every projection
/// of `ys` on the axis `l`.
fn all_proj_lt(l: Multivector, xs: &Vec<Multivector>, ys: &Vec<Multivector>) -> (r: bool)
    requires
        mv_bounded(l@, LINE_BOUND as int),
        pts_bounded(xs@, MOTION_BOUND as int),
        pts_bounded(ys@, MOTION_BOUND as int),
    ensures
        r == forall|i: int, j: int|
            0 <= i < xs@.len() && 0 <= j < ys@.len() ==> proj_lt(
                l@,
                #[trigger] xs@[i]@,
                #[trigger] ys@[j]@,
            ),
{
    let mut i: usize = 0;
    while i < xs.len()
        invariant
            0 <= i <= xs@.len(),
            mv_bounded(l@, LINE_BOUND as int),
            pts_bounded(xs@, MOTION_BOUND as int),
            pts_bounded(ys@, MOTION_BOUND as int),
            forall|ii: int, j: int|
                0 <= ii < i && 0 <= j < ys@.len() ==> proj_lt(
                    l@,
                    #[trigger] xs@[ii]@,
                    #[trigger] ys@[j]@,
                ),
        decreases xs@.len() - i,
    {
        let mut j: usize = 0;
        while j < ys.len()
            invariant
                0 <= i < xs@.len(),
                0 <= j <= ys@.len(),
                mv_bounded(l@, LINE_BOUND as int),
                pts_bounded(xs@, MOTION_BOUND as int),
                pts_bounded(ys@, MOTION_BOUND as int),
                forall|jj: int| 0 <= jj < j ==> proj_lt(l@, xs@[i as int]@, #[trigger] ys@[jj]@),
            decreases ys@.len() - j,
        {
            if !proj_lt_exec(l, xs[i], ys[j]) {
                return false;
            }
            j += 1;
        }
        i += 1;
    }
    true
}

/// Whether some edge line of `edges_of` separates polygons `a` and `b`.
fn any_edge_separates(
    edges_of: &Vec<Multivector>,
    a: &Vec<Multivector>,
    b: &Vec<Multivector>,
) -> (r: bool)
    requires
        pts_bounded(edges_of@, MOTION_BOUND as int),
        pts_bounded(a@, MOTION_BOUND as int),
        pts_bounded(b@, MOTION_BOUND as int),
    ensures
        r == exists|i: int|
            0 <= i < edges_of@.len() && separates(#[trigger] edge_line(edges_of@, i), a@, b@),
{
    let n = edges_of.len();
    let mut i: usize = 0;
    while i < n
        invariant
            0 <= i <= n,
            n == edges_of@.len(),
            pts_bounded(edges_of@, MOTION_BOUND as int),
            pts_bounded(a@, MOTION_BOUND as int),
            pts_bounded(b@, MOTION_BOUND as int),
            forall|ii: int| 0 <= ii < i ==> !separates(#[trigger] edge_line(edges_of@, ii), a@, b@),
        decreases n - i,
    {
        let next: usize = if i + 1 == n { 0 } else { i + 1 };
        proof {
            crate::pga::lemma_meet_bounded(edges_of@[i as int]@, edges_of@[next as int]@,
                MOTION_BOUND as int);
        }
        let line = edges_of[i].meet(edges_of[next]);
        if all_proj_lt(line, a, b) || all_proj_lt(line, b, a) {
            proof {
                assert(line@ == edge_line(edges_of@, i as int));
                assert(separates(edge_line(edges_of@, i as int), a@, b@));
            }
            return true;
        }
        i += 1;
    }
    false
}

/// The separating-axis collision test: the polygons collide exactly when
/// no edge line of either polygon separates them.  Touching projections
/// are equal, so they do not separate and count as collision.
pub fn collides(a: &Vec<Multivector>, b: &Vec<Multivector>) -> (r: bool)
    requires
        pts_bounded(a@, MOTION_BOUND as int),
        pts_bounded(b@, MOTION_BOUND as int),
    ensures
        r == !separating_axis_exists(a@, b@),
{
    let sep = any_edge_separates(a, a, b) || any_edge_separates(b, a, b);
    !sep
}

/// `c` lies on the closed segment from `a` to `b`: it lies on the edge
/// line joining `a` and `b`, and its Euclidean position lies between the
/// two endpoints.  The betweenness conditions are the two Euclidean dot
/// products `(C-A)._(B-A) >= 0` and `(C-B)._(A-B) >= 0`, cleared of their
/// positive weight denominators.
pub open spec fn on_segment(a: Mv, b: Mv, c: Mv) -> bool {
    &&& proj_num(mv_meet(a, b), c) == 0
    &&& (c.e20 * a.e12 - a.e20 * c.e12) * (b.e20 * a.e12 - a.e20 * b.e12) + (c.e01 * a.e12 - a.e01
        * c.e12) * (b.e01 * a.e12 - a.e01 * b.e12) >= 0
    &&& (c.e20 * b.e12 - b.e20 * c.e12) * (a.e20 * b.e12 - b.e20 * a.e12) + (c.e01 * b.e12 - b.e01
        * c.e12) * (a.e01 * b.e12 - b.e01 * a.e12) >= 0
}

fn between_along(p: Multivector, q: Multivector, r: Multivector) -> (res: bool)
    requires
        mv_bounded(p@, MOTION_BOUND as int),
        mv_bounded(q@, MOTION_BOUND as int),
        mv_bounded(r@, MOTION_BOUND as int),
    ensures
        res == ((r@.e20 * p@.e12 - p@.e20 * r@.e12) * (q@.e20 * p@.e12 - p@.e20 * q@.e12) + (r@.e01
            * p@.e12 - p@.e01 * r@.e12) * (q@.e01 * p@.e12 - p@.e01 * q@.e12) >= 0),
{
    proof {
        lemma_prod_bound2(r@.e20, p@.e12, MOTION_BOUND as int, MOTION_BOUND as int);
        lemma_prod_bound2(p@.e20, r@.e12, MOTION_BOUND as int, MOTION_BOUND as int);
        lemma_prod_bound2(q@.e20, p@.e12, MOTION_BOUND as int, MOTION_BOUND as int);
        lemma_prod_bound2(p@.e20, q@.e12, MOTION_BOUND as int, MOTION_BOUND as int);
        lemma_prod_bound2(r@.e01, p@.e12, MOTION_BOUND as int, MOTION_BOUND as int);
        lemma_prod_bound2(p@.e01, r@.e12, MOTION_BOUND as int, MOTION_BOUND as int);
        lemma_prod_bound2(q@.e01, p@.e12, MOTION_BOUND as int, MOTION_BOUND as int);
        lemma_prod_bound2(p@.e01, q@.e12, MOTION_BOUND as int, MOTION_BOUND as int);
        lemma_prod_bound2(r@.e20 * p@.e12 - p@.e20 * r@.e12, q@.e20 * p@.e12 - p@.e20 * q@.e12,
            200_000_000, 200_000_000);
        lemma_prod_bound2(r@.e01 * p@.e12 - p@.e01 * r@.e12, q@.e01 * p@.e12 - p@.e01 * q@.e12,
            200_000_000, 200_000_000);
    }
    let dx_r = r.e20 * p.e12 - p.e20 * r.e12;
    let dx_q = q.e20 * p.e12 - p.e20 * q.e12;
    let dy_r = r.e01 * p.e12 - p.e01 * r.e12;
    let dy_q = q.e01 * p.e12 - p.e01 * q.e12;
    dx_r * dx_q + dy_r * dy_q >= 0
}

/// Exact segment-membership test: whether the point `c` lies on the closed
/// segment joining the points `a` and `b`.
pub fn in_segment(a: Multivector, b: Multivector, c: Multivector) -> (r: bool)
    requires
        mv_bounded(a@, MOTION_BOUND as int),
        mv_bounded(b@, MOTION_BOUND as int),
        mv_bounded(c@, MOTION_BOUND as int),
    ensures
        r == on_segment(a@, b@, c@),
{
    proof {
        crate::pga::lemma_meet_bounded(a@, b@, MOTION_BOUND as int);
    }
    let line = a.meet(b);
    let on_line = proj(line, c) == 0;
    on_line && between_along(a, b, c) && between_along(b, a, c)
}

} // verus!
