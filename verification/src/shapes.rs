//! Polygons as ordered cyclic point sequences, and the shapes the demo
//! composes: an axis-aligned rectangle and a transformed polygon.
//!
//! A polygon is an ordered, cyclic sequence of grade-2 point multivectors;
//! consecutive pairs are its edges.  Shapes own their points directly and a
//! transform is carried as an explicit motor beside the base points, so
//! several collaborators can read the same geometry through plain values.

use vstd::prelude::*;
use crate::pga::{Multivector, Mv, mv_bounded, mv_mul, mv_one, mv_sandwich, MOTION_BOUND};

verus! {

/// Every point of `s` has all coefficients within `-k ..= k`.
pub open spec fn pts_bounded(s: Seq<Multivector>, k: int) -> bool {
    forall|i: int| 0 <= i < s.len() ==> mv_bounded(#[trigger] s[i]@, k)
}

/// An axis-aligned rectangle centered on the origin.
pub struct Rectangle {
    pub width: i64,
    pub height: i64,
}

impl Rectangle {
    /// A rectangle of the given full width and height.
    pub fn new(width: i64, height: i64) -> (r: Rectangle)
        requires
            0 < width <= MOTION_BOUND,
            0 < height <= MOTION_BOUND,
        ensures
            r.width == width,
            r.height == height,
    {
        Rectangle { width, height }
    }

    /// The four corner points, in cyclic order, in homogeneous form with
    /// weight 2: the corner `(±width/2, ±height/2)` is carried exactly as
    /// `2 e12 ± width e20 ± height e01`.
    pub fn points(&self) -> (r: Vec<Multivector>)
        requires
            0 < self.width <= MOTION_BOUND,
            0 < self.height <= MOTION_BOUND,
        ensures
            r@.len() == 4,
            pts_bounded(r@, MOTION_BOUND as int),
            r@[0]@ == (Mv {
                s: 0, e0: 0, e1: 0, e2: 0,
                e12: 2, e20: self.width as int, e01: self.height as int, e012: 0,
            }),
            r@[1]@ == (Mv {
                s: 0, e0: 0, e1: 0, e2: 0,
                e12: 2, e20: -(self.width as int), e01: self.height as int, e012: 0,
            }),
            r@[2]@ == (Mv {
                s: 0, e0: 0, e1: 0, e2: 0,
                e12: 2, e20: -(self.width as int), e01: -(self.height as int), e012: 0,
            }),
            r@[3]@ == (Mv {
                s: 0, e0: 0, e1: 0, e2: 0,
                e12: 2, e20: self.width as int, e01: -(self.height as int), e012: 0,
            }),
    {
        let w = self.width;
        let h = self.height;
        let mut r: Vec<Multivector> = Vec::new();
        r.push(Multivector { s: 0, e0: 0, e1: 0, e2: 0, e12: 2, e20: w, e01: h, e012: 0 });
        r.push(Multivector { s: 0, e0: 0, e1: 0, e2: 0, e12: 2, e20: -w, e01: h, e012: 0 });
        r.push(Multivector { s: 0, e0: 0, e1: 0, e2: 0, e12: 2, e20: -w, e01: -h, e012: 0 });
        r.push(Multivector { s: 0, e0: 0, e1: 0, e2: 0, e12: 2, e20: w, e01: -h, e012: 0 });
        r
    }
}

/// A polygon together with the motor accumulated over its lifetime: the
/// effective points are the base points carried through the sandwich
/// transform.
pub struct Transformed {
    pub base: Vec<Multivector>,
    pub transform: Multivector,
}

impl Transformed {
    /// Wraps a base polygon with the identity transform.
    pub fn new(base: Vec<Multivector>) -> (r: Transformed)
        ensures
            r.base == base,
            r.transform@ == mv_one(),
    {
        Transformed { base, transform: Multivector::one() }
    }

    /// Composes a further motion onto this polygon's transform: the new
    /// motor acts after the motions already applied, `t' == other * t`.
    pub fn compose(&mut self, other: Multivector)
        requires
            mv_bounded(old(self).transform@, crate::pga::PROD_BOUND as int),
            mv_bounded(other@, crate::pga::PROD_BOUND as int),
        ensures
            final(self).transform@ == mv_mul(other@, old(self).transform@),
            final(self).base == old(self).base,
    {
        self.transform = other.mul(self.transform);
    }

    /// The polygon's current points: each base point carried through the
    /// sandwich transform by the accumulated motor.
    pub fn points(&self) -> (r: Vec<Multivector>)
        requires
            mv_bounded(self.transform@, MOTION_BOUND as int),
            pts_bounded(self.base@, MOTION_BOUND as int),
        ensures
            r@.len() == self.base@.len(),
            forall|i: int|
                0 <= i < r@.len() ==> #[trigger] r@[i]@ == mv_sandwich(
                    self.transform@,
                    self.base@[i]@,
                ),
    {
        let mut r: Vec<Multivector> = Vec::new();
        let mut k: usize = 0;
        while k < self.base.len()
            invariant
                0 <= k <= self.base@.len(),
                r@.len() == k,
                mv_bounded(self.transform@, MOTION_BOUND as int),
                pts_bounded(self.base@, MOTION_BOUND as int),
                forall|i: int|
                    0 <= i < k ==> #[trigger] r@[i]@ == mv_sandwich(
                        self.transform@,
                        self.base@[i]@,
                    ),
            decreases self.base@.len() - k,
        {
            r.push(self.transform.sandwich(self.base[k]));
            k += 1;
        }
        r
    }
}

} // verus!
