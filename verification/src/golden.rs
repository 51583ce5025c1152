//! Exact arithmetic in the ring Z[tau], where tau = (1 + sqrt(5)) / 2 is the
//! golden ratio.
//!
//! Every coordinate of every base icosahedron vertex is `units + taus * tau`
//! for small integers `units` and `taus`, and the ring is closed under the
//! additions, subtractions and multiplications that edge-length tests and
//! orientation determinants need. Since tau is irrational, the coefficient
//! pair of a value is unique, so structural equality of the pairs coincides
//! with equality of the real numbers they denote.

use vstd::prelude::*;

verus! {

/// A golden-ratio integer: the real number `units + taus * tau`.
#[derive(Clone, Copy, Debug, PartialEq, Eq, Structural)]
pub struct Golden {
    pub units: i64,
    pub taus: i64,
}

/// The mathematical (unbounded) counterpart of [`Golden`]: `u + t * tau`.
pub ghost struct Gint {
    pub u: int,
    pub t: int,
}

impl View for Golden {
    type V = Gint;

    open spec fn view(&self) -> Gint {
        Gint { u: self.units as int, t: self.taus as int }
    }
}

impl Gint {
    /// Both coefficients lie within `b` in absolute value.
    pub open spec fn bounded(self, b: int) -> bool {
        -b <= self.u <= b && -b <= self.t <= b
    }
}

/// Sum: coefficientwise, since tau terms collect.
pub open spec fn gi_add(a: Gint, b: Gint) -> Gint {
    Gint { u: a.u + b.u, t: a.t + b.t }
}

/// Difference, coefficientwise.
pub open spec fn gi_sub(a: Gint, b: Gint) -> Gint {
    Gint { u: a.u - b.u, t: a.t - b.t }
}

/// Product. From tau^2 = tau + 1:
/// (a + b tau)(c + d tau) = ac + bd + (ad + bc + bd) tau.
pub open spec fn gi_mul(a: Gint, b: Gint) -> Gint {
    Gint { u: a.u * b.u + a.t * b.t, t: a.u * b.t + a.t * b.u + a.t * b.t }
}

/// Whether `a` denotes a strictly positive real number.
///
/// With p = 2u + t and q = t, the value is (p + q * sqrt(5)) / 2. Since
/// sqrt(5) is irrational, p + q * sqrt(5) is zero only when p and q both are;
/// when p and q disagree in sign, the comparison reduces to comparing p^2
/// against 5 q^2 on the side of the larger magnitude.
pub open spec fn gi_pos(a: Gint) -> bool {
    let p = 2 * a.u + a.t;
    let q = a.t;
    if p >= 0 && q >= 0 {
        p > 0 || q > 0
    } else if p <= 0 && q <= 0 {
        false
    } else if p > 0 {
        p * p > 5 * q * q
    } else {
        5 * q * q > p * p
    }
}

/// A point of 3-space with golden-ratio integer coordinates.
#[derive(Clone, Copy, Debug, PartialEq, Eq, Structural)]
pub struct Point {
    pub x: Golden,
    pub y: Golden,
    pub z: Golden,
}

/// The mathematical counterpart of [`Point`].
pub ghost struct Pnt {
    pub x: Gint,
    pub y: Gint,
    pub z: Gint,
}

impl View for Point {
    type V = Pnt;

    open spec fn view(&self) -> Pnt {
        Pnt { x: self.x@, y: self.y@, z: self.z@ }
    }
}

impl Pnt {
    /// All six coefficients lie within `b` in absolute value.
    pub open spec fn bounded(self, b: int) -> bool {
        self.x.bounded(b) && self.y.bounded(b) && self.z.bounded(b)
    }
}

/// Squared Euclidean magnitude of `p`.
pub open spec fn gi_sq_mag(p: Pnt) -> Gint {
    gi_add(gi_add(gi_mul(p.x, p.x), gi_mul(p.y, p.y)), gi_mul(p.z, p.z))
}

/// Squared Euclidean distance between `p` and `q`.
pub open spec fn gi_sq_dist(p: Pnt, q: Pnt) -> Gint {
    gi_sq_mag(Pnt { x: gi_sub(p.x, q.x), y: gi_sub(p.y, q.y), z: gi_sub(p.z, q.z) })
}

/// Determinant of the 3x3 matrix with rows `p`, `q`, `r`: six times the
/// signed volume of the tetrahedron spanned by the origin and the three
/// points. It is positive exactly when the triangle (p, q, r) is wound
/// counter-clockwise as seen from outside a convex body that contains the
/// origin.
pub open spec fn gi_det3(p: Pnt, q: Pnt, r: Pnt) -> Gint {
    let mx = gi_sub(gi_mul(q.y, r.z), gi_mul(q.z, r.y));
    let my = gi_sub(gi_mul(q.x, r.z), gi_mul(q.z, r.x));
    let mz = gi_sub(gi_mul(q.x, r.y), gi_mul(q.y, r.x));
    gi_add(gi_sub(gi_mul(p.x, mx), gi_mul(p.y, my)), gi_mul(p.z, mz))
}

/// Sum of two bounded golden-ratio integers.
pub(crate) fn g_plus(a: Golden, b: Golden, bnd: Ghost<int>) -> (r: Golden)
    requires
        0 <= bnd@ <= 0x10000,
        a@.bounded(bnd@),
        b@.bounded(bnd@),
    ensures
        r@ == gi_add(a@, b@),
        r@.bounded(2 * bnd@),
{
    Golden { units: a.units + b.units, taus: a.taus + b.taus }
}

/// Difference of two bounded golden-ratio integers.
pub(crate) fn g_minus(a: Golden, b: Golden, bnd: Ghost<int>) -> (r: Golden)
    requires
        0 <= bnd@ <= 0x10000,
        a@.bounded(bnd@),
        b@.bounded(bnd@),
    ensures
        r@ == gi_sub(a@, b@),
        r@.bounded(2 * bnd@),
{
    Golden { units: a.units - b.units, taus: a.taus - b.taus }
}

/// Product of two bounded golden-ratio integers.
pub(crate) fn g_times(a: Golden, b: Golden, bnd: Ghost<int>) -> (r: Golden)
    requires
        0 <= bnd@ <= 0x1000,
        a@.bounded(bnd@),
        b@.bounded(bnd@),
    ensures
        r@ == gi_mul(a@, b@),
        r@.bounded(3 * (bnd@ * bnd@)),
{
    proof {
        lemma_product_bound(a.units as int, b.units as int, bnd@);
        lemma_product_bound(a.taus as int, b.taus as int, bnd@);
        lemma_product_bound(a.units as int, b.taus as int, bnd@);
        lemma_product_bound(a.taus as int, b.units as int, bnd@);
        lemma_square_monotone(bnd@, 0x1000);
        lemma_square_monotone(0, bnd@);
    }
    Golden {
        units: a.units * b.units + a.taus * b.taus,
        taus: a.units * b.taus + a.taus * b.units + a.taus * b.taus,
    }
}

/// Whether `a` denotes a strictly positive real number; the exact sign test
/// behind winding decisions.
pub(crate) fn g_is_positive(a: Golden, bnd: Ghost<int>) -> (r: bool)
    requires
        0 <= bnd@ <= 0x1000,
        a@.bounded(bnd@),
    ensures
        r == gi_pos(a@),
{
    let p: i64 = 2 * a.units + a.taus;
    let q: i64 = a.taus;
    proof {
        lemma_product_bound(p as int, p as int, 0x3000);
        lemma_product_bound(5 * (q as int), q as int, 0x5000);
    }
    if p >= 0 && q >= 0 {
        p > 0 || q > 0
    } else if p <= 0 && q <= 0 {
        false
    } else if p > 0 {
        p * p > 5 * q * q
    } else {
        5 * q * q > p * p
    }
}

/// 0 <= a <= c gives a * a <= c * c.
proof fn lemma_square_monotone(a: int, c: int)
    requires
        0 <= a <= c,
    ensures
        a * a <= c * c,
{
    assert(a * a <= c * c) by (nonlinear_arith)
        requires
            0 <= a <= c,
    ;
}

/// |x| <= b and |y| <= b give |x * y| <= b * b.
proof fn lemma_product_bound(x: int, y: int, b: int)
    requires
        0 <= b,
        -b <= x <= b,
        -b <= y <= b,
    ensures
        -(b * b) <= x * y <= b * b,
{
    assert(-(b * b) <= x * y <= b * b) by (nonlinear_arith)
        requires
            0 <= b,
            -b <= x <= b,
            -b <= y <= b,
    ;
}

} // verus!
