//! The base polyhedron builder: the 12 vertices and 20 faces of a regular
//! icosahedron, found by brute-force search in exact arithmetic.
//!
//! The seed vertices are the coordinate permutations of (0, +/-1, +/-tau).
//! With these coordinates every icosahedron edge has length exactly 2, and
//! every non-adjacent vertex pair is strictly farther apart, so the loose
//! floating-point tolerance of the classical search collapses to an exact
//! test: a triple of distinct vertices is a face exactly when all three
//! pairwise squared distances equal 4. Winding is decided by the sign of the
//! determinant of the three vertex positions (six times the signed volume of
//! the tetrahedron they span with the origin): positive means the triple is
//! already counter-clockwise as seen from outside, otherwise the last two
//! corners are swapped. A zero determinant would mean a degenerate face; the
//! validator treats it as a failure rather than guessing an orientation.

use vstd::prelude::*;

use crate::golden::{gi_det3, gi_pos, gi_sq_dist, gi_sq_mag, Gint, Golden, Pnt, Point};
use crate::vertex::{Face, Vertex};

verus! {

/// Shorthand for a golden-ratio integer literal.
pub open spec fn gl(units: int, taus: int) -> Golden {
    Golden { units: units as i64, taus: taus as i64 }
}

/// Position of seed vertex `i` of the icosahedron, for `0 <= i < 12`:
/// the coordinate permutations of (0, +/-1, +/-tau).
pub open spec fn base_point(i: int) -> Point {
    if i == 0 {
        Point { x: gl(1, 0), y: gl(0, 1), z: gl(0, 0) }
    } else if i == 1 {
        Point { x: gl(1, 0), y: gl(0, -1), z: gl(0, 0) }
    } else if i == 2 {
        Point { x: gl(-1, 0), y: gl(0, -1), z: gl(0, 0) }
    } else if i == 3 {
        Point { x: gl(-1, 0), y: gl(0, 1), z: gl(0, 0) }
    } else if i == 4 {
        Point { x: gl(0, 0), y: gl(1, 0), z: gl(0, 1) }
    } else if i == 5 {
        Point { x: gl(0, 0), y: gl(1, 0), z: gl(0, -1) }
    } else if i == 6 {
        Point { x: gl(0, 0), y: gl(-1, 0), z: gl(0, -1) }
    } else if i == 7 {
        Point { x: gl(0, 0), y: gl(-1, 0), z: gl(0, 1) }
    } else if i == 8 {
        Point { x: gl(0, 1), y: gl(0, 0), z: gl(1, 0) }
    } else if i == 9 {
        Point { x: gl(0, -1), y: gl(0, 0), z: gl(1, 0) }
    } else if i == 10 {
        Point { x: gl(0, -1), y: gl(0, 0), z: gl(-1, 0) }
    } else {
        Point { x: gl(0, 1), y: gl(0, 0), z: gl(-1, 0) }
    }
}

/// The exact position of seed vertex `i`.
pub open spec fn bp(i: int) -> Pnt {
    base_point(i)@
}

/// The seed vertex sequence: the 12 icosahedron corners, in order.
pub open spec fn base_vertices() -> Seq<Vertex> {
    Seq::new(12, |i: int| Vertex::Base(base_point(i)))
}

/// The common squared magnitude of every seed vertex: 2 + tau.
pub open spec fn sphere_sq_radius() -> Gint {
    Gint { u: 2, t: 1 }
}

/// Seed vertices `i` and `j` span an icosahedron edge: squared distance
/// exactly 4.
pub open spec fn is_seed_edge(i: int, j: int) -> bool {
    gi_sq_dist(bp(i), bp(j)) == (Gint { u: 4, t: 0 })
}

/// The triple (i, j, k) of seed vertices is mutually adjacent, hence a face
/// of the icosahedron.
pub open spec fn is_base_face(i: int, j: int, k: int) -> bool {
    is_seed_edge(i, j) && is_seed_edge(j, k) && is_seed_edge(i, k)
}

/// The face emitted at step `t` of the search (none for most steps). Step
/// `t` examines the index triple (t / 144, (t / 12) % 12, t % 12); only
/// strictly ascending triples are considered, each thus exactly once.
pub open spec fn emitted(t: int) -> Seq<Face> {
    let i = t / 144;
    let j = (t / 12) % 12;
    let k = t % 12;
    if 0 <= i && i < j && j < k && k < 12 && is_base_face(i, j, k) {
        if gi_pos(gi_det3(bp(i), bp(j), bp(k))) {
            seq![Face { i0: i as u32, i1: j as u32, i2: k as u32 }]
        } else {
            seq![Face { i0: i as u32, i1: k as u32, i2: j as u32 }]
        }
    } else {
        Seq::empty()
    }
}

/// All faces emitted by the first `t` search steps, in order.
pub open spec fn search_prefix(t: int) -> Seq<Face>
    decreases t,
{
    if t <= 0 {
        Seq::empty()
    } else {
        search_prefix(t - 1) + emitted(t - 1)
    }
}

/// The faces of the base icosahedron, as the full search emits them.
pub open spec fn base_faces() -> Seq<Face> {
    search_prefix(1728)
}

/// What the base validator certifies of one discovered face: corner indices
/// within the 12 seed vertices, pairwise distinct, and counter-clockwise
/// winding (strictly positive orientation determinant).
pub open spec fn base_face_ok(f: Face) -> bool {
    &&& f.i0 < 12 && f.i1 < 12 && f.i2 < 12
    &&& f.i0 != f.i1 && f.i1 != f.i2 && f.i0 != f.i2
    &&& gi_pos(gi_det3(bp(f.i0 as int), bp(f.i1 as int), bp(f.i2 as int)))
}

/// The search found exactly the 20 faces of a regular icosahedron, each
/// well-formed and correctly wound.
pub open spec fn base_search_ok() -> bool {
    &&& base_faces().len() == 20
    &&& forall|n: int| 0 <= n < base_faces().len() ==> base_face_ok(#[trigger] base_faces()[n])
}

/// The position of seed vertex `i`.
pub fn base_point_at(i: usize) -> (p: Point)
    requires
        i < 12,
    ensures
        p == base_point(i as int),
        p@.bounded(1),
{
    match i {
        0 => Point { x: Golden { units: 1, taus: 0 }, y: Golden { units: 0, taus: 1 }, z: Golden { units: 0, taus: 0 } },
        1 => Point { x: Golden { units: 1, taus: 0 }, y: Golden { units: 0, taus: -1 }, z: Golden { units: 0, taus: 0 } },
        2 => Point { x: Golden { units: -1, taus: 0 }, y: Golden { units: 0, taus: -1 }, z: Golden { units: 0, taus: 0 } },
        3 => Point { x: Golden { units: -1, taus: 0 }, y: Golden { units: 0, taus: 1 }, z: Golden { units: 0, taus: 0 } },
        4 => Point { x: Golden { units: 0, taus: 0 }, y: Golden { units: 1, taus: 0 }, z: Golden { units: 0, taus: 1 } },
        5 => Point { x: Golden { units: 0, taus: 0 }, y: Golden { units: 1, taus: 0 }, z: Golden { units: 0, taus: -1 } },
        6 => Point { x: Golden { units: 0, taus: 0 }, y: Golden { units: -1, taus: 0 }, z: Golden { units: 0, taus: -1 } },
        7 => Point { x: Golden { units: 0, taus: 0 }, y: Golden { units: -1, taus: 0 }, z: Golden { units: 0, taus: 1 } },
        8 => Point { x: Golden { units: 0, taus: 1 }, y: Golden { units: 0, taus: 0 }, z: Golden { units: 1, taus: 0 } },
        9 => Point { x: Golden { units: 0, taus: -1 }, y: Golden { units: 0, taus: 0 }, z: Golden { units: 1, taus: 0 } },
        10 => Point { x: Golden { units: 0, taus: -1 }, y: Golden { units: 0, taus: 0 }, z: Golden { units: -1, taus: 0 } },
        _ => Point { x: Golden { units: 0, taus: 1 }, y: Golden { units: 0, taus: 0 }, z: Golden { units: -1, taus: 0 } },
    }
}

/// The seed vertex sequence as a vector.
pub fn build_base_vertices() -> (verts: Vec<Vertex>)
    ensures
        verts@ == base_vertices(),
{
    let mut verts: Vec<Vertex> = Vec::new();
    let mut i: usize = 0;
    while i < 12
        invariant
            i <= 12,
            verts@.len() == i,
            forall|j: int| 0 <= j < i ==> verts@[j] == Vertex::Base(base_point(j)),
        decreases 12 - i,
    {
        let p = base_point_at(i);
        verts.push(Vertex::Base(p));
        i += 1;
    }
    proof {
        assert(verts@ =~= base_vertices());
    }
    verts
}

/// Whether `p` and `q` are at squared distance exactly 4.
fn edge_is_unit(p: &Point, q: &Point) -> (r: bool)
    requires
        p@.bounded(1),
        q@.bounded(1),
    ensures
        r == (gi_sq_dist(p@, q@) == (Gint { u: 4, t: 0 })),
{
    let dx = crate::golden::g_minus(p.x, q.x, Ghost(1));
    let dy = crate::golden::g_minus(p.y, q.y, Ghost(1));
    let dz = crate::golden::g_minus(p.z, q.z, Ghost(1));
    let sx = crate::golden::g_times(dx, dx, Ghost(2));
    let sy = crate::golden::g_times(dy, dy, Ghost(2));
    let sz = crate::golden::g_times(dz, dz, Ghost(2));
    let sxy = crate::golden::g_plus(sx, sy, Ghost(12));
    let s = crate::golden::g_plus(sxy, sz, Ghost(24));
    s == (Golden { units: 4, taus: 0 })
}

/// The orientation determinant of the triangle (p, q, r).
fn det3_exec(p: &Point, q: &Point, r: &Point) -> (d: Golden)
    requires
        p@.bounded(1),
        q@.bounded(1),
        r@.bounded(1),
    ensures
        d@ == gi_det3(p@, q@, r@),
        d@.bounded(432),
{
    let mx = crate::golden::g_minus(
        crate::golden::g_times(q.y, r.z, Ghost(1)),
        crate::golden::g_times(q.z, r.y, Ghost(1)),
        Ghost(3),
    );
    let my = crate::golden::g_minus(
        crate::golden::g_times(q.x, r.z, Ghost(1)),
        crate::golden::g_times(q.z, r.x, Ghost(1)),
        Ghost(3),
    );
    let mz = crate::golden::g_minus(
        crate::golden::g_times(q.x, r.y, Ghost(1)),
        crate::golden::g_times(q.y, r.x, Ghost(1)),
        Ghost(3),
    );
    let tx = crate::golden::g_times(p.x, mx, Ghost(6));
    let ty = crate::golden::g_times(p.y, my, Ghost(6));
    let tz = crate::golden::g_times(p.z, mz, Ghost(6));
    crate::golden::g_plus(crate::golden::g_minus(tx, ty, Ghost(108)), tz, Ghost(216))
}

/// The brute-force face search: every index triple (i, j, k) with
/// i < j < k is tested for mutual adjacency, and each hit is emitted with
/// counter-clockwise winding.
pub fn search_base_faces() -> (faces: Vec<Face>)
    ensures
        faces@ == base_faces(),
{
    let mut faces: Vec<Face> = Vec::new();
    let mut t: usize = 0;
    while t < 1728
        invariant
            t <= 1728,
            faces@ == search_prefix(t as int),
        decreases 1728 - t,
    {
        let ghost faces_before = faces@;
        let i = t / 144;
        let j = (t / 12) % 12;
        let k = t % 12;
        if i < j && j < k {
            let pi = base_point_at(i);
            let pj = base_point_at(j);
            let pk = base_point_at(k);
            if edge_is_unit(&pi, &pj) && edge_is_unit(&pj, &pk) && edge_is_unit(&pi, &pk) {
                let d = det3_exec(&pi, &pj, &pk);
                let f = if crate::golden::g_is_positive(d, Ghost(432)) {
                    Face { i0: i as u32, i1: j as u32, i2: k as u32 }
                } else {
                    Face { i0: i as u32, i1: k as u32, i2: j as u32 }
                };
                faces.push(f);
            }
        }
        proof {
            assert(search_prefix(t as int + 1) == search_prefix(t as int) + emitted(t as int));
            assert(faces@ =~= faces_before + emitted(t as int));
        }
        t += 1;
    }
    faces
}

/// Certify the outcome of the face search: exactly 20 faces, each with
/// distinct in-range corners and strictly positive orientation. A failure
/// here means the seed geometry is degenerate; generation must not continue.
pub fn validate_base(faces: &Vec<Face>) -> (r: bool)
    requires
        faces@ == base_faces(),
    ensures
        r == base_search_ok(),
{
    if faces.len() != 20 {
        return false;
    }
    let mut n: usize = 0;
    while n < 20
        invariant
            n <= 20,
            faces@ == base_faces(),
            faces@.len() == 20,
            forall|m: int| 0 <= m < n ==> base_face_ok(#[trigger] faces@[m]),
        decreases 20 - n,
    {
        let f = faces[n];
        if !(f.i0 < 12 && f.i1 < 12 && f.i2 < 12) {
            return false;
        }
        if f.i0 == f.i1 || f.i1 == f.i2 || f.i0 == f.i2 {
            return false;
        }
        let p0 = base_point_at(f.i0 as usize);
        let p1 = base_point_at(f.i1 as usize);
        let p2 = base_point_at(f.i2 as usize);
        let d = det3_exec(&p0, &p1, &p2);
        if !crate::golden::g_is_positive(d, Ghost(432)) {
            return false;
        }
        n += 1;
    }
    true
}

/// Evaluates the squared magnitude of a point from its named coefficients.
///
/// The arithmetic hypotheses are stated over the plain integer arguments, so
/// a caller that passes literals discharges them by constant folding alone.
proof fn lemma_sq_mag_eval(
    p: Pnt,
    xu: int, xt: int, yu: int, yt: int, zu: int, zt: int,
    ru: int, rt: int,
)
    requires
        p.x == (Gint { u: xu, t: xt }),
        p.y == (Gint { u: yu, t: yt }),
        p.z == (Gint { u: zu, t: zt }),
        xu * xu + xt * xt + yu * yu + yt * yt + zu * zu + zt * zt == ru,
        xu * xt + xt * xu + xt * xt + yu * yt + yt * yu + yt * yt + zu * zt + zt * zu + zt * zt
            == rt,
    ensures
        gi_sq_mag(p) == (Gint { u: ru, t: rt }),
{
}

/// Every seed vertex lies on the sphere: its squared magnitude is 2 + tau,
/// the squared magnitude of the very first vertex, which fixes the sphere
/// radius for the whole run.
pub proof fn lemma_base_vertices_on_sphere()
    ensures
        forall|i: int| 0 <= i < 12 ==> gi_sq_mag(#[trigger] bp(i)) == sphere_sq_radius(),
{
    lemma_sq_mag_eval(bp(0), 1, 0, 0, 1, 0, 0, 2, 1);
    lemma_sq_mag_eval(bp(1), 1, 0, 0, -1, 0, 0, 2, 1);
    lemma_sq_mag_eval(bp(2), -1, 0, 0, -1, 0, 0, 2, 1);
    lemma_sq_mag_eval(bp(3), -1, 0, 0, 1, 0, 0, 2, 1);
    lemma_sq_mag_eval(bp(4), 0, 0, 1, 0, 0, 1, 2, 1);
    lemma_sq_mag_eval(bp(5), 0, 0, 1, 0, 0, -1, 2, 1);
    lemma_sq_mag_eval(bp(6), 0, 0, -1, 0, 0, -1, 2, 1);
    lemma_sq_mag_eval(bp(7), 0, 0, -1, 0, 0, 1, 2, 1);
    lemma_sq_mag_eval(bp(8), 0, 1, 0, 0, 1, 0, 2, 1);
    lemma_sq_mag_eval(bp(9), 0, -1, 0, 0, 1, 0, 2, 1);
    lemma_sq_mag_eval(bp(10), 0, -1, 0, 0, -1, 0, 2, 1);
    lemma_sq_mag_eval(bp(11), 0, 1, 0, 0, -1, 0, 2, 1);
}

} // verus!

