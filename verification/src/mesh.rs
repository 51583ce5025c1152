//! The subdivision driver and the public mesh generation entry point.
//!
//! Generation starts from the base icosahedron and, for each requested
//! level, splits every current face into four: the three edge midpoints are
//! fetched from the midpoint cache (created on first request, shared on the
//! second), the face's storage slot is rewritten to its first child, and the
//! other three children are appended. A ghost model (`mesh_at`) defines the
//! exact state after every level; the generator is proved to produce that
//! state, so two runs at the same level return identical meshes.
//!
//! The closed-form Euler counts and the structural mesh invariants are
//! certified by verified validators on the finished mesh; a violation makes
//! generation fail loudly instead of handing out a malformed mesh.

use vstd::prelude::*;

use crate::base::{
    base_faces, base_point, base_search_ok, base_vertices, build_base_vertices, search_base_faces,
    validate_base,
};
use crate::cache::{edge_key, mid_step, EdgeCache};
use crate::vertex::{Face, Vertex};

verus! {

/// The largest accepted subdivision level: beyond it, the documented
/// index-width bound 2 + 30 * 4^level no longer fits in 32 bits.
pub const MAX_SUBDIVISION_LEVEL: u8 = 13;

/// Why generation was refused or abandoned.
#[derive(Clone, Copy, Debug, PartialEq, Eq, Structural)]
pub enum IcosphereError {
    /// The requested subdivision level exceeds [`MAX_SUBDIVISION_LEVEL`].
    LevelTooLarge,
    /// The base face search did not certify a well-formed icosahedron:
    /// not exactly 20 faces, or a degenerate or mis-wound face.
    DegenerateBase,
    /// The finished mesh failed an internal invariant check (Euler counts,
    /// face validity, manifold closure, or vertex well-formedness).
    InvariantViolation,
}

/// 4^l (and 1 for negative arguments).
pub open spec fn pow4(l: int) -> int
    decreases l,
{
    if l <= 0 {
        1
    } else {
        4 * pow4(l - 1)
    }
}

proof fn lemma_pow4_pos(l: int)
    ensures
        pow4(l) >= 1,
    decreases l,
{
    if l > 0 {
        lemma_pow4_pos(l - 1);
    }
}

proof fn lemma_pow4_mono(a: int, b: int)
    requires
        a <= b,
    ensures
        pow4(a) <= pow4(b),
    decreases b - a,
{
    if a < b {
        lemma_pow4_mono(a, b - 1);
        lemma_pow4_pos(b - 1);
        if b > 0 {
            lemma_pow4_pos(a);
        }
    }
}

/// The whole generation state: the vertices so far, the faces so far, and
/// the midpoint cache.
pub ghost struct GenState {
    pub verts: Seq<Vertex>,
    pub faces: Seq<Face>,
    pub cache: Map<u64, u32>,
}

/// One midpoint request against the state.
pub open spec fn mid_in_state(s: GenState, a: u32, b: u32) -> (GenState, u32) {
    let (c2, v2, m) = mid_step(s.cache, s.verts, a, b);
    (GenState { verts: v2, faces: s.faces, cache: c2 }, m)
}

/// Subdivision of the single face in slot `f`: request the three edge
/// midpoints, rewrite the slot to the corner child at `i0`, and append the
/// children at `i1`, at `i2`, and in the middle. All four children keep the
/// parent's winding orientation.
pub open spec fn subdivide_face_at(s: GenState, f: int) -> GenState {
    let face = s.faces[f];
    let (s1, p3) = mid_in_state(s, face.i0, face.i1);
    let (s2, p4) = mid_in_state(s1, face.i1, face.i2);
    let (s3, p5) = mid_in_state(s2, face.i2, face.i0);
    GenState {
        verts: s3.verts,
        cache: s3.cache,
        faces: s3.faces.update(f, Face { i0: face.i0, i1: p3, i2: p5 }).push(
            Face { i0: p3, i1: face.i1, i2: p4 },
        ).push(Face { i0: p5, i1: p4, i2: face.i2 }).push(Face { i0: p4, i1: p5, i2: p3 }),
    }
}

/// The state after subdividing the first `f` of the faces that were present
/// when the level began.
pub open spec fn subdivide_prefix(s0: GenState, f: int) -> GenState
    decreases f,
{
    if f <= 0 {
        s0
    } else {
        subdivide_face_at(subdivide_prefix(s0, f - 1), f - 1)
    }
}

/// One full subdivision level: every face present at its start is split
/// into four. The face count is captured before any append, so faces
/// created during the level are not re-split within it.
pub open spec fn subdivide_level(s: GenState) -> GenState {
    subdivide_prefix(s, s.faces.len() as int)
}

/// `l` subdivision levels applied to `s`.
pub open spec fn run_levels(s: GenState, l: int) -> GenState
    decreases l,
{
    if l <= 0 {
        s
    } else {
        subdivide_level(run_levels(s, l - 1))
    }
}

/// The starting state: the 12 seed vertices, the 20 discovered faces, an
/// empty cache.
pub open spec fn base_state() -> GenState {
    GenState { verts: base_vertices(), faces: base_faces(), cache: Map::empty() }
}

/// The exact generation state after `l` levels: the mathematical definition
/// the generator is held to.
pub open spec fn mesh_at(l: int) -> GenState {
    run_levels(base_state(), l)
}

/// Corner `c` (0, 1 or 2) of face `f`.
pub open spec fn face_comp(f: Face, c: int) -> u32 {
    if c == 0 {
        f.i0
    } else if c == 1 {
        f.i1
    } else {
        f.i2
    }
}

/// The flat index buffer of a face list: three consecutive entries per face.
pub open spec fn flat_indices(faces: Seq<Face>) -> Seq<u32> {
    Seq::new(3 * faces.len(), |t: int| face_comp(faces[t / 3], t % 3))
}

/// A face references three pairwise distinct vertices, all within bounds.
pub open spec fn face_ok(f: Face, nv: int) -> bool {
    &&& f.i0 < nv && f.i1 < nv && f.i2 < nv
    &&& f.i0 != f.i1 && f.i1 != f.i2 && f.i0 != f.i2
}

/// Every face of the list is well-formed against `nv` vertices.
pub open spec fn faces_valid(fs: Seq<Face>, nv: int) -> bool {
    forall|n: int| 0 <= n < fs.len() ==> face_ok(#[trigger] fs[n], nv)
}

/// The canonical edge keys of a face list, one per face corner.
pub open spec fn edge_keys(fs: Seq<Face>) -> Seq<u64> {
    Seq::new(3 * fs.len(), |t: int| face_edge(fs[t / 3], t % 3))
}

/// Edge `c` (0, 1 or 2) of face `f`: the canonical key of the undirected
/// edge leaving corner `c`.
pub open spec fn face_edge(f: Face, c: int) -> u64 {
    if c == 0 {
        edge_key(f.i0, f.i1)
    } else if c == 1 {
        edge_key(f.i1, f.i2)
    } else {
        edge_key(f.i2, f.i0)
    }
}

/// How often `k` occurs in `s`.
pub open spec fn count_eq(s: Seq<u64>, k: u64) -> int
    decreases s.len(),
{
    if s.len() == 0 {
        0
    } else {
        count_eq(s.drop_last(), k) + if s.last() == k {
            1int
        } else {
            0int
        }
    }
}

/// Manifold closure: every undirected edge that occurs in the face list at
/// all occurs in exactly two faces.
pub open spec fn manifold(fs: Seq<Face>) -> bool {
    forall|j: int|
        0 <= j < edge_keys(fs).len() ==> count_eq(edge_keys(fs), #[trigger] edge_keys(fs)[j]) == 2
}

/// Vertex-sequence well-formedness: the 12 seed vertices come first and
/// exactly they carry coordinates; every later vertex is a midpoint whose
/// parents strictly precede it (so positions evaluate in one forward pass).
pub open spec fn verts_wf(vs: Seq<Vertex>) -> bool {
    &&& vs.len() >= 12
    &&& forall|i: int| 0 <= i < 12 ==> vs[i] == Vertex::Base(base_point(i))
    &&& forall|i: int|
        12 <= i < vs.len() ==> match #[trigger] vs[i] {
            Vertex::Midpoint { lo, hi } => lo < hi && (hi as int) < i,
            Vertex::Base(_) => false,
        }
}

/// Everything the mesh validators certify of the state after `l` levels:
/// the exact Euler count of vertices (V = 2 + E - F with F = 20 * 4^l faces
/// and E = 3 * F / 2 edges, so V = 2 + 10 * 4^l), face validity, manifold
/// closure, and vertex well-formedness.
pub open spec fn mesh_ok(l: int) -> bool {
    let s = mesh_at(l);
    &&& s.verts.len() == 2 + 10 * pow4(l)
    &&& faces_valid(s.faces, s.verts.len() as int)
    &&& manifold(s.faces)
    &&& verts_wf(s.verts)
}

/// 4^l at run time.
fn pow4_exec(l: u8) -> (r: u64)
    requires
        l <= 13,
    ensures
        r as int == pow4(l as int),
{
    let mut r: u64 = 1;
    let mut i: u8 = 0;
    while i < l
        invariant
            i <= l <= 13,
            r as int == pow4(i as int),
        decreases l - i,
    {
        proof {
            lemma_pow4_mono(i as int, 12);
            reveal_with_fuel(pow4, 14);
            assert(pow4(12) == 16777216);
        }
        r = r * 4;
        i += 1;
    }
    r
}

/// Runs `level` subdivision passes over the base mesh, exactly as the model
/// [`mesh_at`] prescribes.
fn subdivide_mesh(verts: &mut Vec<Vertex>, faces: &mut Vec<Face>, level: u8)
    requires
        level <= MAX_SUBDIVISION_LEVEL,
        old(verts)@ == base_vertices(),
        old(faces)@ == base_faces(),
        base_faces().len() == 20,
    ensures
        final(verts)@ == mesh_at(level as int).verts,
        final(faces)@ == mesh_at(level as int).faces,
        final(faces)@.len() == 20 * pow4(level as int),
{
    let mut cache = EdgeCache::new();
    let mut lvl: u8 = 0;
    while lvl < level
        invariant
            lvl <= level <= MAX_SUBDIVISION_LEVEL,
            base_faces().len() == 20,
            verts@ == mesh_at(lvl as int).verts,
            faces@ == mesh_at(lvl as int).faces,
            cache@ == mesh_at(lvl as int).cache,
            faces@.len() == 20 * pow4(lvl as int),
            verts@.len() <= 12 + 20 * pow4(lvl as int),
        decreases level - lvl,
    {
        let ghost s0 = mesh_at(lvl as int);
        let n = faces.len();
        let mut f: usize = 0;
        while f < n
            invariant
                f <= n,
                lvl < level <= MAX_SUBDIVISION_LEVEL,
                s0 == mesh_at(lvl as int),
                n == s0.faces.len(),
                n == 20 * pow4(lvl as int),
                verts@ == subdivide_prefix(s0, f as int).verts,
                faces@ == subdivide_prefix(s0, f as int).faces,
                cache@ == subdivide_prefix(s0, f as int).cache,
                faces@.len() == n + 3 * f,
                verts@.len() <= 12 + 20 * pow4(lvl as int) + 3 * f,
            decreases n - f,
        {
            proof {
                lemma_pow4_mono(lvl as int, 12);
                reveal_with_fuel(pow4, 14);
                assert(pow4(12) == 16777216);
            }
            let face = faces[f];
            let p3 = cache.get_or_create(verts, face.i0, face.i1);
            let p4 = cache.get_or_create(verts, face.i1, face.i2);
            let p5 = cache.get_or_create(verts, face.i2, face.i0);
            faces.set(f, Face { i0: face.i0, i1: p3, i2: p5 });
            faces.push(Face { i0: p3, i1: face.i1, i2: p4 });
            faces.push(Face { i0: p5, i1: p4, i2: face.i2 });
            faces.push(Face { i0: p4, i1: p5, i2: p3 });
            proof {
                assert(subdivide_prefix(s0, f as int + 1) == subdivide_face_at(
                    subdivide_prefix(s0, f as int),
                    f as int,
                ));
            }
            f += 1;
        }
        proof {
            assert(subdivide_level(s0) == subdivide_prefix(s0, s0.faces.len() as int));
            assert(run_levels(base_state(), lvl as int + 1) == subdivide_level(
                run_levels(base_state(), lvl as int),
            ));
        }
        lvl += 1;
    }
}

/// Flattens the face list into the index buffer, three entries per face.
fn flatten_faces(faces: &Vec<Face>) -> (r: Vec<u32>)
    ensures
        r@ == flat_indices(faces@),
{
    let mut r: Vec<u32> = Vec::new();
    let mut f: usize = 0;
    while f < faces.len()
        invariant
            f <= faces@.len(),
            r@.len() == 3 * f,
            forall|t: int| 0 <= t < 3 * f ==> r@[t] == face_comp(faces@[t / 3], t % 3),
        decreases faces@.len() - f,
    {
        let face = faces[f];
        r.push(face.i0);
        r.push(face.i1);
        r.push(face.i2);
        f += 1;
    }
    proof {
        assert(r@ =~= flat_indices(faces@));
    }
    r
}

/// Certify that every face references three distinct in-range vertices.
fn check_faces(faces: &Vec<Face>, nv: usize) -> (r: bool)
    ensures
        r == faces_valid(faces@, nv as int),
{
    let mut n: usize = 0;
    while n < faces.len()
        invariant
            n <= faces@.len(),
            forall|m: int| 0 <= m < n ==> face_ok(#[trigger] faces@[m], nv as int),
        decreases faces@.len() - n,
    {
        let f = faces[n];
        if !((f.i0 as usize) < nv && (f.i1 as usize) < nv && (f.i2 as usize) < nv) {
            return false;
        }
        if f.i0 == f.i1 || f.i1 == f.i2 || f.i0 == f.i2 {
            return false;
        }
        n += 1;
    }
    true
}

/// Certify manifold closure: every undirected edge of the face list occurs
/// in exactly two faces. The scan is quadratic in the edge count; that is
/// the deliberate price of a simple certificate, and it is what makes the
/// manifold clause of [`icosphere`]'s contract unconditional on success.
fn check_manifold(faces: &Vec<Face>) -> (r: bool)
    ensures
        r == manifold(faces@),
{
    let mut keys: Vec<u64> = Vec::new();
    let mut f: usize = 0;
    while f < faces.len()
        invariant
            f <= faces@.len(),
            keys@.len() == 3 * f,
            forall|t: int| 0 <= t < 3 * f ==> keys@[t] == face_edge(faces@[t / 3], t % 3),
        decreases faces@.len() - f,
    {
        let face = faces[f];
        keys.push(crate::cache::edge_key_exec(face.i0, face.i1));
        keys.push(crate::cache::edge_key_exec(face.i1, face.i2));
        keys.push(crate::cache::edge_key_exec(face.i2, face.i0));
        f += 1;
    }
    proof {
        assert(keys@ =~= edge_keys(faces@));
    }
    let mut j: usize = 0;
    while j < keys.len()
        invariant
            j <= keys@.len(),
            keys@ == edge_keys(faces@),
            forall|m: int| 0 <= m < j ==> count_eq(keys@, #[trigger] keys@[m]) == 2,
        decreases keys@.len() - j,
    {
        let kj = keys[j];
        let mut c: u64 = 0;
        let mut i: usize = 0;
        while i < keys.len()
            invariant
                i <= keys@.len(),
                c <= i,
                kj == keys@[j as int],
                j < keys@.len(),
                c as int == count_eq(keys@.take(i as int), kj),
            decreases keys@.len() - i,
        {
            proof {
                assert(keys@.take(i as int + 1).drop_last() =~= keys@.take(i as int));
                assert(keys@.take(i as int + 1).last() == keys@[i as int]);
            }
            if keys[i] == kj {
                c = c + 1;
            }
            i += 1;
        }
        proof {
            assert(keys@.take(keys@.len() as int) =~= keys@);
        }
        if c != 2 {
            return false;
        }
        j += 1;
    }
    true
}

/// Certify vertex well-formedness: seed vertices first and intact, every
/// subdivision vertex a midpoint of strictly earlier vertices.
fn check_verts(verts: &Vec<Vertex>) -> (r: bool)
    ensures
        r == verts_wf(verts@),
{
    if verts.len() < 12 {
        return false;
    }
    let mut i: usize = 0;
    while i < 12
        invariant
            i <= 12,
            verts@.len() >= 12,
            forall|m: int| 0 <= m < i ==> verts@[m] == Vertex::Base(base_point(m)),
        decreases 12 - i,
    {
        let expected = Vertex::Base(crate::base::base_point_at(i));
        if verts[i] != expected {
            return false;
        }
        i += 1;
    }
    let mut i: usize = 12;
    while i < verts.len()
        invariant
            12 <= i <= verts@.len(),
            forall|m: int| 0 <= m < 12 ==> verts@[m] == Vertex::Base(base_point(m)),
            forall|m: int|
                12 <= m < i ==> match #[trigger] verts@[m] {
                    Vertex::Midpoint { lo, hi } => lo < hi && (hi as int) < m,
                    Vertex::Base(_) => false,
                },
        decreases verts@.len() - i,
    {
        match verts[i] {
            Vertex::Midpoint { lo, hi } => {
                if !(lo < hi && (hi as usize) < i) {
                    return false;
                }
            },
            Vertex::Base(_) => {
                return false;
            },
        }
        i += 1;
    }
    true
}

proof fn lemma_mid_count(s: GenState, a: u32, b: u32)
    requires
        s.cache.dom().finite(),
        s.verts.len() == 12 + s.cache.dom().len(),
    ensures
        ({
            let (s2, m) = mid_in_state(s, a, b);
            &&& s2.cache.dom().finite()
            &&& s2.verts.len() == 12 + s2.cache.dom().len()
        }),
{
    let k = edge_key(a, b);
    if !s.cache.contains_key(k) {
        assert(s.cache.insert(k, (s.verts.len() as u32)).dom() =~= s.cache.dom().insert(k));
    }
}

proof fn lemma_face_count(s: GenState, f: int)
    requires
        s.cache.dom().finite(),
        s.verts.len() == 12 + s.cache.dom().len(),
    ensures
        subdivide_face_at(s, f).cache.dom().finite(),
        subdivide_face_at(s, f).verts.len() == 12 + subdivide_face_at(s, f).cache.dom().len(),
{
    let face = s.faces[f];
    lemma_mid_count(s, face.i0, face.i1);
    let (s1, p3) = mid_in_state(s, face.i0, face.i1);
    lemma_mid_count(s1, face.i1, face.i2);
    let (s2, p4) = mid_in_state(s1, face.i1, face.i2);
    lemma_mid_count(s2, face.i2, face.i0);
}

proof fn lemma_prefix_count(s0: GenState, f: int)
    requires
        s0.cache.dom().finite(),
        s0.verts.len() == 12 + s0.cache.dom().len(),
    ensures
        subdivide_prefix(s0, f).cache.dom().finite(),
        subdivide_prefix(s0, f).verts.len() == 12 + subdivide_prefix(s0, f).cache.dom().len(),
    decreases f,
{
    if f > 0 {
        lemma_prefix_count(s0, f - 1);
        lemma_face_count(subdivide_prefix(s0, f - 1), f - 1);
    }
}

proof fn lemma_prefix_faces_len(s0: GenState, f: int)
    requires
        0 <= f <= s0.faces.len(),
    ensures
        subdivide_prefix(s0, f).faces.len() == s0.faces.len() + 3 * f,
    decreases f,
{
    if f > 0 {
        lemma_prefix_faces_len(s0, f - 1);
    }
}

/// Each level multiplies the face count by four, unconditionally: after `l`
/// levels there are exactly 4^l faces per base face, the first clause of the
/// closed-form mesh size.
pub proof fn lemma_face_count_formula(l: int)
    requires
        0 <= l,
    ensures
        mesh_at(l).faces.len() == base_faces().len() * pow4(l),
    decreases l,
{
    if l == 0 {
        assert(mesh_at(0) == base_state());
    } else {
        lemma_face_count_formula(l - 1);
        assert(mesh_at(l) == subdivide_level(mesh_at(l - 1)));
        let s = mesh_at(l - 1);
        lemma_prefix_faces_len(s, s.faces.len() as int);
        assert(4 * (base_faces().len() * pow4(l - 1)) == base_faces().len() * (4 * pow4(l - 1)))
            by (nonlinear_arith);
    }
}

/// Midpoint deduplication, unconditionally: after any number of levels,
/// every vertex beyond the 12 seeds corresponds to exactly one entry of the
/// midpoint cache, that is, to exactly one distinct undirected edge that was
/// ever split. No edge ever produces two midpoint vertices.
pub proof fn lemma_one_midpoint_per_split_edge(l: int)
    ensures
        mesh_at(l).cache.dom().finite(),
        mesh_at(l).verts.len() == 12 + mesh_at(l).cache.dom().len(),
    decreases l,
{
    if l <= 0 {
        assert(mesh_at(l) == base_state());
        assert(base_state().cache.dom() =~= Set::<u64>::empty());
        assert(base_vertices().len() == 12);
    } else {
        lemma_one_midpoint_per_split_edge(l - 1);
        assert(mesh_at(l) == subdivide_level(mesh_at(l - 1)));
        lemma_prefix_count(mesh_at(l - 1), mesh_at(l - 1).faces.len() as int);
    }
}

/// The `n`-th consecutive triple of the flat index buffer has pairwise
/// distinct entries.
pub open spec fn flat_triple_distinct(fs: Seq<Face>, n: int) -> bool {
    let ix = flat_indices(fs);
    &&& ix[3 * n] != ix[3 * n + 1]
    &&& ix[3 * n + 1] != ix[3 * n + 2]
    &&& ix[3 * n] != ix[3 * n + 2]
}

/// Face validity carries over to the flat index buffer: every entry is in
/// range, and the three entries of each consecutive triple are pairwise
/// distinct.
pub proof fn lemma_flat_faces_valid(fs: Seq<Face>, nv: int)
    requires
        faces_valid(fs, nv),
    ensures
        forall|t: int|
            0 <= t < flat_indices(fs).len() ==> (#[trigger] flat_indices(fs)[t] as int) < nv,
        forall|n: int| 0 <= n < fs.len() ==> #[trigger] flat_triple_distinct(fs, n),
{
    assert forall|t: int|
        0 <= t < flat_indices(fs).len() implies (#[trigger] flat_indices(fs)[t] as int) < nv by {
        assert(0 <= t / 3 && t / 3 < fs.len() && 0 <= t % 3 < 3) by (nonlinear_arith)
            requires
                0 <= t < 3 * fs.len(),
        ;
        assert(face_ok(fs[t / 3], nv));
    }
    assert forall|n: int| 0 <= n < fs.len() implies #[trigger] flat_triple_distinct(fs, n) by {
        assert((3 * n) / 3 == n && (3 * n) % 3 == 0 && (3 * n + 1) / 3 == n && (3 * n + 1) % 3
            == 1 && (3 * n + 2) / 3 == n && (3 * n + 2) % 3 == 2) by (nonlinear_arith)
            requires
                0 <= n,
        ;
        assert(face_ok(fs[n], nv));
    }
}

/// Generates the icosphere mesh for the requested subdivision level.
///
/// On success the result is the vertex sequence and the index buffer of a
/// closed triangle mesh: 20 * 4^level faces, 2 + 10 * 4^level vertices,
/// every face three distinct in-range indices, every undirected edge shared
/// by exactly two faces, and every vertex either a seed vertex on the
/// sphere or a re-projected midpoint of two earlier vertices. The output is
/// a pure function of the level (the ghost model [`mesh_at`]), so equal
/// levels give identical meshes.
///
/// Levels above [`MAX_SUBDIVISION_LEVEL`] are refused up front; a failure of
/// the base search or of a final mesh invariant aborts generation with no
/// partial result.
pub fn icosphere(subdivision_level: u8) -> (r: Result<(Vec<Vertex>, Vec<u32>), IcosphereError>)
    ensures
        r is Ok <==> subdivision_level <= MAX_SUBDIVISION_LEVEL && base_search_ok() && mesh_ok(
            subdivision_level as int,
        ),
        (r matches Ok(m) ==> {
            let s = mesh_at(subdivision_level as int);
            &&& m.0@ == s.verts
            &&& m.1@ == flat_indices(s.faces)
            &&& m.0@.len() == 2 + 10 * pow4(subdivision_level as int)
            &&& m.1@.len() == 60 * pow4(subdivision_level as int)
            &&& faces_valid(s.faces, m.0@.len() as int)
            &&& manifold(s.faces)
            &&& verts_wf(m.0@)
        }),
        (r matches Err(e) ==> {
            &&& (e == IcosphereError::LevelTooLarge <==> subdivision_level
                > MAX_SUBDIVISION_LEVEL)
            &&& (e == IcosphereError::DegenerateBase <==> subdivision_level
                <= MAX_SUBDIVISION_LEVEL && !base_search_ok())
            &&& (e == IcosphereError::InvariantViolation <==> subdivision_level
                <= MAX_SUBDIVISION_LEVEL && base_search_ok() && !mesh_ok(
                subdivision_level as int,
            ))
        }),
{
    if subdivision_level > MAX_SUBDIVISION_LEVEL {
        return Err(IcosphereError::LevelTooLarge);
    }
    let mut verts = build_base_vertices();
    let mut faces = search_base_faces();
    if !validate_base(&faces) {
        return Err(IcosphereError::DegenerateBase);
    }
    subdivide_mesh(&mut verts, &mut faces, subdivision_level);
    let indices = flatten_faces(&faces);
    let p4 = pow4_exec(subdivision_level);
    proof {
        lemma_pow4_mono(subdivision_level as int, 13);
        reveal_with_fuel(pow4, 15);
        assert(pow4(13) == 67108864);
    }
    let expected_verts: u64 = 2 + 10 * p4;
    if verts.len() as u64 != expected_verts {
        return Err(IcosphereError::InvariantViolation);
    }
    if !check_faces(&faces, verts.len()) {
        return Err(IcosphereError::InvariantViolation);
    }
    if !check_manifold(&faces) {
        return Err(IcosphereError::InvariantViolation);
    }
    if !check_verts(&verts) {
        return Err(IcosphereError::InvariantViolation);
    }
    Ok((verts, indices))
}

} // verus!
