//! The edge midpoint cache: one midpoint vertex per undirected edge.
//!
//! An edge is named by the unordered pair of its endpoint indices,
//! canonicalized with the smaller index first and packed into a single `u64`
//! key. The cache maps each key to the index of the midpoint vertex created
//! for that edge, so that the two faces sharing an edge resolve to the same
//! midpoint and the mesh stays seam-free.

use std::collections::HashMap;

use vstd::prelude::*;

use crate::vertex::Vertex;

verus! {

broadcast use vstd::std_specs::hash::group_hash_axioms;

/// The canonical key of the undirected edge {a, b}: the smaller index in the
/// upper 32 bits, the larger in the lower.
pub open spec fn edge_key(a: u32, b: u32) -> u64 {
    if a <= b {
        ((a as int) * 0x1_0000_0000 + (b as int)) as u64
    } else {
        ((b as int) * 0x1_0000_0000 + (a as int)) as u64
    }
}

/// One lookup-or-create step on the cache: what `EdgeCache::get_or_create`
/// does to the cache, the vertex sequence, and which index it hands back.
/// On a miss the new vertex records the canonicalized parent pair and its
/// index is the previous vertex count.
pub open spec fn mid_step(
    cache: Map<u64, u32>,
    verts: Seq<Vertex>,
    a: u32,
    b: u32,
) -> (Map<u64, u32>, Seq<Vertex>, u32) {
    let k = edge_key(a, b);
    if cache.contains_key(k) {
        (cache, verts, cache[k])
    } else {
        let m = verts.len() as u32;
        let lo = if a <= b { a } else { b };
        let hi = if a <= b { b } else { a };
        (cache.insert(k, m), verts.push(Vertex::Midpoint { lo, hi }), m)
    }
}

/// The midpoint cache of one generation run.
pub struct EdgeCache {
    map: HashMap<u64, u32>,
}

impl View for EdgeCache {
    type V = Map<u64, u32>;

    closed spec fn view(&self) -> Map<u64, u32> {
        self.map@
    }
}

impl EdgeCache {
    /// An empty cache.
    pub fn new() -> (r: EdgeCache)
        ensures
            r@ == Map::<u64, u32>::empty(),
    {
        EdgeCache { map: HashMap::new() }
    }

    /// The midpoint vertex of the edge {a, b}: the cached index on a hit, a
    /// freshly appended vertex on a miss. This is the single authority for
    /// creating subdivision vertices; each distinct undirected edge gets
    /// exactly one for the lifetime of the cache.
    pub fn get_or_create(&mut self, verts: &mut Vec<Vertex>, a: u32, b: u32) -> (m: u32)
        requires
            old(verts)@.len() < 0x1_0000_0000,
        ensures
            ({
                let (c2, v2, m2) = mid_step(old(self)@, old(verts)@, a, b);
                final(self)@ == c2 && final(verts)@ == v2 && m == m2
            }),
    {
        let (lo, hi) = if a <= b { (a, b) } else { (b, a) };
        let k: u64 = (lo as u64) * 0x1_0000_0000u64 + (hi as u64);
        match self.map.get(&k) {
            Some(m) => *m,
            None => {
                let m = verts.len() as u32;
                verts.push(Vertex::Midpoint { lo, hi });
                self.map.insert(k, m);
                m
            },
        }
    }
}

/// The canonical key of the undirected edge {a, b}, computed at run time.
pub fn edge_key_exec(a: u32, b: u32) -> (k: u64)
    ensures
        k == edge_key(a, b),
{
    let (lo, hi) = if a <= b { (a, b) } else { (b, a) };
    (lo as u64) * 0x1_0000_0000u64 + (hi as u64)
}

} // verus!
