//! Property tests for the generated icosphere meshes.

use std::collections::{HashMap, HashSet};

use icosphere::{icosphere, Vertex};

/// The golden ratio, as the generator's seed coordinates use it.
fn tau() -> f32 {
    (1.0 + 5f32.sqrt()) / 2.0
}

fn magnitude(v: [f32; 3]) -> f32 {
    (v[0] * v[0] + v[1] * v[1] + v[2] * v[2]).sqrt()
}

/// Evaluates the numeric positions of the symbolic vertex sequence in one
/// forward pass: seed vertices from their exact coordinates, midpoints as
/// the interpolation of their parents rescaled to the sphere radius.
fn positions(verts: &[Vertex]) -> Vec<[f32; 3]> {
    let t = tau();
    let mut pos: Vec<[f32; 3]> = Vec::with_capacity(verts.len());
    for v in verts {
        match v {
            Vertex::Base(p) => {
                pos.push([
                    p.x.units as f32 + p.x.taus as f32 * t,
                    p.y.units as f32 + p.y.taus as f32 * t,
                    p.z.units as f32 + p.z.taus as f32 * t,
                ]);
            }
            Vertex::Midpoint { lo, hi } => {
                let a = pos[*lo as usize];
                let b = pos[*hi as usize];
                let mid = [
                    a[0] + 0.5 * (b[0] - a[0]),
                    a[1] + 0.5 * (b[1] - a[1]),
                    a[2] + 0.5 * (b[2] - a[2]),
                ];
                let radius = magnitude(pos[0]);
                let scale = radius / magnitude(mid);
                pos.push([mid[0] * scale, mid[1] * scale, mid[2] * scale]);
            }
        }
    }
    pos
}

fn mesh(level: u8) -> (Vec<Vertex>, Vec<u32>) {
    icosphere(level).expect("generation should succeed")
}

fn undirected(a: u32, b: u32) -> (u32, u32) {
    if a <= b {
        (a, b)
    } else {
        (b, a)
    }
}

#[test]
fn level0_counts() {
    let (verts, indices) = mesh(0);
    assert_eq!(verts.len(), 12);
    assert_eq!(indices.len(), 60);
}

#[test]
fn level1_counts() {
    let (verts, indices) = mesh(1);
    assert_eq!(verts.len(), 42);
    assert_eq!(indices.len(), 240);
}

#[test]
fn level2_counts() {
    let (verts, indices) = mesh(2);
    assert_eq!(verts.len(), 162);
    assert_eq!(indices.len(), 960);
}

#[test]
fn euler_counts_all_levels() {
    for level in 0..=4u8 {
        let (verts, indices) = mesh(level);
        let faces = 20usize * 4usize.pow(level as u32);
        assert_eq!(indices.len(), 3 * faces);
        assert_eq!(verts.len(), 2 + faces * 3 / 2 - faces);
        assert_eq!(indices.len() % 3, 0);
    }
}

#[test]
fn vertices_on_sphere() {
    for level in 0..=3u8 {
        let (verts, _) = mesh(level);
        let pos = positions(&verts);
        let radius = magnitude(pos[0]);
        for p in &pos {
            assert!((magnitude(*p) - radius).abs() < 1e-4);
        }
    }
}

#[test]
fn radius_squared_is_two_plus_tau() {
    let (verts, _) = mesh(0);
    let pos = positions(&verts);
    let radius = magnitude(pos[0]);
    assert!((radius * radius - (2.0 + tau())).abs() < 1e-4);
}

#[test]
fn faces_reference_distinct_vertices_in_bounds() {
    for level in 0..=3u8 {
        let (verts, indices) = mesh(level);
        for f in indices.chunks(3) {
            assert!((f[0] as usize) < verts.len());
            assert!((f[1] as usize) < verts.len());
            assert!((f[2] as usize) < verts.len());
            assert_ne!(f[0], f[1]);
            assert_ne!(f[1], f[2]);
            assert_ne!(f[0], f[2]);
        }
    }
}

#[test]
fn every_edge_in_exactly_two_faces() {
    for level in 0..=3u8 {
        let (_, indices) = mesh(level);
        let mut counts: HashMap<(u32, u32), u32> = HashMap::new();
        for f in indices.chunks(3) {
            for (a, b) in [(f[0], f[1]), (f[1], f[2]), (f[2], f[0])] {
                *counts.entry(undirected(a, b)).or_insert(0) += 1;
            }
        }
        assert!(counts.values().all(|&c| c == 2));
        let faces = indices.len() / 3;
        assert_eq!(counts.len(), 3 * faces / 2);
    }
}

#[test]
fn new_vertices_per_level_equal_previous_edge_count() {
    for level in 0..=3u8 {
        let (verts_n, indices_n) = mesh(level);
        let (verts_next, _) = mesh(level + 1);
        let mut edges: HashSet<(u32, u32)> = HashSet::new();
        for f in indices_n.chunks(3) {
            edges.insert(undirected(f[0], f[1]));
            edges.insert(undirected(f[1], f[2]));
            edges.insert(undirected(f[2], f[0]));
        }
        assert_eq!(verts_next.len() - verts_n.len(), edges.len());
    }
}

#[test]
fn deterministic_across_invocations() {
    let (v1, i1) = mesh(3);
    let (v2, i2) = mesh(3);
    assert_eq!(v1, v2);
    assert_eq!(i1, i2);
    let p1 = positions(&v1);
    let p2 = positions(&v2);
    for (a, b) in p1.iter().zip(p2.iter()) {
        for c in 0..3 {
            assert_eq!(a[c].to_bits(), b[c].to_bits());
        }
    }
}

#[test]
fn winding_faces_outward() {
    for level in 0..=3u8 {
        let (verts, indices) = mesh(level);
        let pos = positions(&verts);
        for f in indices.chunks(3) {
            let v0 = pos[f[0] as usize];
            let v1 = pos[f[1] as usize];
            let v2 = pos[f[2] as usize];
            let e1 = [v1[0] - v0[0], v1[1] - v0[1], v1[2] - v0[2]];
            let e2 = [v2[0] - v0[0], v2[1] - v0[1], v2[2] - v0[2]];
            let normal = [
                e1[1] * e2[2] - e1[2] * e2[1],
                e1[2] * e2[0] - e1[0] * e2[2],
                e1[0] * e2[1] - e1[1] * e2[0],
            ];
            let outward = [v0[0] + v1[0] + v2[0], v0[1] + v1[1] + v2[1], v0[2] + v1[2] + v2[2]];
            let dot = normal[0] * outward[0] + normal[1] * outward[1] + normal[2] * outward[2];
            assert!(dot > 0.0);
        }
    }
}
