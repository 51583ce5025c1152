//! Tests of the generation interface: level validation, error reporting,
//! and the symbolic vertex structure.

use icosphere::{icosphere, Golden, IcosphereError, Point, Vertex, MAX_SUBDIVISION_LEVEL};

#[test]
fn rejects_level_beyond_maximum() {
    assert_eq!(icosphere(MAX_SUBDIVISION_LEVEL + 1), Err(IcosphereError::LevelTooLarge));
    assert_eq!(icosphere(14), Err(IcosphereError::LevelTooLarge));
    assert_eq!(icosphere(u8::MAX), Err(IcosphereError::LevelTooLarge));
}

#[test]
fn small_levels_succeed() {
    for level in 0..=4u8 {
        assert!(icosphere(level).is_ok());
    }
}

#[test]
fn seed_vertices_come_first_and_are_exact() {
    let (verts, _) = icosphere(2).expect("generation should succeed");
    let g = |units: i64, taus: i64| Golden { units, taus };
    let expected = [
        Point { x: g(1, 0), y: g(0, 1), z: g(0, 0) },
        Point { x: g(1, 0), y: g(0, -1), z: g(0, 0) },
        Point { x: g(-1, 0), y: g(0, -1), z: g(0, 0) },
        Point { x: g(-1, 0), y: g(0, 1), z: g(0, 0) },
        Point { x: g(0, 0), y: g(1, 0), z: g(0, 1) },
        Point { x: g(0, 0), y: g(1, 0), z: g(0, -1) },
        Point { x: g(0, 0), y: g(-1, 0), z: g(0, -1) },
        Point { x: g(0, 0), y: g(-1, 0), z: g(0, 1) },
        Point { x: g(0, 1), y: g(0, 0), z: g(1, 0) },
        Point { x: g(0, -1), y: g(0, 0), z: g(1, 0) },
        Point { x: g(0, -1), y: g(0, 0), z: g(-1, 0) },
        Point { x: g(0, 1), y: g(0, 0), z: g(-1, 0) },
    ];
    for (i, e) in expected.iter().enumerate() {
        assert_eq!(verts[i], Vertex::Base(*e));
    }
}

#[test]
fn midpoints_reference_earlier_vertices() {
    let (verts, _) = icosphere(3).expect("generation should succeed");
    for (i, v) in verts.iter().enumerate() {
        match v {
            Vertex::Base(_) => assert!(i < 12),
            Vertex::Midpoint { lo, hi } => {
                assert!(i >= 12);
                assert!(lo < hi);
                assert!((*hi as usize) < i);
            }
        }
    }
}

#[test]
fn each_distinct_edge_has_one_midpoint() {
    // No two midpoint vertices name the same parent pair: shared edges were
    // deduplicated through the cache.
    let (verts, _) = icosphere(3).expect("generation should succeed");
    let mut seen = std::collections::HashSet::new();
    for v in &verts {
        if let Vertex::Midpoint { lo, hi } = v {
            assert!(seen.insert((*lo, *hi)));
        }
    }
}
