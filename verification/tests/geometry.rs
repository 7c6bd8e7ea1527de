use standing::geometry::{build_geometry, GeometryError, Vertex};

fn square() -> Vec<(i64, i64)> {
    vec![(0, 0), (1, 0), (1, 1), (0, 1)]
}

#[test]
fn two_segment_square_vertices() {
    let (vertices, indices) = build_geometry(2, &square()).unwrap();
    assert_eq!(vertices.len(), 8);
    assert_eq!(indices.len(), 36);
    // Ring 0 then ring 1, polygon in order, each vertex carrying the next
    // polygon vertex's offsets.
    assert_eq!(
        vertices[0],
        Vertex { slice: 0, p: 0, q: 0, next_p: 1, next_q: 0 }
    );
    assert_eq!(
        vertices[1],
        Vertex { slice: 0, p: 1, q: 0, next_p: 1, next_q: 1 }
    );
    assert_eq!(
        vertices[2],
        Vertex { slice: 0, p: 1, q: 1, next_p: 0, next_q: 1 }
    );
    // The last polygon vertex wraps around to the first.
    assert_eq!(
        vertices[3],
        Vertex { slice: 0, p: 0, q: 1, next_p: 0, next_q: 0 }
    );
    assert_eq!(
        vertices[4],
        Vertex { slice: 1, p: 0, q: 0, next_p: 1, next_q: 0 }
    );
    assert_eq!(
        vertices[7],
        Vertex { slice: 1, p: 0, q: 1, next_p: 0, next_q: 0 }
    );
}

#[test]
fn two_segment_square_indices() {
    let (_, indices) = build_geometry(2, &square()).unwrap();
    // Front cap, one band of four quads, back cap: 12 triangles.
    let expected: Vec<u16> = vec![
        1, 2, 0, 2, 3, 0, // front cap
        4, 5, 0, 5, 1, 0, // quad 0
        5, 6, 1, 6, 2, 1, // quad 1
        6, 7, 2, 7, 3, 2, // quad 2
        7, 4, 3, 4, 0, 3, // quad 3
        7, 6, 4, 6, 5, 4, // back cap
    ];
    assert_eq!(indices, expected);
    assert!(indices.iter().all(|&i| (i as usize) < 8));
}

#[test]
fn minimal_tube_one_segment_triangle() {
    let cs: Vec<(i64, i64)> = vec![(0, 0), (2, 0), (1, 2)];
    let (vertices, indices) = build_geometry(1, &cs).unwrap();
    assert_eq!(vertices.len(), 3);
    // No side faces: just the two caps over the single ring.
    assert_eq!(indices, vec![1, 2, 0, 2, 1, 0]);
}

#[test]
fn index_count_formula() {
    // 6*(n-1)*k side indices plus 3*(k-2) per cap.
    for &(n, k) in &[(1usize, 3usize), (2, 4), (5, 7), (100, 4)] {
        let cs: Vec<(i64, i64)> = (0..k as i64).map(|j| (j, j + 1)).collect();
        let (vertices, indices) = build_geometry(n, &cs).unwrap();
        assert_eq!(vertices.len(), n * k);
        assert_eq!(indices.len(), 6 * (n - 1) * k + 6 * (k - 2));
        assert!(indices.iter().all(|&i| (i as usize) < n * k));
    }
}

#[test]
fn hundred_segments_no_overflow() {
    let (vertices, indices) = build_geometry(100, &square()).unwrap();
    assert_eq!(vertices.len(), 400);
    assert_eq!(indices.len(), 6 * 99 * 4 + 12);
}

#[test]
fn full_index_space_is_accepted() {
    let (vertices, _) = build_geometry(16384, &square()).unwrap();
    assert_eq!(vertices.len(), 65536);
}

#[test]
fn one_vertex_too_many_overflows() {
    // 1 * 65537 vertices exhaust the 16-bit index space.
    let mut cs: Vec<(i64, i64)> = Vec::new();
    for j in 0..65537i64 {
        cs.push((j, -j));
    }
    let r = build_geometry(1, &cs);
    assert_eq!(r.unwrap_err(), GeometryError::IndexOverflow);
}

#[test]
fn winding_is_consistent_on_sample_meshes() {
    // Every directed edge must occur exactly as often as its reverse.
    for &(n, k) in &[(1usize, 3usize), (2, 4), (4, 5), (3, 8)] {
        let cs: Vec<(i64, i64)> = (0..k as i64).map(|j| (j, 2 * j)).collect();
        let (_, indices) = build_geometry(n, &cs).unwrap();
        let mut count = std::collections::HashMap::new();
        for t in indices.chunks(3) {
            for &(a, b) in &[(t[0], t[1]), (t[1], t[2]), (t[2], t[0])] {
                *count.entry((a, b)).or_insert(0i64) += 1;
            }
        }
        for (&(a, b), &c) in count.iter() {
            assert_eq!(
                c,
                *count.get(&(b, a)).unwrap_or(&0),
                "edge ({a}, {b}) unbalanced in mesh n={n} k={k}"
            );
        }
    }
}
