use hover_pill::mesh::{cone_indices, cylinder_indices};

#[test]
fn cone_with_three_vertices() {
    assert_eq!(
        cone_indices(3),
        vec![3, 0, 2, 3, 1, 0, 3, 2, 1, 4, 2, 0, 4, 0, 1, 4, 1, 2]
    );
}

#[test]
fn cylinder_with_three_vertices() {
    assert_eq!(
        cylinder_indices(3),
        vec![
            6, 0, 2, 6, 1, 0, 6, 2, 1, //
            7, 5, 3, 7, 3, 4, 7, 4, 5, //
            3, 5, 0, 5, 2, 0, 4, 3, 1, 3, 0, 1, 5, 4, 2, 4, 1, 2,
        ]
    );
}

#[test]
fn every_index_names_a_vertex() {
    for vertices in [3u32, 4, 17, 64] {
        let cone = cone_indices(vertices);
        assert_eq!(cone.len(), 6 * vertices as usize);
        assert!(cone.iter().all(|&i| i < vertices + 2));
        let cylinder = cylinder_indices(vertices);
        assert_eq!(cylinder.len(), 12 * vertices as usize);
        assert!(cylinder.iter().all(|&i| i < 2 * vertices + 2));
    }
}

/// Checks that the triangles are proper and that every directed edge is walked exactly once
/// and its reverse exactly once.
fn assert_closed_surface(indices: &[u32]) {
    let mut edges: Vec<(u32, u32)> = Vec::new();
    for triangle in indices.chunks(3) {
        let (a, b, c) = (triangle[0], triangle[1], triangle[2]);
        assert!(a != b && b != c && c != a, "degenerate triangle {:?}", triangle);
        edges.push((a, b));
        edges.push((b, c));
        edges.push((c, a));
    }
    for &(a, b) in &edges {
        assert_eq!(edges.iter().filter(|&&e| e == (a, b)).count(), 1);
        assert_eq!(edges.iter().filter(|&&e| e == (b, a)).count(), 1);
    }
}

#[test]
fn cone_surface_is_closed() {
    for vertices in [3u32, 4, 5, 16] {
        assert_closed_surface(&cone_indices(vertices));
    }
}

#[test]
fn cylinder_surface_is_closed() {
    for vertices in [3u32, 4, 5, 16] {
        assert_closed_surface(&cylinder_indices(vertices));
    }
}
