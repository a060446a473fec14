use lyzah::geometry::{Vertex, build_quad};

#[test]
fn quad_has_four_vertices_and_six_indices() {
    let (vertices, indices) = build_quad(64, 32);
    assert_eq!(vertices.len(), 4);
    assert_eq!(indices.len(), 6);
    assert_eq!(indices, vec![0, 1, 2, 0, 2, 3]);
}

#[test]
fn quad_indices_stay_in_range() {
    let (_, indices) = build_quad(1920, 1080);
    for i in indices {
        assert!(i <= 3);
    }
}

#[test]
fn quad_covers_rectangle_corners() {
    let (vertices, _) = build_quad(64, 32);
    assert_eq!(vertices[0], Vertex { px: 0, py: -32, pz: 0, u: 0, v: 1 });
    assert_eq!(vertices[1], Vertex { px: 64, py: -32, pz: 0, u: 1, v: 1 });
    assert_eq!(vertices[2], Vertex { px: 64, py: 0, pz: 0, u: 1, v: 0 });
    assert_eq!(vertices[3], Vertex { px: 0, py: 0, pz: 0, u: 0, v: 0 });
}

#[test]
fn degenerate_quad_is_allowed() {
    let (vertices, indices) = build_quad(0, 0);
    assert_eq!(vertices.len(), 4);
    assert_eq!(indices.len(), 6);
    for v in vertices {
        assert_eq!((v.px, v.py, v.pz), (0, 0, 0));
    }
}
