use physics_scene::geometry::{
    bounds_of, box_collider, box_mesh, collider_from_mesh, Aabb, BoxShape, ColliderError, Mesh,
    Vec3i,
};

fn v(x: i64, y: i64, z: i64) -> Vec3i {
    Vec3i { x, y, z }
}

fn platform() -> BoxShape {
    BoxShape { min_x: -1500, max_x: 1500, min_y: -100, max_y: 0, min_z: -1500, max_z: 1500 }
}

#[test]
fn bounds_of_scattered_points() {
    let pts = vec![v(3, -2, 7), v(-5, 4, 0), v(1, 1, -9)];
    let b = bounds_of(&pts);
    assert_eq!(b, Aabb { min: v(-5, -2, -9), max: v(3, 4, 7) });
}

#[test]
fn bounds_of_single_point() {
    let b = bounds_of(&vec![v(2, 3, 4)]);
    assert_eq!(b, Aabb { min: v(2, 3, 4), max: v(2, 3, 4) });
}

#[test]
fn box_mesh_has_corners_and_twelve_triangles() {
    let m = box_mesh(platform());
    assert_eq!(m.positions.len(), 8);
    assert_eq!(m.positions[0], v(-1500, -100, -1500));
    assert_eq!(m.positions[7], v(1500, 0, 1500));
    assert_eq!(m.positions[5], v(1500, -100, 1500));
    assert_eq!(m.indices.len(), 36);
    assert!(m.indices.iter().all(|&i| i < 8));
}

#[test]
fn platform_collider_matches_box_extents() {
    let c = box_collider(platform());
    assert_eq!(c.bounds, Aabb { min: v(-1500, -100, -1500), max: v(1500, 0, 1500) });
    assert_eq!(c.vertices.len(), 8);
    assert_eq!(c.indices.len(), 36);
}

#[test]
fn collider_from_triangle() {
    let m = Mesh { positions: vec![v(0, 0, 0), v(1000, 0, 0), v(0, 500, -200)], indices: vec![0, 1, 2] };
    let c = collider_from_mesh(&m).unwrap();
    assert_eq!(c.vertices, m.positions);
    assert_eq!(c.indices, m.indices);
    assert_eq!(c.bounds, Aabb { min: v(0, 0, -200), max: v(1000, 500, 0) });
}

#[test]
fn collider_needs_vertices() {
    let m = Mesh { positions: vec![], indices: vec![0, 1, 2] };
    assert_eq!(collider_from_mesh(&m).unwrap_err(), ColliderError::NoVertices);
}

#[test]
fn collider_needs_whole_triangles() {
    let m = Mesh { positions: vec![v(0, 0, 0), v(1, 0, 0)], indices: vec![0, 1] };
    assert_eq!(collider_from_mesh(&m).unwrap_err(), ColliderError::NotTriangles);
    let empty = Mesh { positions: vec![v(0, 0, 0)], indices: vec![] };
    assert_eq!(collider_from_mesh(&empty).unwrap_err(), ColliderError::NotTriangles);
}

#[test]
fn collider_rejects_index_out_of_range() {
    let m = Mesh { positions: vec![v(0, 0, 0), v(1, 0, 0), v(0, 1, 0)], indices: vec![0, 1, 3] };
    assert_eq!(collider_from_mesh(&m).unwrap_err(), ColliderError::IndexOutOfRange);
}
