use glam::{vec3, Vec3};
use meshgen::mesh::{cube_mesh, Mesh};

fn len3(v: Vec3) -> f32 {
    (v.x * v.x + v.y * v.y + v.z * v.z).sqrt()
}

#[test]
fn cube_counts() {
    let m = cube_mesh(vec3(1.0, 1.0, 1.0));
    assert_eq!(m.vertices.len(), 24);
    assert_eq!(m.indices.len(), 36);
    assert_eq!(m.indices.len() % 3, 0);
    for &i in m.indices.iter() {
        assert!(i < 24);
    }
}

#[test]
fn cube_positions_match_corner_table() {
    let (hx, hy, hz) = (1.0f32, 2.0f32, 3.0f32);
    let m = cube_mesh(vec3(hx, hy, hz));
    let expected = [
        // +Z face
        vec3(-hx, -hy, hz), vec3(hx, -hy, hz), vec3(hx, hy, hz), vec3(-hx, hy, hz),
        // -Z face
        vec3(hx, -hy, -hz), vec3(-hx, -hy, -hz), vec3(-hx, hy, -hz), vec3(hx, hy, -hz),
        // +X face
        vec3(hx, -hy, hz), vec3(hx, -hy, -hz), vec3(hx, hy, -hz), vec3(hx, hy, hz),
        // -X face
        vec3(-hx, -hy, -hz), vec3(-hx, -hy, hz), vec3(-hx, hy, hz), vec3(-hx, hy, -hz),
        // +Y face
        vec3(-hx, hy, hz), vec3(hx, hy, hz), vec3(hx, hy, -hz), vec3(-hx, hy, -hz),
        // -Y face
        vec3(-hx, -hy, -hz), vec3(hx, -hy, -hz), vec3(hx, -hy, hz), vec3(-hx, -hy, hz),
    ];
    for (i, want) in expected.iter().enumerate() {
        assert_eq!(m.vertices[i].pos, *want, "vertex {}", i);
    }
}

#[test]
fn cube_normals_unit_and_axis_aligned() {
    let m = cube_mesh(vec3(0.5, 4.0, 9.0));
    let face_normals = [
        vec3(0.0, 0.0, 1.0),
        vec3(0.0, 0.0, -1.0),
        vec3(1.0, 0.0, 0.0),
        vec3(-1.0, 0.0, 0.0),
        vec3(0.0, 1.0, 0.0),
        vec3(0.0, -1.0, 0.0),
    ];
    for (i, v) in m.vertices.iter().enumerate() {
        assert_eq!(v.norm, face_normals[i / 4], "vertex {}", i);
        assert!((len3(v.norm) - 1.0).abs() < 1e-6);
        let axis_components = [v.norm.x, v.norm.y, v.norm.z]
            .iter()
            .filter(|c| **c != 0.0)
            .count();
        assert_eq!(axis_components, 1);
    }
}

#[test]
fn cube_index_pattern() {
    let m = cube_mesh(vec3(2.0, 2.0, 2.0));
    let mut expected: Vec<u32> = Vec::new();
    for face in 0..6u32 {
        let o = face * 4;
        expected.extend_from_slice(&[o, o + 1, o + 2, o, o + 2, o + 3]);
    }
    assert_eq!(m.indices, expected);
}

#[test]
fn mesh_buffer_operations() {
    let mut m = Mesh::new();
    assert_eq!(m.vertices.len(), 0);
    assert_eq!(m.indices.len(), 0);
    let a = m.add_vtx(vec3(1.0, 0.0, 0.0), vec3(1.0, 0.0, 0.0));
    let b = m.add_vtx(vec3(0.0, 1.0, 0.0), vec3(0.0, 1.0, 0.0));
    assert_eq!(a, 0);
    assert_eq!(b, 1);
    // Every added vertex is referenced once right away.
    assert_eq!(m.indices, vec![0, 1]);
    m.ref_vtx(a);
    assert_eq!(m.indices, vec![0, 1, 0]);
    assert_eq!(m.get(b).pos, vec3(0.0, 1.0, 0.0));
    assert_eq!(m.get(a).norm.x, 1.0);
}
