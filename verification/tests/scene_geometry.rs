use raytracer::accel::MeshLayout;
use raytracer::scene::{
    cube_indices, scene_buffer_sizes, sphere_indices, sphere_vertex_count, CUBE_INDEX_COUNT,
    CUBE_VERTEX_COUNT, MATERIAL_STRIDE, SCENE_DESC_STRIDE, UNIFORM_SIZE,
};

#[test]
fn cube_has_24_vertices_and_36_indices() {
    assert_eq!(CUBE_VERTEX_COUNT, 24);
    assert_eq!(CUBE_INDEX_COUNT, 36);
    let idx = cube_indices();
    assert_eq!(idx.len(), 36);
    assert!(idx.iter().all(|&i| (i as usize) < CUBE_VERTEX_COUNT));
}

#[test]
fn cube_indices_exact() {
    let expect: Vec<u32> = vec![
        0, 1, 2, 0, 2, 3, // front
        4, 5, 6, 4, 6, 7, // back
        8, 9, 10, 8, 10, 11, // top
        12, 13, 14, 12, 14, 15, // bottom
        16, 17, 18, 16, 18, 19, // right
        20, 21, 22, 20, 22, 23, // left
    ];
    assert_eq!(cube_indices(), expect);
}

#[test]
fn sphere_counts() {
    assert_eq!(sphere_vertex_count(16, 16), 17 * 17);
    let idx = sphere_indices(16, 16);
    assert_eq!(idx.len(), 6 * 16 * 16);
    assert!(idx.iter().all(|&i| i < 17 * 17));
}

#[test]
fn sphere_indices_exact_for_small_grid() {
    // Two slices, two stacks: rows of three vertices, four quads.
    let idx = sphere_indices(2, 2);
    let expect: Vec<u32> = vec![
        0, 3, 1, 3, 4, 1, // quad (0, 0)
        1, 4, 2, 4, 5, 2, // quad (0, 1)
        3, 6, 4, 6, 7, 4, // quad (1, 0)
        4, 7, 5, 7, 8, 5, // quad (1, 1)
    ];
    assert_eq!(idx, expect);
    assert_eq!(sphere_vertex_count(2, 2), 9);
}

#[test]
fn sphere_with_no_stacks_is_empty() {
    assert_eq!(sphere_indices(4, 0).len(), 0);
    assert_eq!(sphere_indices(0, 4).len(), 0);
}

#[test]
fn buffer_sizes_follow_strides() {
    let meshes = vec![
        MeshLayout { vertex_count: 24, index_count: 36 },
        MeshLayout { vertex_count: 289, index_count: 1536 },
    ];
    let s = scene_buffer_sizes(&meshes, 9, 9);
    assert_eq!(s.vertex_bytes, (24 + 289) * 36);
    assert_eq!(s.index_bytes, (36 + 1536) * 4);
    assert_eq!(s.material_bytes, 9 * MATERIAL_STRIDE);
    assert_eq!(s.scene_desc_bytes, 9 * SCENE_DESC_STRIDE);
    assert_eq!(MATERIAL_STRIDE, 32);
    assert_eq!(SCENE_DESC_STRIDE, 24);
    assert_eq!(UNIFORM_SIZE, 160);
}

#[test]
fn empty_scene_sizes_are_zero() {
    let meshes: Vec<MeshLayout> = Vec::new();
    let s = scene_buffer_sizes(&meshes, 0, 0);
    assert_eq!(s.vertex_bytes, 0);
    assert_eq!(s.index_bytes, 0);
    assert_eq!(s.material_bytes, 0);
    assert_eq!(s.scene_desc_bytes, 0);
}
