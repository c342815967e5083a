use raytracer::accel::{
    blas_build_inputs, build_tlas_instances, mesh_geometry_table, pack_24_8, MeshLayout,
    SceneObject, FLAG_CULL_DISABLE, VISIBILITY_MASK_ALL,
};
use raytracer::sbt::{build_sbt, sbt_regions, GROUP_COUNT, GROUP_HIT, GROUP_MISS_PRIMARY,
    GROUP_MISS_SHADOW, GROUP_RAYGEN};
use raytracer::scene::scene_desc_records;

const ONE_BITS: u32 = 0x3F80_0000;

fn identity_rows() -> [u32; 12] {
    let mut t = [0u32; 12];
    t[0] = ONE_BITS;
    t[5] = ONE_BITS;
    t[10] = ONE_BITS;
    t
}

#[test]
fn sbt_byte_layout_handle_size_32() {
    // Handle of group g is 32 bytes of value g.
    let hs = 32usize;
    let mut handles = Vec::new();
    for g in 0..GROUP_COUNT {
        for _ in 0..hs {
            handles.push(g as u8);
        }
    }
    let sbt = build_sbt(hs, &handles);
    assert_eq!(sbt.len(), 4 * hs);
    // Region 0 (generation) = handle[group 0].
    assert!(sbt[0..hs].iter().all(|&b| b == GROUP_RAYGEN as u8));
    // Region 1 bytes [0, hs) = handle[group 1].
    assert!(sbt[hs..2 * hs].iter().all(|&b| b == GROUP_MISS_PRIMARY as u8));
    // Region 1 bytes [hs, 2*hs) = handle[group 3], the shadow miss.
    assert!(sbt[2 * hs..3 * hs].iter().all(|&b| b == GROUP_MISS_SHADOW as u8));
    // Region 2 = handle[group 2], the hit group.
    assert!(sbt[3 * hs..4 * hs].iter().all(|&b| b == GROUP_HIT as u8));
}

#[test]
fn sbt_byte_layout_exact_bytes() {
    // Distinct bytes everywhere: position i of group g holds g*16 + i.
    let hs = 8usize;
    let mut handles = Vec::new();
    for g in 0..4u8 {
        for i in 0..hs as u8 {
            handles.push(g * 16 + i);
        }
    }
    let sbt = build_sbt(hs, &handles);
    let expect: Vec<u8> = vec![
        0, 1, 2, 3, 4, 5, 6, 7, // group 0
        16, 17, 18, 19, 20, 21, 22, 23, // group 1
        48, 49, 50, 51, 52, 53, 54, 55, // group 3
        32, 33, 34, 35, 36, 37, 38, 39, // group 2
    ];
    assert_eq!(sbt, expect);
}

#[test]
fn sbt_regions_layout() {
    let r = sbt_regions(1000, 32);
    assert_eq!(r.len(), 4);
    assert_eq!((r[0].device_address, r[0].stride, r[0].size), (1000, 32, 32));
    assert_eq!((r[1].device_address, r[1].stride, r[1].size), (1032, 32, 64));
    assert_eq!((r[2].device_address, r[2].stride, r[2].size), (1096, 32, 32));
    assert_eq!((r[3].device_address, r[3].stride, r[3].size), (0, 0, 0));
}

#[test]
fn pack_24_8_splits_fields() {
    let p = pack_24_8(7, 0xFF);
    assert_eq!(p, 0xFF00_0007);
    assert_eq!(p & 0x00FF_FFFF, 7);
    assert_eq!(p >> 24, 0xFF);
}

#[test]
fn address_table_uses_running_offsets() {
    let meshes = vec![
        MeshLayout { vertex_count: 24, index_count: 36 },
        MeshLayout { vertex_count: 289, index_count: 1536 },
    ];
    let t = mesh_geometry_table(&meshes, 1000, 2000);
    assert_eq!(t.len(), 2);
    assert_eq!(t[0].vertex_address, 1000);
    assert_eq!(t[0].index_address, 2000);
    assert_eq!(t[1].vertex_address, 1000 + 24 * 36);
    assert_eq!(t[1].index_address, 2000 + 36 * 4);
    assert_eq!(t[1].vertex_count, 289);
    assert_eq!(t[1].index_count, 1536);
}

#[test]
fn blas_inputs_from_table() {
    let meshes = vec![
        MeshLayout { vertex_count: 24, index_count: 36 },
        MeshLayout { vertex_count: 289, index_count: 1536 },
    ];
    let t = mesh_geometry_table(&meshes, 4096, 8192);
    let b = blas_build_inputs(&t);
    assert_eq!(b.len(), 2);
    assert_eq!(b[0].vertex_address, 4096);
    assert_eq!(b[0].index_address, 8192);
    assert_eq!(b[0].max_vertex, 24);
    assert_eq!(b[0].primitive_count, 12);
    assert_eq!(b[0].vertex_stride, 36);
    assert_eq!(b[1].max_vertex, 289);
    assert_eq!(b[1].primitive_count, 512);
}

#[test]
fn instance_records_reference_mesh_blas() {
    let objects = vec![
        SceneObject { mesh_index: 1, material_index: 3, transform: identity_rows() },
        SceneObject { mesh_index: 0, material_index: 250, transform: identity_rows() },
        SceneObject { mesh_index: 1, material_index: 0, transform: identity_rows() },
    ];
    let blas = vec![0xAAAA_0000u64, 0xBBBB_0000u64];
    let r = build_tlas_instances(&objects, &blas);
    assert_eq!(r.len(), 3);
    assert_eq!(r[0].blas_address, 0xBBBB_0000);
    assert_eq!(r[1].blas_address, 0xAAAA_0000);
    assert_eq!(r[2].blas_address, 0xBBBB_0000);
    for (rec, obj) in r.iter().zip(objects.iter()) {
        // Low byte (indeed the whole low 24 bits) carries the material index.
        assert_eq!(rec.custom_index_and_mask & 0x00FF_FFFF, obj.material_index);
        assert_eq!(rec.custom_index_and_mask >> 24, VISIBILITY_MASK_ALL);
        assert_eq!(rec.sbt_offset_and_flags, FLAG_CULL_DISABLE << 24);
        assert_eq!(rec.transform, obj.transform);
    }
}

#[test]
fn scene_descs_read_the_table() {
    let meshes = vec![
        MeshLayout { vertex_count: 24, index_count: 36 },
        MeshLayout { vertex_count: 10, index_count: 12 },
    ];
    let t = mesh_geometry_table(&meshes, 7000, 9000);
    let objects = vec![
        SceneObject { mesh_index: 1, material_index: 0, transform: identity_rows() },
        SceneObject { mesh_index: 0, material_index: 1, transform: identity_rows() },
    ];
    let descs = scene_desc_records(&objects, &t, 1234);
    assert_eq!(descs.len(), 2);
    assert_eq!(descs[0].vertex_addr, 7000 + 24 * 36);
    assert_eq!(descs[0].index_addr, 9000 + 36 * 4);
    assert_eq!(descs[0].material_addr, 1234);
    assert_eq!(descs[1].vertex_addr, 7000);
    assert_eq!(descs[1].index_addr, 9000);
    assert_eq!(descs[1].material_addr, 1234);
}

#[test]
fn one_cube_one_instance_scenario() {
    // A scene with one cube mesh and one instance at the identity
    // transform with material 0: one bottom-level input, one instance
    // record pointing at it.
    let cube = raytracer::scene::cube_indices();
    let meshes = vec![MeshLayout { vertex_count: 24, index_count: cube.len() }];
    assert_eq!(cube.len(), 36);
    let t = mesh_geometry_table(&meshes, 0x10000, 0x20000);
    let b = blas_build_inputs(&t);
    assert_eq!(b.len(), 1);
    assert_eq!(b[0].primitive_count, 12);
    assert_eq!(b[0].max_vertex, 24);
    let objects = vec![SceneObject { mesh_index: 0, material_index: 0, transform: identity_rows() }];
    let blas = vec![0xCAFE_0000u64];
    let instances = build_tlas_instances(&objects, &blas);
    assert_eq!(instances.len(), 1);
    assert_eq!(instances[0].blas_address, 0xCAFE_0000);
    assert_eq!(instances[0].custom_index_and_mask, 0xFF00_0000);
    assert_eq!(instances[0].transform, identity_rows());
}
