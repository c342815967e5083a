//! Scene-facing data: descriptor records, buffer sizing, and the index
//! topology of the generated meshes.
//!
//! Mesh vertex positions are produced by the scene collaborator and are
//! of no concern here; what the renderer owns is the exact index
//! topology (which vertex each triangle corner references) and the byte
//! layout of everything uploaded to the GPU.

use vstd::prelude::*;
use crate::accel::{MeshGeometry, MeshLayout, SceneObject, VERTEX_STRIDE, INDEX_STRIDE};
use crate::accel::{spec_vertex_prefix, spec_index_prefix, lemma_prefix_monotonic};

verus! {

/// Byte stride of one material record: a base-color vector and a
/// parameter vector, four 32-bit floats each.
pub const MATERIAL_STRIDE: u64 = 32;

/// Byte stride of one per-instance descriptor record: three device
/// addresses.
pub const SCENE_DESC_STRIDE: u64 = 24;

/// Byte size of the camera uniform: two 4x4 matrices, the light
/// position, and the settings vector.
pub const UNIFORM_SIZE: u64 = 160;

/// Per-instance descriptor record consumed by the hit shader: the
/// device addresses of the instance's mesh vertex and index sub-ranges
/// and of the material array.
#[derive(Clone, Copy, PartialEq, Eq, Structural, Debug)]
pub struct SceneDesc {
    pub vertex_addr: u64,
    pub index_addr: u64,
    pub material_addr: u64,
}

/// Byte sizes of the four scene buffers uploaded at setup.
#[derive(Clone, Copy, PartialEq, Eq, Structural, Debug)]
pub struct SceneBufferSizes {
    pub vertex_bytes: u64,
    pub index_bytes: u64,
    pub material_bytes: u64,
    pub scene_desc_bytes: u64,
}

/// Build one descriptor record per scene object by reading the mesh
/// address table at the object's mesh index.
pub fn scene_desc_records(
    objects: &Vec<SceneObject>,
    table: &Vec<MeshGeometry>,
    material_addr: u64,
) -> (r: Vec<SceneDesc>)
    requires
        forall|k: int| 0 <= k < objects@.len() ==> objects@[k].mesh_index < table@.len(),
    ensures
        r@.len() == objects@.len(),
        forall|k: int|
            0 <= k < objects@.len() ==> {
                &&& r@[k].vertex_addr == table@[objects@[k].mesh_index as int].vertex_address
                &&& r@[k].index_addr == table@[objects@[k].mesh_index as int].index_address
                &&& r@[k].material_addr == material_addr
            },
{
    let n = objects.len();
    let mut r: Vec<SceneDesc> = Vec::new();
    let mut k: usize = 0;
    while k < n
        invariant
            n == objects@.len(),
            k <= n,
            r@.len() == k,
            forall|i: int| 0 <= i < objects@.len() ==> objects@[i].mesh_index < table@.len(),
            forall|i: int|
                0 <= i < k ==> {
                    &&& r@[i].vertex_addr == table@[objects@[i].mesh_index as int].vertex_address
                    &&& r@[i].index_addr == table@[objects@[i].mesh_index as int].index_address
                    &&& r@[i].material_addr == material_addr
                },
        decreases n - k,
    {
        let g = table[objects[k].mesh_index];
        r.push(
            SceneDesc {
                vertex_addr: g.vertex_address,
                index_addr: g.index_address,
                material_addr,
            },
        );
        k = k + 1;
    }
    r
}

/// Byte sizes of the scene buffers: total vertices and indices over all
/// meshes times their strides, one material record per material, one
/// descriptor record per object.
pub fn scene_buffer_sizes(meshes: &Vec<MeshLayout>, material_count: usize, object_count: usize)
    -> (s: SceneBufferSizes)
    requires
        spec_vertex_prefix(meshes@, meshes@.len() as int) * VERTEX_STRIDE <= u64::MAX,
        spec_index_prefix(meshes@, meshes@.len() as int) * INDEX_STRIDE <= u64::MAX,
        material_count * MATERIAL_STRIDE <= u64::MAX,
        object_count * SCENE_DESC_STRIDE <= u64::MAX,
    ensures
        s.vertex_bytes == spec_vertex_prefix(meshes@, meshes@.len() as int) * VERTEX_STRIDE,
        s.index_bytes == spec_index_prefix(meshes@, meshes@.len() as int) * INDEX_STRIDE,
        s.material_bytes == material_count * MATERIAL_STRIDE,
        s.scene_desc_bytes == object_count * SCENE_DESC_STRIDE,
{
    let n = meshes.len();
    let mut v_bytes: u64 = 0;
    let mut i_bytes: u64 = 0;
    let mut m: usize = 0;
    while m < n
        invariant
            n == meshes@.len(),
            m <= n,
            v_bytes == spec_vertex_prefix(meshes@, m as int) * VERTEX_STRIDE,
            i_bytes == spec_index_prefix(meshes@, m as int) * INDEX_STRIDE,
            spec_vertex_prefix(meshes@, n as int) * VERTEX_STRIDE <= u64::MAX,
            spec_index_prefix(meshes@, n as int) * INDEX_STRIDE <= u64::MAX,
        decreases n - m,
    {
        proof {
            lemma_prefix_monotonic(meshes@, m + 1, n as int);
        }
        let mesh = meshes[m];
        v_bytes = v_bytes + (mesh.vertex_count as u64) * VERTEX_STRIDE;
        i_bytes = i_bytes + (mesh.index_count as u64) * INDEX_STRIDE;
        m = m + 1;
    }
    SceneBufferSizes {
        vertex_bytes: v_bytes,
        index_bytes: i_bytes,
        material_bytes: (material_count as u64) * MATERIAL_STRIDE,
        scene_desc_bytes: (object_count as u64) * SCENE_DESC_STRIDE,
    }
}

/// Vertices of the generated cube mesh: four per face.
pub const CUBE_VERTEX_COUNT: usize = 24;

/// Indices of the generated cube mesh: six per face, two triangles.
pub const CUBE_INDEX_COUNT: usize = 36;

/// Corner pattern of the two triangles of one cube face.
pub open spec fn spec_face_corner(c: int) -> int {
    if c == 0 {
        0
    } else if c == 1 {
        1
    } else if c == 2 {
        2
    } else if c == 3 {
        0
    } else if c == 4 {
        2
    } else {
        3
    }
}

/// Index `k` of the cube mesh: face `k / 6` contributes its four
/// vertices in the fixed corner pattern.
pub open spec fn spec_cube_index(k: int) -> int {
    4 * (k / 6) + spec_face_corner(k % 6)
}

/// Index list of the cube mesh: every face's four vertices wound into
/// two triangles, every index in bounds.
pub fn cube_indices() -> (r: Vec<u32>)
    ensures
        r@.len() == CUBE_INDEX_COUNT,
        forall|k: int| 0 <= k < r@.len() ==> r@[k] == spec_cube_index(k),
        forall|k: int| 0 <= k < r@.len() ==> r@[k] < CUBE_VERTEX_COUNT,
{
    let mut r: Vec<u32> = Vec::new();
    let mut f: u32 = 0;
    while f < 6
        invariant
            f <= 6,
            r@.len() == 6 * f,
            forall|k: int| 0 <= k < r@.len() ==> r@[k] == spec_cube_index(k),
            forall|k: int| 0 <= k < r@.len() ==> r@[k] < 4 * f,
        decreases 6 - f,
    {
        let base = 4 * f;
        r.push(base);
        r.push(base + 1);
        r.push(base + 2);
        r.push(base);
        r.push(base + 2);
        r.push(base + 3);
        proof {
            vstd::arithmetic::div_mod::lemma_fundamental_div_mod_converse(6 * f, 6, f as int, 0);
            vstd::arithmetic::div_mod::lemma_fundamental_div_mod_converse(
                6 * f + 1,
                6,
                f as int,
                1,
            );
            vstd::arithmetic::div_mod::lemma_fundamental_div_mod_converse(
                6 * f + 2,
                6,
                f as int,
                2,
            );
            vstd::arithmetic::div_mod::lemma_fundamental_div_mod_converse(
                6 * f + 3,
                6,
                f as int,
                3,
            );
            vstd::arithmetic::div_mod::lemma_fundamental_div_mod_converse(
                6 * f + 4,
                6,
                f as int,
                4,
            );
            vstd::arithmetic::div_mod::lemma_fundamental_div_mod_converse(
                6 * f + 5,
                6,
                f as int,
                5,
            );
        }
        f = f + 1;
    }
    r
}

/// First vertex of quad (`i`, `j`) of the sphere grid: row `i` holds
/// `slices + 1` vertices, one more than there are slices, because the
/// seam vertex is duplicated.
pub open spec fn spec_sphere_first(slices: int, i: int, j: int) -> int {
    i * (slices + 1) + j
}

/// Element `c` of the six indices of quad (`i`, `j`): two triangles
/// over the quad's corners.
pub open spec fn spec_sphere_entry(slices: int, i: int, j: int, c: int) -> int {
    let first = spec_sphere_first(slices, i, j);
    let second = first + slices + 1;
    if c == 0 {
        first
    } else if c == 1 {
        second
    } else if c == 2 {
        first + 1
    } else if c == 3 {
        second
    } else if c == 4 {
        second + 1
    } else {
        first + 1
    }
}

/// Position of that element in the flat index list: six entries per
/// quad, quads in row-major order.
pub open spec fn spec_sphere_pos(slices: int, i: int, j: int, c: int) -> int {
    6 * (i * slices + j) + c
}

/// Number of vertices of the sphere grid.
pub open spec fn spec_sphere_vertex_count(slices: int, stacks: int) -> int {
    (stacks + 1) * (slices + 1)
}

/// Row-major order of quads orders their flat numbers.
proof fn lemma_quad_order(a: int, b: int, i: int, j: int, slices: int)
    by (nonlinear_arith)
    requires
        0 <= a,
        0 <= b < slices,
        0 <= j,
        a < i || (a == i && b < j),
    ensures
        a * slices + b < i * slices + j,
{
}

/// The largest index a quad emits stays inside the vertex grid.
proof fn lemma_sphere_bound(slices: int, stacks: int, i: int, j: int)
    by (nonlinear_arith)
    requires
        0 <= i < stacks,
        0 <= j < slices,
    ensures
        0 <= i * (slices + 1) + j,
        i * (slices + 1) + j + slices + 2 < (stacks + 1) * (slices + 1),
{
}

/// Number of vertices the sphere generator produces.
pub fn sphere_vertex_count(slices: u32, stacks: u32) -> (n: u32)
    requires
        spec_sphere_vertex_count(slices as int, stacks as int) <= u32::MAX,
    ensures
        n == spec_sphere_vertex_count(slices as int, stacks as int),
{
    proof {
        assert((stacks + 1) * (slices + 1) >= (stacks + 1) * 1 && (stacks + 1) * (slices + 1) >= 1
            * (slices + 1)) by (nonlinear_arith);
    }
    (stacks + 1) * (slices + 1)
}

/// Index list of the generated sphere mesh: for every quad of the
/// stack/slice grid, six indices forming two triangles, and every index
/// in bounds of the grid's vertex count.
pub fn sphere_indices(slices: u32, stacks: u32) -> (r: Vec<u32>)
    requires
        spec_sphere_vertex_count(slices as int, stacks as int) <= u32::MAX,
        6 * (stacks as int) * (slices as int) <= usize::MAX,
    ensures
        r@.len() == 6 * (stacks as int) * (slices as int),
        forall|i: int, j: int, c: int|
            0 <= i < stacks && 0 <= j < slices && 0 <= c < 6 ==> r@[#[trigger] spec_sphere_pos(
                slices as int,
                i,
                j,
                c,
            )] == spec_sphere_entry(slices as int, i, j, c),
        forall|k: int|
            0 <= k < r@.len() ==> r@[k] < spec_sphere_vertex_count(slices as int, stacks as int),
{
    let ghost s: int = slices as int;
    proof {
        assert((stacks + 1) * (slices + 1) >= 1 * (slices + 1)) by (nonlinear_arith);
    }
    let s1: u32 = slices + 1;
    let mut r: Vec<u32> = Vec::new();
    let mut i: u32 = 0;
    while i < stacks
        invariant
            i <= stacks,
            s == slices as int,
            s1 == slices + 1,
            spec_sphere_vertex_count(slices as int, stacks as int) <= u32::MAX,
            6 * (stacks as int) * (slices as int) <= usize::MAX,
            r@.len() == 6 * ((i as int) * s),
            forall|a: int, b: int, c: int|
                0 <= a < i && 0 <= b < slices && 0 <= c < 6 ==> r@[#[trigger] spec_sphere_pos(
                    s,
                    a,
                    b,
                    c,
                )] == spec_sphere_entry(s, a, b, c),
            forall|k: int|
                0 <= k < r@.len() ==> r@[k] < spec_sphere_vertex_count(
                    slices as int,
                    stacks as int,
                ),
        decreases stacks - i,
    {
        let mut j: u32 = 0;
        while j < slices
            invariant
                i < stacks,
                j <= slices,
                s == slices as int,
                s1 == slices + 1,
                spec_sphere_vertex_count(slices as int, stacks as int) <= u32::MAX,
                6 * (stacks as int) * (slices as int) <= usize::MAX,
                r@.len() == 6 * ((i as int) * s + (j as int)),
                forall|a: int, b: int, c: int|
                    (0 <= a < i && 0 <= b < slices || a == i && 0 <= b < j) && 0 <= c < 6
                        ==> r@[#[trigger] spec_sphere_pos(s, a, b, c)] == spec_sphere_entry(
                        s,
                        a,
                        b,
                        c,
                    ),
                forall|k: int|
                    0 <= k < r@.len() ==> r@[k] < spec_sphere_vertex_count(
                        slices as int,
                        stacks as int,
                    ),
            decreases slices - j,
        {
            proof {
                lemma_sphere_bound(s, stacks as int, i as int, j as int);
                if (i as int) * s + (j as int) + 1 < (stacks as int) * s {
                } else {
                    lemma_quad_order(i as int, j as int, stacks as int, 0, s);
                }
                assert((i as int) * s + (j as int) < (stacks as int) * s) by {
                    lemma_quad_order(i as int, j as int, stacks as int, 0, s);
                };
            }
            let ghost old_r = r@;
            let first: u32 = i * s1 + j;
            let second: u32 = first + s1;
            r.push(first);
            r.push(second);
            r.push(first + 1);
            r.push(second);
            r.push(second + 1);
            r.push(first + 1);
            proof {
                let n0 = old_r.len() as int;
                assert forall|a: int, b: int, c: int|
                    (0 <= a < i && 0 <= b < slices || a == i && 0 <= b < j + 1) && 0 <= c
                        < 6 implies r@[#[trigger] spec_sphere_pos(s, a, b, c)]
                    == spec_sphere_entry(s, a, b, c) by {
                    if a == i && b == j {
                        assert(spec_sphere_pos(s, a, b, c) == n0 + c);
                    } else {
                        lemma_quad_order(a, b, i as int, j as int, s);
                        assert(spec_sphere_pos(s, a, b, c) < n0);
                        assert(r@[spec_sphere_pos(s, a, b, c)] == old_r[spec_sphere_pos(
                            s,
                            a,
                            b,
                            c,
                        )]);
                    }
                }
            }
            j = j + 1;
        }
        proof {
            assert(((i as int) + 1) * s == (i as int) * s + s) by (nonlinear_arith);
        }
        i = i + 1;
    }
    proof {
        assert(6 * (stacks as int) * (slices as int) == 6 * ((stacks as int) * (slices
            as int))) by (nonlinear_arith);
    }
    r
}

} // verus!
