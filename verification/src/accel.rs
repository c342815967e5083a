//! Acceleration-structure build inputs.
//!
//! The scene's meshes share one vertex buffer and one index buffer. An
//! address table maps each mesh index to the device addresses of its
//! vertex and index sub-ranges, computed once from the running totals of
//! the meshes before it; every later consumer (bottom-level geometry
//! descriptions, per-instance descriptor records) reads the table
//! instead of re-scanning the mesh list. Top-level instance records pack
//! each object's transform, material index, culling flag and the device
//! address of its mesh's bottom-level structure.

use vstd::prelude::*;

verus! {

/// Per-vertex byte stride: position, normal and color, three 32-bit
/// floats each.
pub const VERTEX_STRIDE: u64 = 36;

/// Byte stride of one 32-bit index.
pub const INDEX_STRIDE: u64 = 4;

/// Visibility mask enabling an instance for every ray mask.
pub const VISIBILITY_MASK_ALL: u32 = 0xFF;

/// Instance flag disabling back-face culling, so thin shapes stay
/// visible from both sides.
pub const FLAG_CULL_DISABLE: u32 = 1;

/// Vertex and index counts of one mesh.
#[derive(Clone, Copy, PartialEq, Eq, Structural, Debug)]
pub struct MeshLayout {
    pub vertex_count: usize,
    pub index_count: usize,
}

/// Where one mesh's data lives on the device, and how much of it there
/// is: one entry of the address table.
#[derive(Clone, Copy, PartialEq, Eq, Structural, Debug)]
pub struct MeshGeometry {
    pub vertex_address: u64,
    pub index_address: u64,
    pub vertex_count: usize,
    pub index_count: usize,
}

/// Geometry description for one bottom-level build.
#[derive(Clone, Copy, PartialEq, Eq, Structural, Debug)]
pub struct BlasBuildInput {
    pub vertex_address: u64,
    pub index_address: u64,
    pub max_vertex: u32,
    pub primitive_count: u32,
    pub vertex_stride: u64,
}

/// One scene object as the instance builder consumes it: which mesh,
/// which material, and its 3x4 row-major world transform as raw 32-bit
/// float words.
#[derive(Clone, Copy, PartialEq, Eq, Debug)]
pub struct SceneObject {
    pub mesh_index: usize,
    pub material_index: u32,
    pub transform: [u32; 12],
}

/// One top-level instance record, field for field what the device
/// consumes.
#[derive(Clone, Copy, PartialEq, Eq, Debug)]
pub struct TlasInstance {
    /// 3x4 row-major world transform, raw 32-bit float words.
    pub transform: [u32; 12],
    /// Low 24 bits: the instance custom index carrying the material
    /// index; high 8 bits: the visibility mask.
    pub custom_index_and_mask: u32,
    /// Low 24 bits: shader-binding-table record offset (zero: all
    /// instances share the one hit group); high 8 bits: instance flags.
    pub sbt_offset_and_flags: u32,
    /// Device address of the mesh's bottom-level structure.
    pub blas_address: u64,
}

/// Total vertices of the first `m` meshes.
pub open spec fn spec_vertex_prefix(meshes: Seq<MeshLayout>, m: int) -> int
    decreases m,
{
    if m <= 0 {
        0
    } else {
        spec_vertex_prefix(meshes, m - 1) + meshes[m - 1].vertex_count
    }
}

/// Total indices of the first `m` meshes.
pub open spec fn spec_index_prefix(meshes: Seq<MeshLayout>, m: int) -> int
    decreases m,
{
    if m <= 0 {
        0
    } else {
        spec_index_prefix(meshes, m - 1) + meshes[m - 1].index_count
    }
}

/// Prefix totals only grow: counts are non-negative.
pub proof fn lemma_prefix_monotonic(meshes: Seq<MeshLayout>, m: int, n: int)
    requires
        0 <= m <= n,
    ensures
        0 <= spec_vertex_prefix(meshes, m) <= spec_vertex_prefix(meshes, n),
        0 <= spec_index_prefix(meshes, m) <= spec_index_prefix(meshes, n),
    decreases n,
{
    if n > 0 {
        if m == n {
            lemma_prefix_monotonic(meshes, m - 1, n - 1);
        } else {
            lemma_prefix_monotonic(meshes, m, n - 1);
        }
    }
}

/// Device address of mesh `m`'s vertex sub-range.
pub open spec fn spec_vertex_address(meshes: Seq<MeshLayout>, m: int, vertex_base: int) -> int {
    vertex_base + spec_vertex_prefix(meshes, m) * VERTEX_STRIDE
}

/// Device address of mesh `m`'s index sub-range.
pub open spec fn spec_index_address(meshes: Seq<MeshLayout>, m: int, index_base: int) -> int {
    index_base + spec_index_prefix(meshes, m) * INDEX_STRIDE
}

/// Build the mesh address table: for every mesh, the device addresses of
/// its vertex and index sub-ranges inside the shared buffers based at
/// `vertex_base` and `index_base`, together with its counts.
pub fn mesh_geometry_table(meshes: &Vec<MeshLayout>, vertex_base: u64, index_base: u64) -> (t: Vec<
    MeshGeometry,
>)
    requires
        vertex_base + spec_vertex_prefix(meshes@, meshes@.len() as int) * VERTEX_STRIDE
            <= u64::MAX,
        index_base + spec_index_prefix(meshes@, meshes@.len() as int) * INDEX_STRIDE <= u64::MAX,
    ensures
        t@.len() == meshes@.len(),
        forall|m: int|
            0 <= m < meshes@.len() ==> {
                &&& t@[m].vertex_address == spec_vertex_address(meshes@, m, vertex_base as int)
                &&& t@[m].index_address == spec_index_address(meshes@, m, index_base as int)
                &&& t@[m].vertex_count == meshes@[m].vertex_count
                &&& t@[m].index_count == meshes@[m].index_count
            },
{
    let n = meshes.len();
    let mut t: Vec<MeshGeometry> = Vec::new();
    let mut v_bytes: u64 = 0;
    let mut i_bytes: u64 = 0;
    let mut m: usize = 0;
    while m < n
        invariant
            n == meshes@.len(),
            m <= n,
            t@.len() == m,
            v_bytes == spec_vertex_prefix(meshes@, m as int) * VERTEX_STRIDE,
            i_bytes == spec_index_prefix(meshes@, m as int) * INDEX_STRIDE,
            vertex_base + spec_vertex_prefix(meshes@, n as int) * VERTEX_STRIDE <= u64::MAX,
            index_base + spec_index_prefix(meshes@, n as int) * INDEX_STRIDE <= u64::MAX,
            forall|k: int|
                0 <= k < m ==> {
                    &&& t@[k].vertex_address == spec_vertex_address(meshes@, k, vertex_base as int)
                    &&& t@[k].index_address == spec_index_address(meshes@, k, index_base as int)
                    &&& t@[k].vertex_count == meshes@[k].vertex_count
                    &&& t@[k].index_count == meshes@[k].index_count
                },
        decreases n - m,
    {
        proof {
            lemma_prefix_monotonic(meshes@, m + 1, n as int);
        }
        let mesh = meshes[m];
        t.push(
            MeshGeometry {
                vertex_address: vertex_base + v_bytes,
                index_address: index_base + i_bytes,
                vertex_count: mesh.vertex_count,
                index_count: mesh.index_count,
            },
        );
        v_bytes = v_bytes + (mesh.vertex_count as u64) * VERTEX_STRIDE;
        i_bytes = i_bytes + (mesh.index_count as u64) * INDEX_STRIDE;
        m = m + 1;
    }
    t
}

/// Derive the bottom-level build description of every mesh from the
/// address table: the sub-range addresses, the vertex count, and one
/// primitive per index triple.
pub fn blas_build_inputs(table: &Vec<MeshGeometry>) -> (r: Vec<BlasBuildInput>)
    requires
        forall|m: int|
            0 <= m < table@.len() ==> table@[m].vertex_count <= u32::MAX
                && table@[m].index_count <= u32::MAX,
    ensures
        r@.len() == table@.len(),
        forall|m: int|
            0 <= m < table@.len() ==> {
                &&& r@[m].vertex_address == table@[m].vertex_address
                &&& r@[m].index_address == table@[m].index_address
                &&& r@[m].max_vertex == table@[m].vertex_count
                &&& r@[m].primitive_count == table@[m].index_count as int / 3
                &&& r@[m].vertex_stride == VERTEX_STRIDE
            },
{
    let n = table.len();
    let mut r: Vec<BlasBuildInput> = Vec::new();
    let mut m: usize = 0;
    while m < n
        invariant
            n == table@.len(),
            m <= n,
            r@.len() == m,
            forall|i: int|
                0 <= i < table@.len() ==> table@[i].vertex_count <= u32::MAX
                    && table@[i].index_count <= u32::MAX,
            forall|k: int|
                0 <= k < m ==> {
                    &&& r@[k].vertex_address == table@[k].vertex_address
                    &&& r@[k].index_address == table@[k].index_address
                    &&& r@[k].max_vertex == table@[k].vertex_count
                    &&& r@[k].primitive_count == table@[k].index_count as int / 3
                    &&& r@[k].vertex_stride == VERTEX_STRIDE
                },
        decreases n - m,
    {
        let g = table[m];
        r.push(
            BlasBuildInput {
                vertex_address: g.vertex_address,
                index_address: g.index_address,
                max_vertex: g.vertex_count as u32,
                primitive_count: (g.index_count / 3) as u32,
                vertex_stride: VERTEX_STRIDE,
            },
        );
        m = m + 1;
    }
    r
}

/// Pack a 24-bit value and an 8-bit value into one word, the low 24
/// bits holding `low`, as instance records store both the custom index
/// with the visibility mask and the record offset with the flags.
pub fn pack_24_8(low: u32, high: u32) -> (r: u32)
    requires
        low < 0x100_0000,
        high < 0x100,
    ensures
        r == high * 0x100_0000 + low,
        r & 0x00FF_FFFF == low,
        r >> 24u32 == high,
{
    let r = (high << 24u32) | (low & 0x00FF_FFFF);
    proof {
        assert((r == high * 0x100_0000 + low) && (r & 0x00FF_FFFF == low) && (r >> 24u32
            == high)) by (bit_vector)
            requires
                r == ((high << 24u32) | (low & 0x00FF_FFFFu32)),
                low < 0x100_0000u32,
                high < 0x100u32,
        ;
    }
    r
}

/// Build the top-level instance records: each object's transform is
/// carried over, its material index rides in the low 24 bits of the
/// custom index under an always-on visibility mask, back-face culling is
/// disabled, and the structure reference is the device address of the
/// bottom-level structure of the object's mesh.
pub fn build_tlas_instances(objects: &Vec<SceneObject>, blas_addresses: &Vec<u64>) -> (r: Vec<
    TlasInstance,
>)
    requires
        forall|k: int| 0 <= k < objects@.len() ==> objects@[k].mesh_index < blas_addresses@.len(),
        forall|k: int| 0 <= k < objects@.len() ==> objects@[k].material_index < 0x100_0000,
    ensures
        r@.len() == objects@.len(),
        forall|k: int|
            0 <= k < objects@.len() ==> {
                &&& r@[k].transform@ == objects@[k].transform@
                &&& r@[k].custom_index_and_mask == VISIBILITY_MASK_ALL * 0x100_0000 + objects@[
                    k].material_index
                &&& r@[k].custom_index_and_mask & 0x00FF_FFFF == objects@[k].material_index
                &&& r@[k].sbt_offset_and_flags == FLAG_CULL_DISABLE * 0x100_0000
                &&& r@[k].blas_address == blas_addresses@[objects@[k].mesh_index as int]
            },
{
    let n = objects.len();
    let mut r: Vec<TlasInstance> = Vec::new();
    let mut k: usize = 0;
    while k < n
        invariant
            n == objects@.len(),
            k <= n,
            r@.len() == k,
            forall|i: int|
                0 <= i < objects@.len() ==> objects@[i].mesh_index < blas_addresses@.len(),
            forall|i: int| 0 <= i < objects@.len() ==> objects@[i].material_index < 0x100_0000,
            forall|i: int|
                0 <= i < k ==> {
                    &&& r@[i].transform@ == objects@[i].transform@
                    &&& r@[i].custom_index_and_mask == VISIBILITY_MASK_ALL * 0x100_0000 + objects@[
                        i].material_index
                    &&& r@[i].custom_index_and_mask & 0x00FF_FFFF == objects@[i].material_index
                    &&& r@[i].sbt_offset_and_flags == FLAG_CULL_DISABLE * 0x100_0000
                    &&& r@[i].blas_address == blas_addresses@[objects@[i].mesh_index as int]
                },
        decreases n - k,
    {
        let obj = &objects[k];
        let custom = pack_24_8(obj.material_index, VISIBILITY_MASK_ALL);
        let flags = pack_24_8(0, FLAG_CULL_DISABLE);
        r.push(
            TlasInstance {
                transform: obj.transform,
                custom_index_and_mask: custom,
                sbt_offset_and_flags: flags,
                blas_address: blas_addresses[obj.mesh_index],
            },
        );
        k = k + 1;
    }
    r
}

} // verus!
