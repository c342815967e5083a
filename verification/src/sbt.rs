//! Shader-binding-table construction.
//!
//! The pipeline is created with four shader groups, and their indices
//! are load-bearing: the table regions must reference exactly the group
//! assigned to each role, or rays silently run the wrong shader. The
//! table packs one fixed-size handle per record into four regions in the
//! order generation, primary miss, shadow miss, closest hit — the shadow
//! miss handle precedes the hit handle, although it is group 3, because
//! both miss handles must be contiguous inside the miss region.

use vstd::prelude::*;

verus! {

/// Shader group index of the ray-generation shader.
pub const GROUP_RAYGEN: usize = 0;

/// Shader group index of the primary miss shader.
pub const GROUP_MISS_PRIMARY: usize = 1;

/// Shader group index of the closest-hit group.
pub const GROUP_HIT: usize = 2;

/// Shader group index of the shadow miss shader.
pub const GROUP_MISS_SHADOW: usize = 3;

/// Number of shader groups in the pipeline.
pub const GROUP_COUNT: usize = 4;

/// One strided region of the shader binding table, as the trace call
/// consumes it.
#[derive(Clone, Copy, PartialEq, Eq, Structural, Debug)]
pub struct SbtRegion {
    pub device_address: u64,
    pub stride: u64,
    pub size: u64,
}

/// The handle of shader group `g` inside the packed handle array the
/// pipeline query returns (one `hs`-byte record per group).
pub open spec fn spec_group_handle(handles: Seq<u8>, hs: int, g: int) -> Seq<u8> {
    handles.subrange(g * hs, (g + 1) * hs)
}

/// The byte content of the shader binding table: generation, primary
/// miss, shadow miss, closest hit.
pub open spec fn spec_sbt_bytes(handles: Seq<u8>, hs: int) -> Seq<u8> {
    spec_group_handle(handles, hs, GROUP_RAYGEN as int) + spec_group_handle(
        handles,
        hs,
        GROUP_MISS_PRIMARY as int,
    ) + spec_group_handle(handles, hs, GROUP_MISS_SHADOW as int) + spec_group_handle(
        handles,
        hs,
        GROUP_HIT as int,
    )
}

/// Append `src[start..end]` to `dst`.
fn append_range(dst: &mut Vec<u8>, src: &Vec<u8>, start: usize, end: usize)
    requires
        start <= end <= src@.len(),
    ensures
        final(dst)@ == old(dst)@ + src@.subrange(start as int, end as int),
{
    let mut i: usize = start;
    while i < end
        invariant
            start <= i <= end <= src@.len(),
            dst@ == old(dst)@ + src@.subrange(start as int, i as int),
        decreases end - i,
    {
        dst.push(src[i]);
        proof {
            assert(old(dst)@ + src@.subrange(start as int, (i + 1) as int) =~= (old(dst)@
                + src@.subrange(start as int, i as int)).push(src@[i as int]));
        }
        i = i + 1;
    }
}

/// Lay out the shader binding table from the packed group handles the
/// pipeline reports.
///
/// `handle_size` is the device's shader-group handle size and `handles`
/// holds the four group handles back to back in group-index order.
pub fn build_sbt(handle_size: usize, handles: &Vec<u8>) -> (sbt: Vec<u8>)
    requires
        handles@.len() == 4 * handle_size,
    ensures
        sbt@.len() == 4 * handle_size,
        sbt@ == spec_sbt_bytes(handles@, handle_size as int),
{
    let hs = handle_size;
    let total = handles.len();
    proof {
        assert(4 * hs == total);
    }
    let mut sbt: Vec<u8> = Vec::new();
    append_range(&mut sbt, handles, 0, hs);
    append_range(&mut sbt, handles, hs, 2 * hs);
    append_range(&mut sbt, handles, 3 * hs, 4 * hs);
    append_range(&mut sbt, handles, 2 * hs, 3 * hs);
    proof {
        assert(sbt@ =~= spec_sbt_bytes(handles@, handle_size as int));
    }
    sbt
}

/// The four strided regions handed to the trace call, addressing the
/// table at `sbt_address`: one generation record, two miss records, one
/// hit record, and an empty callable region.
pub fn sbt_regions(sbt_address: u64, handle_size: u64) -> (r: Vec<SbtRegion>)
    requires
        sbt_address + 4 * handle_size <= u64::MAX,
    ensures
        r@.len() == 4,
        r@[0].device_address == sbt_address,
        r@[0].stride == handle_size,
        r@[0].size == handle_size,
        r@[1].device_address == sbt_address + handle_size,
        r@[1].stride == handle_size,
        r@[1].size == 2 * handle_size,
        r@[2].device_address == sbt_address + 3 * handle_size,
        r@[2].stride == handle_size,
        r@[2].size == handle_size,
        r@[3].device_address == 0,
        r@[3].stride == 0,
        r@[3].size == 0,
{
    let mut r: Vec<SbtRegion> = Vec::new();
    r.push(SbtRegion { device_address: sbt_address, stride: handle_size, size: handle_size });
    r.push(
        SbtRegion {
            device_address: sbt_address + handle_size,
            stride: handle_size,
            size: 2 * handle_size,
        },
    );
    r.push(
        SbtRegion {
            device_address: sbt_address + 3 * handle_size,
            stride: handle_size,
            size: handle_size,
        },
    );
    r.push(SbtRegion { device_address: 0, stride: 0, size: 0 });
    r
}

/// Byte-layout law of the shader binding table: region 0 (generation)
/// is the handle of group 0; the miss region holds the handle of group 1
/// in its first record and the handle of group 3 (shadow miss) in its
/// second; region 2 (hit) is the handle of group 2.
pub proof fn lemma_sbt_layout(handles: Seq<u8>, hs: int)
    requires
        hs >= 0,
        handles.len() == 4 * hs,
    ensures
        spec_sbt_bytes(handles, hs).subrange(0, hs) == spec_group_handle(handles, hs, 0),
        spec_sbt_bytes(handles, hs).subrange(hs, 2 * hs) == spec_group_handle(handles, hs, 1),
        spec_sbt_bytes(handles, hs).subrange(2 * hs, 3 * hs) == spec_group_handle(handles, hs, 3),
        spec_sbt_bytes(handles, hs).subrange(3 * hs, 4 * hs) == spec_group_handle(handles, hs, 2),
{
    assert(spec_sbt_bytes(handles, hs).subrange(0, hs) =~= spec_group_handle(handles, hs, 0));
    assert(spec_sbt_bytes(handles, hs).subrange(hs, 2 * hs) =~= spec_group_handle(handles, hs, 1));
    assert(spec_sbt_bytes(handles, hs).subrange(2 * hs, 3 * hs) =~= spec_group_handle(
        handles,
        hs,
        3,
    ));
    assert(spec_sbt_bytes(handles, hs).subrange(3 * hs, 4 * hs) =~= spec_group_handle(
        handles,
        hs,
        2,
    ));
}

} // verus!
