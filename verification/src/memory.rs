//! Memory-type resolution for buffer and image allocations.
//!
//! A resource reports which memory types it can live in as a 32-bit
//! bitmask, and the allocator asks for a property class (for example
//! device-local, or host-visible and coherent). The resolver returns the
//! lowest-numbered memory type that is both admitted by the bitmask and
//! carries every requested property bit, exactly as the device driver
//! expects the intersection to be taken.

use vstd::prelude::*;
use crate::error::RenderError;

verus! {

/// Memory type `i` (with property flags `props`) satisfies a resource
/// whose admissible-type bitmask is `type_bits` and whose requested
/// property bits are `required`.
pub open spec fn memory_type_matches(type_bits: u32, props: u32, required: u32, i: int) -> bool {
    &&& 0 <= i < 32
    &&& (type_bits & (1u32 << (i as u32))) != 0
    &&& (props & required) == required
}

/// Resolve a memory-type index: the first type admitted by `type_bits`
/// whose property flags contain all of `required`.
///
/// `type_props` holds the property flags of each of the device's memory
/// types, in device order; a 32-bit bitmask can address at most 32 types.
pub fn find_memory_type(type_bits: u32, type_props: &Vec<u32>, required: u32) -> (r: Result<
    usize,
    RenderError,
>)
    requires
        type_props@.len() <= 32,
    ensures
        match r {
            Ok(i) => {
                &&& i < type_props@.len()
                &&& memory_type_matches(type_bits, type_props@[i as int], required, i as int)
                &&& forall|j: int|
                    0 <= j < i ==> !memory_type_matches(type_bits, type_props@[j], required, j)
            },
            Err(e) => {
                &&& e == RenderError::NoCompatibleMemoryType
                &&& forall|j: int|
                    0 <= j < type_props@.len() ==> !memory_type_matches(
                        type_bits,
                        type_props@[j],
                        required,
                        j,
                    )
            },
        },
        (exists|j: int|
            0 <= j < type_props@.len() && memory_type_matches(
                type_bits,
                type_props@[j],
                required,
                j,
            )) ==> r is Ok,
{
    let n = type_props.len();
    let mut i: usize = 0;
    while i < n
        invariant
            n == type_props@.len() <= 32,
            i <= n,
            forall|j: int| 0 <= j < i ==> !memory_type_matches(type_bits, type_props@[j], required, j),
        decreases n - i,
    {
        let bit: u32 = 1u32 << (i as u32);
        if (type_bits & bit) != 0 && (type_props[i] & required) == required {
            return Ok(i);
        }
        i = i + 1;
    }
    Err(RenderError::NoCompatibleMemoryType)
}

} // verus!
