//! Memory-type selection for device allocations.
//!
//! An adapter reports a fixed list of memory types, each described by a word
//! of property flags.  An allocation carries a requirement bitmask (bit `i`
//! set means memory type `i` is acceptable) and the caller asks for a set of
//! desired property flags.  Selection returns the first index whose bit is
//! set in the requirement mask and whose property flags are a superset of
//! the desired flags; the absence of a match is a configuration error that
//! the caller treats as fatal.

use vstd::prelude::*;

verus! {

/// Requirements reported by the device for one allocation.
pub struct MemoryRequirements {
    /// Size of the allocation in bytes.
    pub size: u64,
    /// Bit `i` is set when memory type `i` may back the allocation.
    pub memory_type_bits: u32,
}

/// The adapter's memory types: one property-flag word per type, in the
/// order the adapter reports them.
pub struct MemoryProperties {
    pub memory_types: Vec<u32>,
}

/// Memory type `i` (with property flags `type_flags`) can back an
/// allocation with requirement mask `type_bits` and desired flags `flags`.
pub open spec fn memory_type_suitable(type_bits: u32, type_flags: u32, flags: u32, i: u32) -> bool {
    &&& (1u32 << i) & type_bits != 0
    &&& type_flags & flags == flags
}

/// The first memory type compatible with the requirement mask whose
/// property flags contain all desired flags, if any.
pub fn find_memorytype_index(
    memory_req: &MemoryRequirements,
    memory_prop: &MemoryProperties,
    flags: u32,
) -> (r: Option<u32>)
    requires
        memory_prop.memory_types@.len() <= 32,
    ensures
        match r {
            Some(i) => {
                &&& 0 <= i < memory_prop.memory_types@.len()
                &&& memory_type_suitable(
                    memory_req.memory_type_bits,
                    memory_prop.memory_types@[i as int],
                    flags,
                    i,
                )
                &&& forall|j: u32|
                    j < i ==> !memory_type_suitable(
                        memory_req.memory_type_bits,
                        memory_prop.memory_types@[j as int],
                        flags,
                        j,
                    )
            },
            None => forall|j: u32|
                j < memory_prop.memory_types@.len() ==> !memory_type_suitable(
                    memory_req.memory_type_bits,
                    memory_prop.memory_types@[j as int],
                    flags,
                    j,
                ),
        },
{
    let n = memory_prop.memory_types.len();
    let mut i: usize = 0;
    while i < n
        invariant
            n == memory_prop.memory_types@.len() <= 32,
            i <= n,
            forall|j: u32|
                j < i ==> !memory_type_suitable(
                    memory_req.memory_type_bits,
                    memory_prop.memory_types@[j as int],
                    flags,
                    j,
                ),
        decreases n - i,
    {
        let type_flags = memory_prop.memory_types[i];
        if (1u32 << (i as u32)) & memory_req.memory_type_bits != 0 && type_flags & flags == flags {
            return Some(i as u32);
        }
        i = i + 1;
    }
    None
}

} // verus!
