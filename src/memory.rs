//! Choosing the device memory type for an allocation.
use vstd::prelude::*;

verus! {

/// Most memory types a device can report.
pub const MAX_MEMORY_TYPES: usize = 32;

/// Memory that is fastest for the device to read and write.
pub const MEMORY_DEVICE_LOCAL: u32 = 0x1;

/// Memory that the host can map.
pub const MEMORY_HOST_VISIBLE: u32 = 0x2;

/// Host writes to mapped memory become visible without explicit flushes.
pub const MEMORY_HOST_COHERENT: u32 = 0x4;

/// One entry of the device's memory-properties table.
#[derive(Clone, Copy, Debug, PartialEq, Eq)]
pub struct MemoryType {
    pub property_flags: u32,
    pub heap_index: u32,
}

/// What the device requires of the memory bound to a resource: its size,
/// its alignment, and one bit per memory type that may back it.
#[derive(Clone, Copy, Debug, PartialEq, Eq)]
pub struct MemoryRequirements {
    pub size: u64,
    pub alignment: u64,
    pub memory_type_bits: u32,
}

/// The size and memory type of one allocation.
#[derive(Clone, Copy, Debug, PartialEq, Eq)]
pub struct AllocationInfo {
    pub allocation_size: u64,
    pub memory_type_index: u32,
}

/// Why an allocation could not be planned.
#[derive(Clone, Copy, Debug, PartialEq, Eq)]
pub enum MemoryError {
    /// No memory type is allowed by the requirements and has every
    /// requested property.
    NoSuitableMemoryType,
}

/// Type `i` is allowed by the requirements' bitmask and has every
/// requested property flag.
pub open spec fn suitable(type_bits: u32, types: Seq<MemoryType>, flags: u32, i: int) -> bool {
    &&& 0 <= i < types.len()
    &&& i < 32
    &&& (type_bits >> (i as u32)) & 1 == 1
    &&& types[i].property_flags & flags == flags
}

/// `r` is the choice of memory type: the lowest suitable index, or `None`
/// where no index is suitable.
pub open spec fn selects(type_bits: u32, types: Seq<MemoryType>, flags: u32, r: Option<u32>) -> bool {
    match r {
        Some(i) => suitable(type_bits, types, flags, i as int) && forall|j: int|
            0 <= j < i ==> !suitable(type_bits, types, flags, j),
        None => forall|j: int| !suitable(type_bits, types, flags, j),
    }
}

/// Finds the lowest index of a memory type that the requirements' bitmask
/// allows and that has every flag of `flags`.
pub fn find_memory_type_index(type_bits: u32, types: &Vec<MemoryType>, flags: u32) -> (r: Option<
    u32,
>)
    requires
        types@.len() <= MAX_MEMORY_TYPES,
    ensures
        selects(type_bits, types@, flags, r),
{
    let mut i: usize = 0;
    while i < types.len()
        invariant
            0 <= i <= types@.len() <= 32,
            forall|j: int| 0 <= j < i ==> !suitable(type_bits, types@, flags, j),
        decreases types@.len() - i,
    {
        let t = types[i];
        let allowed = (type_bits >> (i as u32)) & 1 == 1;
        if allowed && t.property_flags & flags == flags {
            return Some(i as u32);
        }
        i = i + 1;
    }
    None
}

/// Plans the allocation for a resource: its requirements' size, in the
/// lowest suitable memory type.
pub fn allocation_for(
    requirements: MemoryRequirements,
    types: &Vec<MemoryType>,
    flags: u32,
) -> (r: Result<AllocationInfo, MemoryError>)
    requires
        types@.len() <= MAX_MEMORY_TYPES,
    ensures
        r is Err <==> (forall|j: int| !suitable(requirements.memory_type_bits, types@, flags, j)),
        r is Err ==> r == Err::<AllocationInfo, MemoryError>(MemoryError::NoSuitableMemoryType),
        r matches Ok(info) ==> info.allocation_size == requirements.size && selects(
            requirements.memory_type_bits,
            types@,
            flags,
            Some(info.memory_type_index),
        ),
{
    match find_memory_type_index(requirements.memory_type_bits, types, flags) {
        Some(index) => Ok(AllocationInfo { allocation_size: requirements.size, memory_type_index: index }),
        None => Err(MemoryError::NoSuitableMemoryType),
    }
}

/// The choice of memory type is a function of its inputs: any two choices
/// for the same bitmask, table and flags are the same index.
pub proof fn lemma_selection_deterministic(
    type_bits: u32,
    types: Seq<MemoryType>,
    flags: u32,
    r1: Option<u32>,
    r2: Option<u32>,
)
    requires
        selects(type_bits, types, flags, r1),
        selects(type_bits, types, flags, r2),
    ensures
        r1 == r2,
{
    match (r1, r2) {
        (Some(a), Some(b)) => {
            if a < b {
                assert(!suitable(type_bits, types, flags, a as int));
            } else if b < a {
                assert(!suitable(type_bits, types, flags, b as int));
            }
        },
        (Some(a), None) => {
            assert(!suitable(type_bits, types, flags, a as int));
        },
        (None, Some(b)) => {
            assert(!suitable(type_bits, types, flags, b as int));
        },
        (None, None) => {},
    }
}

} // verus!
