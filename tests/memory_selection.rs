use ash_rt::memory::{
    allocation_for, find_memory_type_index, AllocationInfo, MemoryError, MemoryRequirements,
    MemoryType, MEMORY_DEVICE_LOCAL, MEMORY_HOST_COHERENT, MEMORY_HOST_VISIBLE,
};

fn table() -> Vec<MemoryType> {
    vec![
        MemoryType { property_flags: MEMORY_DEVICE_LOCAL, heap_index: 0 },
        MemoryType { property_flags: MEMORY_HOST_VISIBLE, heap_index: 1 },
        MemoryType { property_flags: MEMORY_HOST_VISIBLE | MEMORY_HOST_COHERENT, heap_index: 1 },
        MemoryType { property_flags: MEMORY_DEVICE_LOCAL | MEMORY_HOST_VISIBLE | MEMORY_HOST_COHERENT, heap_index: 0 },
    ]
}

#[test]
fn picks_lowest_allowed_type_with_all_flags() {
    let t = table();
    assert_eq!(find_memory_type_index(0b1111, &t, MEMORY_HOST_VISIBLE | MEMORY_HOST_COHERENT), Some(2));
    assert_eq!(find_memory_type_index(0b1111, &t, MEMORY_DEVICE_LOCAL), Some(0));
    assert_eq!(find_memory_type_index(0b1110, &t, MEMORY_DEVICE_LOCAL), Some(3));
}

#[test]
fn no_type_when_none_allowed_or_flagged() {
    let t = table();
    assert_eq!(find_memory_type_index(0, &t, 0), None);
    assert_eq!(find_memory_type_index(0b0011, &t, MEMORY_HOST_COHERENT), None);
    assert_eq!(find_memory_type_index(0xFFFF_FFFF, &Vec::new(), 0), None);
}

#[test]
fn selection_is_deterministic() {
    let t = table();
    let flags = MEMORY_HOST_VISIBLE;
    let first = find_memory_type_index(0b1110, &t, flags);
    for _ in 0..5 {
        assert_eq!(find_memory_type_index(0b1110, &t, flags), first);
    }
    assert_eq!(first, Some(1));
}

#[test]
fn allocation_uses_requirement_size() {
    let t = table();
    let req = MemoryRequirements { size: 4096, alignment: 256, memory_type_bits: 0b1000 };
    assert_eq!(
        allocation_for(req, &t, MEMORY_DEVICE_LOCAL),
        Ok(AllocationInfo { allocation_size: 4096, memory_type_index: 3 })
    );
    let req = MemoryRequirements { size: 64, alignment: 16, memory_type_bits: 0b0001 };
    assert_eq!(allocation_for(req, &t, MEMORY_HOST_VISIBLE), Err(MemoryError::NoSuitableMemoryType));
}
