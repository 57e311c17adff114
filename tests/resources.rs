use ash_rt::memory::{MemoryError, MEMORY_DEVICE_LOCAL, MEMORY_HOST_COHERENT, MEMORY_HOST_VISIBLE};
use ash_rt::memory::{AllocationInfo, MemoryRequirements, MemoryType};
use ash_rt::resource::{
    buffer_allocation, image_allocation, image_desc, offscreen_target_desc, ImageKind, resource_error, BufferDesc, BufferResource, ImageResource, ReleaseStep,
    ResourceError, StoreError, BUFFER_USAGE_VERTEX, IMAGE_USAGE_STORAGE, IMAGE_USAGE_TRANSFER_SRC,
};

fn host_buffer(size: u64) -> BufferResource {
    BufferResource::from_parts(
        11,
        12,
        BufferDesc { size, usage: BUFFER_USAGE_VERTEX, memory_flags: MEMORY_HOST_VISIBLE | MEMORY_HOST_COHERENT },
    )
}

#[test]
fn store_then_read_returns_the_data() {
    let b = host_buffer(8);
    let mut mapped = vec![0xEEu8; 8];
    let data = [1u8, 2, 3, 4, 5];
    assert_eq!(b.store(&mut mapped, &data), Ok(()));
    assert_eq!(&mapped[..5], &data);
    assert_eq!(&mapped[5..], &[0xEE, 0xEE, 0xEE]);
}

#[test]
fn store_refuses_memory_the_host_cannot_map() {
    let b = BufferResource::from_parts(1, 2, BufferDesc { size: 8, usage: 0, memory_flags: MEMORY_DEVICE_LOCAL });
    let mut mapped = vec![0u8; 8];
    assert_eq!(b.store(&mut mapped, &[9, 9]), Err(StoreError::NotHostVisible));
    assert_eq!(mapped, vec![0u8; 8]);
    assert_eq!(b.check_store(2), Err(StoreError::NotHostVisible));
}

#[test]
fn store_refuses_data_longer_than_the_buffer() {
    let b = host_buffer(2);
    let mut mapped = vec![0u8; 4];
    assert_eq!(b.store(&mut mapped, &[1, 2, 3]), Err(StoreError::TooLarge));
    assert_eq!(mapped, vec![0u8; 4]);
    assert_eq!(b.check_store(3), Err(StoreError::TooLarge));
    assert_eq!(b.check_store(2), Ok(()));
}

#[test]
fn store_refuses_a_short_mapping() {
    let b = host_buffer(16);
    let mut mapped = vec![0u8; 2];
    assert_eq!(b.store(&mut mapped, &[1, 2, 3]), Err(StoreError::MappingTooSmall));
    assert_eq!(mapped, vec![0u8; 2]);
}

#[test]
fn buffer_release_is_memory_then_buffer_once() {
    let mut b = host_buffer(4);
    assert_eq!(b.release(), vec![ReleaseStep::FreeMemory(12), ReleaseStep::DestroyBuffer(11)]);
    assert!(b.release().is_empty());
    assert_eq!(b.size, 4);
}

#[test]
fn image_release_is_view_sampler_memory_image() {
    let mut i = ImageResource { image: 1, memory: 2, view: 3, sampler: 0 };
    assert_eq!(
        i.release(),
        vec![ReleaseStep::DestroyImageView(3), ReleaseStep::FreeMemory(2), ReleaseStep::DestroyImage(1)]
    );
    assert!(i.release().is_empty());
    assert!(ImageResource::null().release().is_empty());
}

#[test]
fn offscreen_target_is_one_level_device_local_storage() {
    let d = offscreen_target_desc(44, 800, 600);
    assert_eq!((d.width, d.height, d.depth), (800, 600, 1));
    assert_eq!((d.mip_levels, d.array_layers, d.samples), (1, 1, 1));
    assert_eq!(d.usage, IMAGE_USAGE_STORAGE | IMAGE_USAGE_TRANSFER_SRC);
    assert_eq!(d.memory_flags, MEMORY_DEVICE_LOCAL);
    assert!(d.optimal_tiling);
    assert_eq!(d.format, 44);
}

#[test]
fn memory_error_maps_to_resource_error() {
    assert_eq!(resource_error(MemoryError::NoSuitableMemoryType), ResourceError::NoSuitableMemoryType);
}

#[test]
fn image_description_has_one_level_layer_and_sample() {
    let d = image_desc(ImageKind::ThreeD, 37, 4, 5, 6, false, IMAGE_USAGE_STORAGE, MEMORY_HOST_VISIBLE);
    assert_eq!(d.kind, ImageKind::ThreeD);
    assert_eq!((d.width, d.height, d.depth), (4, 5, 6));
    assert_eq!((d.mip_levels, d.array_layers, d.samples), (1, 1, 1));
    assert!(!d.optimal_tiling);
    assert_eq!(offscreen_target_desc(44, 8, 8).kind, ImageKind::TwoD);
}

#[test]
fn buffer_and_image_allocations_are_planned_the_same_way() {
    let types = vec![
        MemoryType { property_flags: MEMORY_DEVICE_LOCAL, heap_index: 0 },
        MemoryType { property_flags: MEMORY_HOST_VISIBLE | MEMORY_HOST_COHERENT, heap_index: 1 },
    ];
    let req = MemoryRequirements { size: 512, alignment: 64, memory_type_bits: 0b11 };
    let desc = BufferDesc { size: 500, usage: BUFFER_USAGE_VERTEX, memory_flags: MEMORY_HOST_VISIBLE };
    let first = buffer_allocation(desc, req, &types);
    assert_eq!(first, Ok(AllocationInfo { allocation_size: 512, memory_type_index: 1 }));
    assert_eq!(buffer_allocation(desc, req, &types), first);
    let image = offscreen_target_desc(44, 8, 8);
    assert_eq!(image_allocation(image, req, &types), Ok(AllocationInfo { allocation_size: 512, memory_type_index: 0 }));
    let only_device = MemoryRequirements { size: 512, alignment: 64, memory_type_bits: 0b01 };
    assert_eq!(buffer_allocation(desc, only_device, &types), Err(ResourceError::NoSuitableMemoryType));
}
