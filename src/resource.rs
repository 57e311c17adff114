//! Buffers and images that own device memory, and the order in which they
//! are released. Handles are the raw 64-bit values of device objects; zero
//! is the null handle, which owns nothing.
use crate::memory::{
    AllocationInfo, MAX_MEMORY_TYPES, MEMORY_DEVICE_LOCAL, MEMORY_HOST_VISIBLE, MemoryError,
    MemoryRequirements, MemoryType, find_memory_type_index, lemma_selection_deterministic, selects,
};
use vstd::prelude::*;

verus! {

/// One call that destroys or frees a device object.
#[derive(Clone, Copy, Debug, PartialEq, Eq)]
pub enum ReleaseStep {
    DestroyImageView(u64),
    DestroySampler(u64),
    FreeMemory(u64),
    DestroyImage(u64),
    DestroyBuffer(u64),
    DestroyAccelerationStructure(u64),
    DestroyDescriptorPool(u64),
    DestroyPipeline(u64),
    DestroyPipelineLayout(u64),
    DestroyDescriptorSetLayout(u64),
    DestroyShaderModule(u64),
}

/// The handle that a step releases.
pub open spec fn step_handle(s: ReleaseStep) -> u64 {
    match s {
        ReleaseStep::DestroyImageView(h) => h,
        ReleaseStep::DestroySampler(h) => h,
        ReleaseStep::FreeMemory(h) => h,
        ReleaseStep::DestroyImage(h) => h,
        ReleaseStep::DestroyBuffer(h) => h,
        ReleaseStep::DestroyAccelerationStructure(h) => h,
        ReleaseStep::DestroyDescriptorPool(h) => h,
        ReleaseStep::DestroyPipeline(h) => h,
        ReleaseStep::DestroyPipelineLayout(h) => h,
        ReleaseStep::DestroyDescriptorSetLayout(h) => h,
        ReleaseStep::DestroyShaderModule(h) => h,
    }
}

/// The step, where its handle is live; nothing for a null handle.
pub open spec fn live_step(s: ReleaseStep) -> Seq<ReleaseStep> {
    if step_handle(s) == 0 {
        seq![]
    } else {
        seq![s]
    }
}

/// Appends `s` to `out` where its handle is live.
pub fn push_live(out: &mut Vec<ReleaseStep>, s: ReleaseStep)
    ensures
        final(out)@ == old(out)@ + live_step(s),
{
    let h = match s {
        ReleaseStep::DestroyImageView(h) => h,
        ReleaseStep::DestroySampler(h) => h,
        ReleaseStep::FreeMemory(h) => h,
        ReleaseStep::DestroyImage(h) => h,
        ReleaseStep::DestroyBuffer(h) => h,
        ReleaseStep::DestroyAccelerationStructure(h) => h,
        ReleaseStep::DestroyDescriptorPool(h) => h,
        ReleaseStep::DestroyPipeline(h) => h,
        ReleaseStep::DestroyPipelineLayout(h) => h,
        ReleaseStep::DestroyDescriptorSetLayout(h) => h,
        ReleaseStep::DestroyShaderModule(h) => h,
    };
    if h != 0 {
        out.push(s);
        assert(final(out)@ =~= old(out)@ + live_step(s));
    } else {
        assert(final(out)@ =~= old(out)@ + live_step(s));
    }
}

/// Why data could not be stored into a buffer.
#[derive(Clone, Copy, Debug, PartialEq, Eq)]
pub enum StoreError {
    /// The buffer's memory cannot be mapped by the host.
    NotHostVisible,
    /// The data is longer than the buffer.
    TooLarge,
    /// The data is longer than the mapped range it is copied into.
    MappingTooSmall,
}

/// Why a resource could not be created.
#[derive(Clone, Copy, Debug, PartialEq, Eq)]
pub enum ResourceError {
    /// No memory type satisfies the resource and the requested properties.
    NoSuitableMemoryType,
}

/// The library's error for a failed memory-type choice.
pub fn resource_error(e: MemoryError) -> (r: ResourceError)
    ensures
        r == ResourceError::NoSuitableMemoryType,
{
    match e {
        MemoryError::NoSuitableMemoryType => ResourceError::NoSuitableMemoryType,
    }
}

/// Buffer usage: vertex data for geometry.
pub const BUFFER_USAGE_VERTEX: u32 = 0x80;

/// Buffer usage: index data for geometry.
pub const BUFFER_USAGE_INDEX: u32 = 0x40;

/// Buffer usage: uniform data read by shaders.
pub const BUFFER_USAGE_UNIFORM: u32 = 0x10;

/// Buffer usage: source of a transfer.
pub const BUFFER_USAGE_TRANSFER_SRC: u32 = 0x1;

/// Buffer usage: instance or scratch data of a ray-tracing build.
pub const BUFFER_USAGE_RAY_TRACING: u32 = 0x400;

/// Image usage: source of a transfer.
pub const IMAGE_USAGE_TRANSFER_SRC: u32 = 0x1;

/// Image usage: read and written by shaders as a storage image.
pub const IMAGE_USAGE_STORAGE: u32 = 0x8;

/// What a buffer is created with: exactly `size` bytes, for `usage`, in
/// memory with every flag of `memory_flags`, owned by one queue family.
#[derive(Clone, Copy, Debug, PartialEq, Eq)]
pub struct BufferDesc {
    pub size: u64,
    pub usage: u32,
    pub memory_flags: u32,
}

/// Number of dimensions of an image.
#[derive(Clone, Copy, Debug, PartialEq, Eq)]
pub enum ImageKind {
    OneD,
    TwoD,
    ThreeD,
}

/// What an image is created with. It is owned by one queue family and
/// starts in the undefined layout.
#[derive(Clone, Copy, Debug, PartialEq, Eq)]
pub struct ImageDesc {
    pub kind: ImageKind,
    pub format: i32,
    pub width: u32,
    pub height: u32,
    pub depth: u32,
    pub mip_levels: u32,
    pub array_layers: u32,
    pub samples: u32,
    /// Laid out in the device's preferred tiling rather than row by row.
    pub optimal_tiling: bool,
    pub usage: u32,
    pub memory_flags: u32,
}

/// An image of one mip level, one array layer and one sample.
pub fn image_desc(
    kind: ImageKind,
    format: i32,
    width: u32,
    height: u32,
    depth: u32,
    optimal_tiling: bool,
    usage: u32,
    memory_flags: u32,
) -> (r: ImageDesc)
    ensures
        r == (ImageDesc {
            kind,
            format,
            width,
            height,
            depth,
            mip_levels: 1,
            array_layers: 1,
            samples: 1,
            optimal_tiling,
            usage,
            memory_flags,
        }),
{
    ImageDesc {
        kind,
        format,
        width,
        height,
        depth,
        mip_levels: 1,
        array_layers: 1,
        samples: 1,
        optimal_tiling,
        usage,
        memory_flags,
    }
}

/// The two-dimensional image the rays are traced into, at the size of the
/// window's surface, in device-local memory.
pub fn offscreen_target_desc(format: i32, width: u32, height: u32) -> (r: ImageDesc)
    ensures
        r == (ImageDesc {
            kind: ImageKind::TwoD,
            format,
            width,
            height,
            depth: 1,
            mip_levels: 1,
            array_layers: 1,
            samples: 1,
            optimal_tiling: true,
            usage: IMAGE_USAGE_STORAGE | IMAGE_USAGE_TRANSFER_SRC,
            memory_flags: MEMORY_DEVICE_LOCAL,
        }),
{
    image_desc(
        ImageKind::TwoD,
        format,
        width,
        height,
        1,
        true,
        IMAGE_USAGE_STORAGE | IMAGE_USAGE_TRANSFER_SRC,
        MEMORY_DEVICE_LOCAL,
    )
}

/// `r` is the allocation for memory requirements `req` with every flag of
/// `flags`: the requirements' size in the lowest suitable memory type, or
/// `NoSuitableMemoryType` exactly where no type is suitable.
pub open spec fn allocation_choice(
    req: MemoryRequirements,
    types: Seq<MemoryType>,
    flags: u32,
    r: Result<AllocationInfo, ResourceError>,
) -> bool {
    match r {
        Ok(info) => info.allocation_size == req.size && selects(
            req.memory_type_bits,
            types,
            flags,
            Some(info.memory_type_index),
        ),
        Err(e) => e == ResourceError::NoSuitableMemoryType && selects(
            req.memory_type_bits,
            types,
            flags,
            None,
        ),
    }
}

/// Plans the memory of a resource whose memory must have `flags`.
fn plan_allocation(req: MemoryRequirements, types: &Vec<MemoryType>, flags: u32) -> (r: Result<
    AllocationInfo,
    ResourceError,
>)
    requires
        types@.len() <= MAX_MEMORY_TYPES,
    ensures
        allocation_choice(req, types@, flags, r),
{
    match find_memory_type_index(req.memory_type_bits, types, flags) {
        Some(index) => Ok(AllocationInfo { allocation_size: req.size, memory_type_index: index }),
        None => Err(ResourceError::NoSuitableMemoryType),
    }
}

/// The allocation that backs a buffer made from `desc`, whose device
/// reported requirements `req`.
pub fn buffer_allocation(desc: BufferDesc, req: MemoryRequirements, types: &Vec<MemoryType>) -> (r:
    Result<AllocationInfo, ResourceError>)
    requires
        types@.len() <= MAX_MEMORY_TYPES,
    ensures
        allocation_choice(req, types@, desc.memory_flags, r),
{
    plan_allocation(req, types, desc.memory_flags)
}

/// The allocation that backs an image made from `desc`, whose device
/// reported requirements `req`.
pub fn image_allocation(desc: ImageDesc, req: MemoryRequirements, types: &Vec<MemoryType>) -> (r:
    Result<AllocationInfo, ResourceError>)
    requires
        types@.len() <= MAX_MEMORY_TYPES,
    ensures
        allocation_choice(req, types@, desc.memory_flags, r),
{
    plan_allocation(req, types, desc.memory_flags)
}

/// Creating two resources with the same memory flags, whose device reports
/// the same requirements, over the same memory table, allocates in the
/// same memory type and size: the plan depends on these values alone.
pub proof fn lemma_allocation_deterministic(
    req: MemoryRequirements,
    types: Seq<MemoryType>,
    flags: u32,
    r1: Result<AllocationInfo, ResourceError>,
    r2: Result<AllocationInfo, ResourceError>,
)
    requires
        allocation_choice(req, types, flags, r1),
        allocation_choice(req, types, flags, r2),
    ensures
        r1 == r2,
{
    let c1 = match r1 {
        Ok(info) => Some(info.memory_type_index),
        Err(_) => None,
    };
    let c2 = match r2 {
        Ok(info) => Some(info.memory_type_index),
        Err(_) => None,
    };
    lemma_selection_deterministic(req.memory_type_bits, types, flags, c1, c2);
}

/// A buffer with the memory bound to it. It is not `Copy` or `Clone`: one
/// value owns the handles, so they are released once.
#[derive(Debug, PartialEq, Eq)]
pub struct BufferResource {
    pub buffer: u64,
    pub memory: u64,
    pub size: u64,
    pub memory_flags: u32,
}

/// Steps that release a buffer: its memory, then the buffer.
pub open spec fn buffer_release_steps(b: BufferResource) -> Seq<ReleaseStep> {
    live_step(ReleaseStep::FreeMemory(b.memory)) + live_step(ReleaseStep::DestroyBuffer(b.buffer))
}

impl BufferResource {
    /// The buffer made from `desc`, with the handles the device returned.
    pub fn from_parts(buffer: u64, memory: u64, desc: BufferDesc) -> (r: BufferResource)
        ensures
            r == (BufferResource { buffer, memory, size: desc.size, memory_flags: desc.memory_flags }),
    {
        BufferResource { buffer, memory, size: desc.size, memory_flags: desc.memory_flags }
    }

    /// A buffer that owns nothing.
    pub fn null() -> (r: BufferResource)
        ensures
            r.is_released(),
            r.size == 0,
            r.memory_flags == 0,
    {
        BufferResource { buffer: 0, memory: 0, size: 0, memory_flags: 0 }
    }

    /// Every handle of the buffer is null.
    pub open spec fn is_released(self) -> bool {
        self.buffer == 0 && self.memory == 0
    }

    /// Checks that `byte_len` bytes can be stored through a host mapping:
    /// the memory is host-visible and the data fits in the buffer.
    pub fn check_store(&self, byte_len: u64) -> (r: Result<(), StoreError>)
        ensures
            r == (if self.memory_flags & MEMORY_HOST_VISIBLE != MEMORY_HOST_VISIBLE {
                Err(StoreError::NotHostVisible)
            } else if byte_len > self.size {
                Err(StoreError::TooLarge)
            } else {
                Ok(())
            }),
    {
        if self.memory_flags & MEMORY_HOST_VISIBLE != MEMORY_HOST_VISIBLE {
            Err(StoreError::NotHostVisible)
        } else if byte_len > self.size {
            Err(StoreError::TooLarge)
        } else {
            Ok(())
        }
    }

    /// Copies `data` to the start of `mapped`, the host mapping of the
    /// buffer's memory, and leaves the rest of the range as it was. Fails,
    /// and writes nothing, where the memory is not host-visible, the data is
    /// longer than the buffer, or longer than the mapped range.
    pub fn store(&self, mapped: &mut [u8], data: &[u8]) -> (r: Result<(), StoreError>)
        ensures
            r == (if self.memory_flags & MEMORY_HOST_VISIBLE != MEMORY_HOST_VISIBLE {
                Err(StoreError::NotHostVisible)
            } else if data@.len() > self.size {
                Err(StoreError::TooLarge)
            } else if data@.len() > old(mapped)@.len() {
                Err(StoreError::MappingTooSmall)
            } else {
                Ok(())
            }),
            r is Ok ==> final(mapped)@ == data@ + old(mapped)@.subrange(
                data@.len() as int,
                old(mapped)@.len() as int,
            ),
            r is Ok ==> final(mapped)@.subrange(0, data@.len() as int) == data@,
            r is Err ==> final(mapped)@ == old(mapped)@,
            ({
                let n = data@.len() as int;
                let m = old(mapped)@.len() as int;
                self.memory_flags & MEMORY_HOST_VISIBLE == MEMORY_HOST_VISIBLE && n <= self.size
                    && n <= m ==> r is Ok && final(mapped)@.len() == m && final(mapped)@.subrange(
                    0,
                    n,
                ) == data@ && final(mapped)@.subrange(n, m) == old(mapped)@.subrange(n, m)
            }),
    {
        if let Err(e) = self.check_store(data.len() as u64) {
            return Err(e);
        }
        if data.len() > mapped.len() {
            return Err(StoreError::MappingTooSmall);
        }
        let ghost before = mapped@;
        let mut i: usize = 0;
        while i < data.len()
            invariant
                0 <= i <= data@.len() <= before.len(),
                mapped@.len() == before.len(),
                forall|k: int| 0 <= k < i ==> mapped@[k] == data@[k],
                forall|k: int| i <= k < before.len() ==> mapped@[k] == before[k],
            decreases data@.len() - i,
        {
            mapped[i] = data[i];
            i = i + 1;
        }
        assert(mapped@ =~= data@ + before.subrange(data@.len() as int, before.len() as int));
        assert(mapped@.subrange(0, data@.len() as int) =~= data@);
        assert(mapped@.subrange(data@.len() as int, mapped@.len() as int) =~= before.subrange(
            data@.len() as int,
            before.len() as int,
        ));
        Ok(())
    }

    /// Returns the steps that release the buffer's live handles, in order,
    /// and nulls them: a second call returns nothing.
    pub fn release(&mut self) -> (r: Vec<ReleaseStep>)
        ensures
            r@ == buffer_release_steps(*old(self)),
            final(self).is_released(),
            final(self).size == old(self).size,
            final(self).memory_flags == old(self).memory_flags,
    {
        let mut out: Vec<ReleaseStep> = Vec::new();
        self.release_into(&mut out);
        assert(out@ =~= buffer_release_steps(*old(self)));
        out
    }

    /// As `release`, appending the steps to `out`.
    pub fn release_into(&mut self, out: &mut Vec<ReleaseStep>)
        ensures
            final(out)@ == old(out)@ + buffer_release_steps(*old(self)),
            final(self).is_released(),
            final(self).size == old(self).size,
            final(self).memory_flags == old(self).memory_flags,
    {
        let ghost start = out@;
        push_live(out, ReleaseStep::FreeMemory(self.memory));
        push_live(out, ReleaseStep::DestroyBuffer(self.buffer));
        self.buffer = 0;
        self.memory = 0;
        assert(out@ =~= start + buffer_release_steps(*old(self)));
    }
}

/// An image with its memory, and the view and sampler made over it. Like
/// a buffer it has one owner.
#[derive(Debug, PartialEq, Eq)]
pub struct ImageResource {
    pub image: u64,
    pub memory: u64,
    pub view: u64,
    pub sampler: u64,
}

/// Steps that release an image: its view and sampler, then its memory,
/// then the image.
pub open spec fn image_release_steps(i: ImageResource) -> Seq<ReleaseStep> {
    live_step(ReleaseStep::DestroyImageView(i.view)) + live_step(
        ReleaseStep::DestroySampler(i.sampler),
    ) + live_step(ReleaseStep::FreeMemory(i.memory)) + live_step(ReleaseStep::DestroyImage(i.image))
}

impl ImageResource {
    /// An image that owns nothing.
    pub fn null() -> (r: ImageResource)
        ensures
            r.is_released(),
    {
        ImageResource { image: 0, memory: 0, view: 0, sampler: 0 }
    }

    /// Every handle of the image is null.
    pub open spec fn is_released(self) -> bool {
        self.image == 0 && self.memory == 0 && self.view == 0 && self.sampler == 0
    }

    /// Returns the steps that release the image's live handles, in order,
    /// and nulls them: a second call returns nothing.
    pub fn release(&mut self) -> (r: Vec<ReleaseStep>)
        ensures
            r@ == image_release_steps(*old(self)),
            final(self).is_released(),
    {
        let mut out: Vec<ReleaseStep> = Vec::new();
        self.release_into(&mut out);
        assert(out@ =~= image_release_steps(*old(self)));
        out
    }

    /// As `release`, appending the steps to `out`.
    pub fn release_into(&mut self, out: &mut Vec<ReleaseStep>)
        ensures
            final(out)@ == old(out)@ + image_release_steps(*old(self)),
            final(self).is_released(),
    {
        let ghost start = out@;
        push_live(out, ReleaseStep::DestroyImageView(self.view));
        push_live(out, ReleaseStep::DestroySampler(self.sampler));
        push_live(out, ReleaseStep::FreeMemory(self.memory));
        push_live(out, ReleaseStep::DestroyImage(self.image));
        self.view = 0;
        self.sampler = 0;
        self.memory = 0;
        self.image = 0;
        assert(out@ =~= start + image_release_steps(*old(self)));
    }
}

} // verus!
