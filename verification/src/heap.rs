//! Buffer allocations, their ranges and host access to them.

use crate::error;
use crate::error::{GpuError, Problem};
use crate::state::DeviceState;
use crate::types::{MemoryType, TextureDescriptorType};
use std::rc::Rc;
use vstd::prelude::*;

verus! {

/// How the host reaches a buffer.
#[derive(Debug, Clone, Copy, PartialEq, Eq, Structural)]
pub enum HostAccess {
    /// Not at all: the memory prefers the device.
    Unmapped,
    /// Mapped, written in order.
    SequentialWrite,
    /// Mapped, read and written in any order.
    Random,
}

/// A buffer to allocate.
#[derive(Debug, Clone, Copy, PartialEq, Eq, Structural)]
pub struct BufferPlan {
    pub size: u64,
    /// Vulkan buffer usage bits.
    pub usage: u32,
    pub host: HostAccess,
    pub alignment: u64,
    pub descriptor_set: Option<usize>,
}

// Vulkan buffer usage bits.
pub const USAGE_ADDRESS_AND_TRANSFER: u32 = 0x0002_0003;

pub const USAGE_STORAGE_INDEX_INDIRECT: u32 = 0x0000_0160;

pub const USAGE_SAMPLER_DESCRIPTORS: u32 = 0x0020_0000;

pub const USAGE_RESOURCE_DESCRIPTORS: u32 = 0x0040_0000;

/// The Vulkan usage of a buffer. Every buffer supports addresses and transfers;
/// descriptor heaps hold descriptors, and all others storage, indices and indirect
/// arguments.
pub open spec fn buffer_usage(set: Option<usize>) -> u32 {
    USAGE_ADDRESS_AND_TRANSFER | (match set {
        Some(index) => if index == 2 {
            USAGE_SAMPLER_DESCRIPTORS
        } else {
            USAGE_RESOURCE_DESCRIPTORS
        },
        None => USAGE_STORAGE_INDEX_INDIRECT,
    })
}

/// How the host reaches memory of a type.
pub open spec fn host_access(memory: MemoryType) -> HostAccess {
    match memory {
        MemoryType::GpuOnly => HostAccess::Unmapped,
        MemoryType::Readback => HostAccess::Random,
        _ => HostAccess::SequentialWrite,
    }
}

/// The buffer to allocate for a request.
pub open spec fn spec_buffer_plan(
    state: DeviceState,
    size: u64,
    memory: MemoryType,
    set: Option<usize>,
) -> Result<BufferPlan, Problem> {
    if size == 0 || size > isize::MAX {
        error::refused("buffer size must fit a nonempty Rust slice")
    } else {
        Ok(
            BufferPlan {
                size,
                usage: buffer_usage(set),
                host: host_access(memory),
                alignment: if set is Some && state.caps.descriptor_buffer_alignment > 16 {
                    state.caps.descriptor_buffer_alignment
                } else {
                    16
                },
                descriptor_set: set,
            },
        )
    }
}

fn allocate_buffer(
    state: &DeviceState,
    size: u64,
    memory: MemoryType,
    set: Option<usize>,
) -> (r: Result<BufferPlan, GpuError>)
    ensures
        error::outcome(r) == spec_buffer_plan(*state, size, memory, set),
{
    if size == 0 || size > isize::MAX as u64 {
        return Err(GpuError::InvalidArgument("buffer size must fit a nonempty Rust slice"));
    }
    let kind: u32 = match set {
        Some(index) => if index == 2 {
            USAGE_SAMPLER_DESCRIPTORS
        } else {
            USAGE_RESOURCE_DESCRIPTORS
        },
        None => USAGE_STORAGE_INDEX_INDIRECT,
    };
    let host = match memory {
        MemoryType::GpuOnly => HostAccess::Unmapped,
        MemoryType::Readback => HostAccess::Random,
        _ => HostAccess::SequentialWrite,
    };
    let alignment: u64 = if set.is_some() && state.caps.descriptor_buffer_alignment > 16 {
        state.caps.descriptor_buffer_alignment
    } else {
        16
    };
    Ok(
        BufferPlan {
            size,
            usage: USAGE_ADDRESS_AND_TRANSFER | kind,
            host,
            alignment,
            descriptor_set: set,
        },
    )
}

/// Plans a buffer. Descriptor heaps use their dedicated creation functions.
pub fn create_gpu_heap(state: &DeviceState, size: u64, memory: MemoryType) -> (r: Result<
    BufferPlan,
    GpuError,
>)
    ensures
        error::outcome(r) == (if memory is TextureDescriptorHeap || memory is SamplerDescriptorHeap {
            error::refused("use create_texture_descriptor_heap or create_sampler_descriptor_heap")
        } else {
            spec_buffer_plan(*state, size, memory, None)
        }),
{
    match memory {
        MemoryType::TextureDescriptorHeap | MemoryType::SamplerDescriptorHeap => Err(
            GpuError::InvalidArgument(
                "use create_texture_descriptor_heap or create_sampler_descriptor_heap",
            ),
        ),
        _ => allocate_buffer(state, size, memory, None),
    }
}

/// The descriptor set of a kind of texture descriptors.
pub open spec fn texture_set(kind: TextureDescriptorType) -> usize {
    match kind {
        TextureDescriptorType::Sampled => 0,
        TextureDescriptorType::Storage => 1,
    }
}

/// Plans the heap of set 0, sampled images, or set 1, storage images.
pub fn create_texture_descriptor_heap(state: &DeviceState, kind: TextureDescriptorType) -> (r:
    Result<BufferPlan, GpuError>)
    ensures
        error::outcome(r) == spec_buffer_plan(
            *state,
            state.heap_sizes@[texture_set(kind) as int],
            MemoryType::TextureDescriptorHeap,
            Some(texture_set(kind)),
        ),
{
    let set: usize = match kind {
        TextureDescriptorType::Sampled => 0,
        TextureDescriptorType::Storage => 1,
    };
    allocate_buffer(state, state.heap_sizes[set], MemoryType::TextureDescriptorHeap, Some(set))
}

/// Plans the heap of set 2, the sampler array.
pub fn create_sampler_descriptor_heap(state: &DeviceState) -> (r: Result<BufferPlan, GpuError>)
    ensures
        error::outcome(r) == spec_buffer_plan(
            *state,
            state.heap_sizes@[2],
            MemoryType::SamplerDescriptorHeap,
            Some(2),
        ),
{
    allocate_buffer(state, state.heap_sizes[2], MemoryType::SamplerDescriptorHeap, Some(2))
}

/// A buffer allocation. Suballocate with `range`; all buffers support addresses,
/// transfers, indices, indirect arguments and shader storage.
pub struct GpuHeap {
    state: Rc<DeviceState>,
    buffer: u64,
    address: u64,
    size: u64,
    mapped: bool,
    descriptor_set: Option<usize>,
}

/// A heap as a value.
pub struct HeapModel {
    pub state: DeviceState,
    /// The driver's handle of the buffer.
    pub buffer: u64,
    pub address: u64,
    pub size: u64,
    pub mapped: bool,
    pub descriptor_set: Option<usize>,
}

impl HeapModel {
    /// The bytes `offset..offset + size` exist and are not none.
    pub open spec fn has_range(self, offset: int, size: int) -> bool {
        size > 0 && 0 <= offset && offset + size <= self.size
    }
}

impl View for GpuHeap {
    type V = HeapModel;

    closed spec fn view(&self) -> HeapModel {
        HeapModel {
            state: *self.state,
            buffer: self.buffer,
            address: self.address,
            size: self.size,
            mapped: self.mapped,
            descriptor_set: self.descriptor_set,
        }
    }
}

impl GpuHeap {
    #[verifier::type_invariant]
    spec fn inv(self) -> bool {
        self.address + self.size <= u64::MAX
    }

    /// The heap that came of a plan: the driver's handle of the buffer, its device
    /// address, and whether it is mapped.
    pub fn allocated(
        state: Rc<DeviceState>,
        plan: &BufferPlan,
        buffer: u64,
        address: u64,
        mapped: bool,
    ) -> (r: GpuHeap)
        requires
            address + plan.size <= u64::MAX,
        ensures
            r@ == (HeapModel {
                state: *state,
                buffer,
                address,
                size: plan.size,
                mapped,
                descriptor_set: plan.descriptor_set,
            }),
    {
        GpuHeap {
            state,
            buffer,
            address,
            size: plan.size,
            mapped,
            descriptor_set: plan.descriptor_set,
        }
    }

    /// The bytes of the heap.
    pub fn size(&self) -> (r: u64)
        ensures
            r == self@.size,
    {
        self.size
    }

    /// Where the heap starts in the address space of the device.
    pub fn device_address(&self) -> (r: u64)
        ensures
            r == self@.address,
            r + self@.size <= u64::MAX,
    {
        proof {
            use_type_invariant(self);
        }
        self.address
    }

    /// The device of the heap.
    pub fn state(&self) -> (r: &DeviceState)
        ensures
            *r == self@.state,
    {
        &self.state
    }

    /// The driver's handle of the buffer.
    pub fn buffer(&self) -> (r: u64)
        ensures
            r == self@.buffer,
    {
        self.buffer
    }

    /// Whether the host can reach the heap.
    pub fn is_mapped(&self) -> (r: bool)
        ensures
            r == self@.mapped,
    {
        self.mapped
    }

    /// The descriptor set that the heap is for, if it is for one.
    pub fn descriptor_set(&self) -> (r: Option<usize>)
        ensures
            r == self@.descriptor_set,
    {
        self.descriptor_set
    }

    /// Borrows a part of the heap.
    pub fn range(&self, offset: u64, size: u64) -> (r: Result<GpuRange<'_>, GpuError>)
        ensures
            match r {
                Ok(range) => self@.has_range(offset as int, size as int) && range@ == (RangeModel {
                    heap: self@,
                    offset,
                    size,
                }),
                Err(error) => !self@.has_range(offset as int, size as int) && error@
                    == Problem::InvalidArgument("buffer range is empty or out of bounds"),
            },
    {
        if size == 0 || offset > self.size || size > self.size - offset {
            return Err(GpuError::InvalidArgument("buffer range is empty or out of bounds"));
        }
        Ok(GpuRange { heap: self, offset, size })
    }
}

/// Borrowed buffer subrange; a GPU address is never a Rust slice.
#[derive(Clone, Copy)]
pub struct GpuRange<'a> {
    heap: &'a GpuHeap,
    offset: u64,
    size: u64,
}

/// A range as a value.
pub struct RangeModel {
    pub heap: HeapModel,
    pub offset: u64,
    pub size: u64,
}

impl RangeModel {
    /// Two ranges share a byte.
    pub open spec fn overlaps(self, other: RangeModel) -> bool {
        self.heap.buffer == other.heap.buffer && self.offset < other.offset + other.size
            && other.offset < self.offset + self.size
    }
}

impl<'a> View for GpuRange<'a> {
    type V = RangeModel;

    closed spec fn view(&self) -> RangeModel {
        RangeModel { heap: self.heap@, offset: self.offset, size: self.size }
    }
}

impl<'a> GpuRange<'a> {
    #[verifier::type_invariant]
    spec fn inv(self) -> bool {
        self.heap@.has_range(self.offset as int, self.size as int)
    }

    /// The range is not empty and lies inside its heap.
    pub fn heap(&self) -> (r: &'a GpuHeap)
        ensures
            r@ == self@.heap,
            self@.heap.has_range(self@.offset as int, self@.size as int),
    {
        proof {
            use_type_invariant(self);
        }
        self.heap
    }

    /// Where the range starts in its heap.
    pub fn offset(&self) -> (r: u64)
        ensures
            r == self@.offset,
    {
        self.offset
    }

    /// Where the range starts in the address space of the device.
    pub fn device_address(&self) -> (r: u64)
        ensures
            r == self@.heap.address + self@.offset,
    {
        proof {
            use_type_invariant(self);
            use_type_invariant(self.heap);
        }
        self.heap.device_address() + self.offset
    }

    /// The bytes of the range.
    pub fn size(&self) -> (r: u64)
        ensures
            r == self@.size,
            r > 0,
    {
        proof {
            use_type_invariant(self);
        }
        self.size
    }
}

/// A part of a heap that the host may touch.
#[derive(Debug, Clone, Copy, PartialEq, Eq, Structural)]
pub struct MappedRange {
    /// Where the part starts for the device.
    pub gpu: u64,
    /// Where it starts in the mapping.
    pub offset: u64,
    pub size: u64,
}

/// The part of a heap that the host asks for.
pub open spec fn spec_mapped_memory(heap: HeapModel, offset: u64, size: u64) -> Result<
    MappedRange,
    Problem,
> {
    if !heap.has_range(offset as int, size as int) {
        error::refused("buffer range is empty or out of bounds")
    } else if !heap.mapped {
        error::refused("heap is not CPU visible")
    } else {
        Ok(MappedRange { gpu: (heap.address + offset) as u64, offset, size })
    }
}

/// Checks host access to a part of a heap. Flush after writes, and invalidate
/// before reads on noncoherent memory.
pub fn mapped_memory(heap: &GpuHeap, offset: u64, size: usize) -> (r: Result<
    MappedRange,
    GpuError,
>)
    ensures
        error::outcome(r) == spec_mapped_memory(heap@, offset, size as u64),
{
    let range = heap.range(offset, size as u64)?;
    if !heap.is_mapped() {
        return Err(GpuError::InvalidArgument("heap is not CPU visible"));
    }
    Ok(MappedRange { gpu: range.device_address(), offset, size: size as u64 })
}

/// A mapped part of a heap, borrowed by the host.
pub struct GpuCpuRange<'a> {
    /// Where the part starts for the device.
    pub gpu: u64,
    /// The bytes as the host sees them.
    pub cpu: &'a mut [u8],
}

impl<'a> GpuCpuRange<'a> {
    /// Overwrites the whole part.
    pub fn fill_with(self, bytes: &[u8])
        requires
            self.cpu@.len() == bytes@.len(),
        ensures
            final(self.cpu)@ == bytes@,
    {
        let cpu = self.cpu;
        let mut index: usize = 0;
        while index < bytes.len()
            invariant
                index <= bytes@.len(),
                cpu@.len() == bytes@.len(),
                forall|i: int| 0 <= i < index ==> cpu@[i] == bytes@[i],
            decreases bytes@.len() - index,
        {
            cpu[index] = bytes[index];
            index = index + 1;
        }
        assert(cpu@ =~= bytes@);
    }
}

/// A part of a heap whose host and device contents are made to agree.
#[derive(Debug, Clone, Copy, PartialEq, Eq, Structural)]
pub struct HeapSpan {
    pub offset: u64,
    pub size: u64,
}

/// The part that a flush or an invalidation covers.
pub open spec fn spec_mapped_span(range: RangeModel) -> Result<HeapSpan, Problem> {
    if range.heap.mapped {
        Ok(HeapSpan { offset: range.offset, size: range.size })
    } else {
        error::refused("heap is not mapped")
    }
}

/// Checks that host writes to a range can be made visible to the device.
pub fn flush_memory(range: GpuRange<'_>) -> (r: Result<HeapSpan, GpuError>)
    ensures
        error::outcome(r) == spec_mapped_span(range@),
{
    if !range.heap().is_mapped() {
        return Err(GpuError::InvalidArgument("heap is not mapped"));
    }
    Ok(HeapSpan { offset: range.offset(), size: range.size() })
}

/// Checks that device writes to a range can be made visible to the host.
pub fn invalidate_memory(range: GpuRange<'_>) -> (r: Result<HeapSpan, GpuError>)
    ensures
        error::outcome(r) == spec_mapped_span(range@),
{
    if !range.heap().is_mapped() {
        return Err(GpuError::InvalidArgument("heap is not mapped"));
    }
    Ok(HeapSpan { offset: range.offset(), size: range.size() })
}

/// Checks an upload, and says where its bytes go. The same part is flushed.
pub fn write_memory(heap: &GpuHeap, offset: u64, bytes: &[u8]) -> (r: Result<MappedRange, GpuError>)
    ensures
        error::outcome(r) == spec_mapped_memory(heap@, offset, bytes@.len() as u64),
{
    let target = mapped_memory(heap, offset, bytes.len())?;
    flush_memory(heap.range(offset, bytes.len() as u64)?)?;
    Ok(target)
}

/// Where a descriptor lies in its heap: after the start of the array and the
/// descriptors before it.
pub open spec fn descriptor_span(heap: HeapModel, set: int, index: u32) -> Result<
    HeapSpan,
    Problem,
> {
    let size = heap.state.descriptor_sizes@[set];
    let offset = heap.state.descriptor_offsets@[set] + index * size;
    if !heap.has_range(offset, size as int) {
        error::refused("buffer range is empty or out of bounds")
    } else if !heap.mapped {
        error::refused("heap is not mapped")
    } else {
        Ok(HeapSpan { offset: offset as u64, size })
    }
}

/// Finds the slot of a descriptor in its heap.
pub fn descriptor_slot(heap: &GpuHeap, set: usize, index: u32) -> (r: Result<HeapSpan, GpuError>)
    requires
        set < 3,
    ensures
        error::outcome(r) == descriptor_span(heap@, set as int, index),
{
    let size: u64 = heap.state().descriptor_sizes[set];
    let start: u64 = heap.state().descriptor_offsets[set];
    let skipped: Option<u64> = (index as u64).checked_mul(size);
    let offset: Option<u64> = match skipped {
        Some(skipped) => start.checked_add(skipped),
        None => None,
    };
    match offset {
        Some(offset) => {
            let range = heap.range(offset, size)?;
            flush_memory(range)
        },
        None => Err(GpuError::InvalidArgument("buffer range is empty or out of bounds")),
    }
}

// ---------------------------------------------------------------------------
// Laws
// ---------------------------------------------------------------------------

/// Different slots of one array share no byte, and each lies inside the heap.
pub proof fn descriptor_slots_are_disjoint(
    heap: HeapModel,
    set: int,
    first: u32,
    second: u32,
    a: HeapSpan,
    b: HeapSpan,
)
    requires
        first < second,
        descriptor_span(heap, set, first) == Ok::<_, Problem>(a),
        descriptor_span(heap, set, second) == Ok::<_, Problem>(b),
    ensures
        a.offset + a.size <= b.offset,
        b.offset + b.size <= heap.size,
{
    let size = heap.state.descriptor_sizes@[set];
    assert(first * size + size <= second * size) by (nonlinear_arith)
        requires
            first + 1 <= second,
    ;
}

/// Ranges cut from one heap overlap exactly if they have a byte in common.
pub proof fn overlap_is_a_common_byte(a: RangeModel, b: RangeModel)
    requires
        a.heap.has_range(a.offset as int, a.size as int),
        b.heap.has_range(b.offset as int, b.size as int),
        a.heap.buffer == b.heap.buffer,
    ensures
        a.overlaps(b) <==> exists|byte: int|
            #![trigger spans(a, byte)]
            spans(a, byte) && spans(b, byte),
{
    if a.overlaps(b) {
        let byte = if a.offset < b.offset {
            b.offset as int
        } else {
            a.offset as int
        };
        assert(spans(a, byte) && spans(b, byte));
    }
}

/// The byte lies in the range.
pub open spec fn spans(range: RangeModel, byte: int) -> bool {
    range.offset <= byte < range.offset + range.size
}

} // verus!
