//! What is known of a created device.

use crate::device::{DeviceCaps, DeviceDesc, DeviceLimits, MeshLimits, Selection};
use crate::error;
use crate::error::{GpuError, Problem, unsupported};
use crate::text::concat;
use vstd::prelude::*;

verus! {

/// A created device, shared by everything that belongs to it. Two devices have
/// different numbers.
#[derive(Debug, Clone)]
pub struct DeviceState {
    pub id: u64,
    pub windowed: bool,
    pub caps: DeviceCaps,
    pub limits: DeviceLimits,
    pub mesh_limits: MeshLimits,
    pub queue_family: usize,
    /// Bytes per descriptor of the sampled-image, storage-image and sampler arrays.
    pub descriptor_sizes: [u64; 3],
    /// Where the three arrays start in their heaps.
    pub descriptor_offsets: [u64; 3],
    /// Bytes of the three heaps.
    pub heap_sizes: [u64; 3],
    pub timestamp_query_count: u32,
    pub timestamp_valid_bits: u32,
}

/// What the driver says of descriptor buffers.
#[derive(Debug, Default, Clone, Copy, PartialEq, Eq)]
pub struct DescriptorProperties {
    pub max_descriptor_buffer_bindings: u32,
    pub max_resource_descriptor_buffer_bindings: u32,
    pub max_sampler_descriptor_buffer_bindings: u32,
    pub descriptor_buffer_offset_alignment: u64,
    pub sampled_image_descriptor_size: u64,
    pub storage_image_descriptor_size: u64,
    pub sampler_descriptor_size: u64,
    pub max_sampler_descriptor_buffer_range: u64,
    pub max_resource_descriptor_buffer_range: u64,
}

impl DescriptorProperties {
    /// One resource heap per texture kind and one sampler heap can be bound.
    pub open spec fn enough_bindings(self) -> bool {
        &&& self.max_descriptor_buffer_bindings >= 3
        &&& self.max_resource_descriptor_buffer_bindings >= 2
        &&& self.max_sampler_descriptor_buffer_bindings >= 1
    }

    /// The largest heap of a set that the driver accepts.
    pub open spec fn spec_max_range(self, set: int) -> u64 {
        if set == 2 {
            self.max_sampler_descriptor_buffer_range
        } else {
            self.max_resource_descriptor_buffer_range
        }
    }
}

/// The larger of two numbers.
pub open spec fn larger(a: u64, b: u64) -> u64 {
    if a < b {
        b
    } else {
        a
    }
}

/// A device that keeps what was selected and adds what the driver said of the
/// created device.
pub open spec fn state_of(
    state: DeviceState,
    id: u64,
    desc: DeviceDesc,
    selection: Selection,
    properties: DescriptorProperties,
    mesh_limits: MeshLimits,
    max_timeline_value_difference: u64,
) -> bool {
    &&& state.id == id
    &&& state.windowed == desc.windowed
    &&& state.limits == selection.limits
    &&& state.mesh_limits == mesh_limits
    &&& state.queue_family == selection.queue_family
    &&& state.descriptor_sizes@ == seq![
        properties.sampled_image_descriptor_size,
        properties.storage_image_descriptor_size,
        properties.sampler_descriptor_size,
    ]
    &&& state.descriptor_offsets@ == seq![0u64, 0u64, 0u64]
    &&& state.heap_sizes@ == seq![0u64, 0u64, 0u64]
    &&& state.timestamp_query_count == desc.timestamp_query_count
    &&& state.timestamp_valid_bits == selection.timestamp_valid_bits
    &&& state.caps == (DeviceCaps {
        max_timeline_value_difference,
        descriptor_buffer_alignment: properties.descriptor_buffer_offset_alignment,
        texture_descriptor_size: larger(
            properties.sampled_image_descriptor_size,
            properties.storage_image_descriptor_size,
        ),
        sampler_descriptor_size: properties.sampler_descriptor_size,
        ..selection.caps
    })
}

impl DeviceState {
    /// Takes in what the driver says of a created device. Three descriptor heaps
    /// must be bindable at once.
    pub fn new(
        id: u64,
        desc: &DeviceDesc,
        selection: Selection,
        properties: &DescriptorProperties,
        mesh_limits: MeshLimits,
        max_timeline_value_difference: u64,
    ) -> (r: Result<DeviceState, GpuError>)
        ensures
            match r {
                Ok(state) => properties.enough_bindings() && state_of(
                    state,
                    id,
                    *desc,
                    selection,
                    *properties,
                    mesh_limits,
                    max_timeline_value_difference,
                ),
                Err(error) => !properties.enough_bindings() && error@ == Problem::Unsupported(
                    selection.caps.device_name@ + ": three descriptor buffer bindings required"@,
                ),
            },
    {
        if properties.max_descriptor_buffer_bindings < 3
            || properties.max_resource_descriptor_buffer_bindings < 2
            || properties.max_sampler_descriptor_buffer_bindings < 1 {
            return Err(
                GpuError::Unsupported(
                    concat(
                        selection.caps.device_name.as_str(),
                        ": three descriptor buffer bindings required",
                    ),
                ),
            );
        }
        let sampled: u64 = properties.sampled_image_descriptor_size;
        let storage: u64 = properties.storage_image_descriptor_size;
        let mut caps = selection.caps;
        caps.max_timeline_value_difference = max_timeline_value_difference;
        caps.descriptor_buffer_alignment = properties.descriptor_buffer_offset_alignment;
        caps.texture_descriptor_size = if sampled < storage {
            storage
        } else {
            sampled
        };
        caps.sampler_descriptor_size = properties.sampler_descriptor_size;
        let state = DeviceState {
            id,
            windowed: desc.windowed,
            caps,
            limits: selection.limits,
            mesh_limits,
            queue_family: selection.queue_family,
            descriptor_sizes: [sampled, storage, properties.sampler_descriptor_size],
            descriptor_offsets: [0, 0, 0],
            heap_sizes: [0, 0, 0],
            timestamp_query_count: desc.timestamp_query_count,
            timestamp_valid_bits: selection.timestamp_valid_bits,
        };
        assert(state.descriptor_sizes@ =~= seq![
            sampled,
            storage,
            properties.sampler_descriptor_size,
        ]);
        assert(state.descriptor_offsets@ =~= seq![0u64, 0u64, 0u64]);
        assert(state.heap_sizes@ =~= seq![0u64, 0u64, 0u64]);
        Ok(state)
    }

    /// Takes in where the driver puts the array of one descriptor set, and how
    /// large its heap is.
    pub fn set_heap_layout(
        &mut self,
        properties: &DescriptorProperties,
        set: usize,
        size: u64,
        offset: u64,
    ) -> (r: Result<(), GpuError>)
        requires
            set < 3,
        ensures
            error::outcome(r) == (if size > properties.spec_max_range(set as int) {
                error::lacking("descriptor heap exceeds descriptor-buffer range"@)
            } else {
                Ok::<(), Problem>(())
            }),
            final(self).heap_sizes@ == old(self).heap_sizes@.update(set as int, size),
            final(self).descriptor_offsets@ == old(self).descriptor_offsets@.update(
                set as int,
                offset,
            ),
            *final(self) == (DeviceState {
                heap_sizes: final(self).heap_sizes,
                descriptor_offsets: final(self).descriptor_offsets,
                ..*old(self)
            }),
    {
        self.heap_sizes[set] = size;
        self.descriptor_offsets[set] = offset;
        let maximum: u64 = if set == 2 {
            properties.max_sampler_descriptor_buffer_range
        } else {
            properties.max_resource_descriptor_buffer_range
        };
        if size > maximum {
            return Err(unsupported("descriptor heap exceeds descriptor-buffer range"));
        }
        Ok(())
    }
}

/// Whether two parts belong to the same device.
pub fn same_device(first: &DeviceState, second: &DeviceState) -> (r: bool)
    ensures
        r == (first.id == second.id),
{
    first.id == second.id
}

} // verus!
