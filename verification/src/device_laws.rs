//! Which devices are chosen, and what they are created with.

use crate::device;
use crate::device::{
    Candidate, DeviceCaps, DeviceDesc, DeviceLimits, DeviceType, EnabledFeatures, MeshLimits,
    QueueFamily, Selection,
};
use crate::error;
use crate::error::{GpuError, Problem};
use crate::frame_loop;
use crate::frame_loop::{AcquireOutcome, LoopOptions, LoopStep, PresentOutcome};
use crate::heap;
use crate::heap::{BufferPlan, GpuHeap, GpuRange, HeapSpan, MappedRange};
use crate::state;
use crate::state::{DescriptorProperties, DeviceState};
use crate::text;
use crate::types::{MemoryType, TextureDescriptorType};
use crate::vulkan;
use ash::vk;
use vstd::prelude::*;

verus! {

// ---------------------------------------------------------------------------
// Selection
// ---------------------------------------------------------------------------

/// A queue family can be used: for graphics and compute, and for the window if there is one.
pub open spec fn family_usable(family: QueueFamily, windowed: bool) -> bool {
    &&& family.flags & 3 == 3
    &&& family.queue_count > 0
    &&& windowed ==> family.presents
}

/// The device has the version and every feature that the library uses.
pub open spec fn features_present(candidate: Candidate) -> bool {
    let base = candidate.base;
    let features12 = candidate.features12;
    let features13 = candidate.features13;
    &&& candidate.api_version >= 0x0040_4000
    &&& base.shader_int64
    &&& base.independent_blend
    &&& base.image_cube_array
    &&& base.fragment_stores_and_atomics
    &&& base.vertex_pipeline_stores_and_atomics
    &&& base.shader_storage_image_extended_formats
    &&& features12.buffer_device_address
    &&& features12.timeline_semaphore
    &&& features12.runtime_descriptor_array
    &&& features12.descriptor_binding_partially_bound
    &&& features12.shader_sampled_image_array_non_uniform_indexing
    &&& features12.shader_storage_image_array_non_uniform_indexing
    &&& features13.dynamic_rendering
    &&& features13.synchronization2
    &&& features13.maintenance4
    &&& candidate.descriptor_buffer
}

/// The device takes three arrays of so many descriptors.
pub open spec fn arrays_fit(limits: DeviceLimits, count: u32) -> bool {
    &&& count <= limits.max_per_stage_descriptor_sampled_images
    &&& count <= limits.max_per_stage_descriptor_storage_images
    &&& count <= limits.max_per_stage_descriptor_samplers
    &&& count <= limits.max_descriptor_set_sampled_images
    &&& count <= limits.max_descriptor_set_storage_images
    &&& count <= limits.max_descriptor_set_samplers
    &&& 3 * count <= limits.max_per_stage_resources
}

/// The device can be used for what it is wanted for.
pub open spec fn device_usable(desc: DeviceDesc, candidate: Candidate) -> bool {
    &&& features_present(candidate)
    &&& desc.windowed ==> text::texts(candidate.extensions@).contains("VK_KHR_swapchain"@)
    &&& exists|i: int|
        0 <= i < candidate.families@.len() && family_usable(
            #[trigger] candidate.families@[i],
            desc.windowed,
        )
    &&& arrays_fit(candidate.limits, desc.descriptor_count)
}

proof fn first_family(families: Seq<QueueFamily>, windowed: bool, from: int)
    requires
        0 <= from <= families.len(),
    ensures
        match device::family_from(families, windowed, from) {
            Some(index) => {
                &&& from <= index < families.len()
                &&& family_usable(families[index], windowed)
                &&& forall|i: int|
                    from <= i < index ==> !family_usable(#[trigger] families[i], windowed)
            },
            None => forall|i: int|
                from <= i < families.len() ==> !family_usable(#[trigger] families[i], windowed),
        },
    decreases families.len() - from,
{
    if from < families.len() {
        first_family(families, windowed, from + 1);
    }
}

proof fn base_is_required(candidate: Candidate)
    ensures
        ({
            let required = device::requirements_of(candidate);
            let base = candidate.base;
            &&& required.len() == 17
            &&& required[0].0 == (candidate.api_version >= 0x0040_4000)
            &&& required[1].0 == base.shader_int64
            &&& required[2].0 == base.independent_blend
            &&& required[3].0 == base.image_cube_array
            &&& required[4].0 == base.fragment_stores_and_atomics
            &&& required[5].0 == base.vertex_pipeline_stores_and_atomics
            &&& required[6].0 == base.shader_storage_image_extended_formats
        }),
{
}

proof fn newer_is_required(candidate: Candidate)
    ensures
        ({
            let required = device::requirements_of(candidate);
            let features12 = candidate.features12;
            let features13 = candidate.features13;
            &&& required[7].0 == features12.buffer_device_address
            &&& required[8].0 == features12.timeline_semaphore
            &&& required[9].0 == features13.dynamic_rendering
            &&& required[10].0 == features13.synchronization2
            &&& required[11].0 == features13.maintenance4
            &&& required[12].0 == candidate.descriptor_buffer
            &&& required[13].0 == features12.runtime_descriptor_array
            &&& required[14].0 == features12.descriptor_binding_partially_bound
            &&& required[15].0 == features12.shader_sampled_image_array_non_uniform_indexing
            &&& required[16].0 == features12.shader_storage_image_array_non_uniform_indexing
        }),
{
}

proof fn features_are_required(candidate: Candidate)
    ensures
        device::all_met(device::requirements_of(candidate)) <==> features_present(candidate),
{
    let required = device::requirements_of(candidate);
    base_is_required(candidate);
    newer_is_required(candidate);
    if device::all_met(required) {
        assert(required[0].0 && required[1].0 && required[2].0 && required[3].0);
        assert(required[4].0 && required[5].0 && required[6].0 && required[7].0);
        assert(required[8].0 && required[9].0 && required[10].0 && required[11].0);
        assert(required[12].0 && required[13].0 && required[14].0 && required[15].0);
        assert(required[16].0);
    }
    if features_present(candidate) {
        assert forall|i: int| 0 <= i < required.len() implies (#[trigger] required[i]).0 by {
            assert(i == 0 || i == 1 || i == 2 || i == 3 || i == 4 || i == 5 || i == 6 || i == 7 || i
                == 8 || i == 9 || i == 10 || i == 11 || i == 12 || i == 13 || i == 14 || i == 15
                || i == 16);
        }
    }
}

proof fn demands_are_met(desc: DeviceDesc, candidate: Candidate)
    ensures
        device::all_met(device::demands(desc, candidate)) <==> {
            &&& device::all_met(device::requirements_of(candidate))
            &&& desc.windowed ==> text::texts(candidate.extensions@).contains("VK_KHR_swapchain"@)
            &&& device::family_from(candidate.families@, desc.windowed, 0) is Some
            &&& arrays_fit(candidate.limits, desc.descriptor_count)
        },
{
    let wanted = device::demands(desc, candidate);
    let required = device::requirements_of(candidate);
    base_is_required(candidate);
    assert(wanted.len() == 20);
    assert(forall|i: int| 0 <= i < 17 ==> #[trigger] wanted[i] == required[i]);
    assert(wanted[17].0 == (!desc.windowed || text::texts(candidate.extensions@).contains(
        "VK_KHR_swapchain"@,
    )));
    assert(wanted[18].0 == (device::family_from(
        candidate.families@,
        desc.windowed,
        0,
    ) is Some));
    assert(wanted[19].0 == arrays_fit(candidate.limits, desc.descriptor_count));
    if device::all_met(wanted) {
        assert forall|i: int| 0 <= i < required.len() implies (#[trigger] required[i]).0 by {
            assert(wanted[i].0);
        }
    }
    if device::all_met(required) && wanted[17].0 && wanted[18].0 && wanted[19].0 {
        assert forall|i: int| 0 <= i < wanted.len() implies (#[trigger] wanted[i]).0 by {
            if i < 17 {
                assert(required[i].0);
            }
        }
    }
}

proof fn met_means_nothing_unmet(requirements: Seq<(bool, &'static str)>)
    ensures
        device::all_met(requirements) <==> device::unmet(requirements).len() == 0,
{
    if device::all_met(requirements) && device::unmet(requirements).len() > 0 {
        let index = device::unmet_only(requirements, 0);
        assert(requirements[index].0);
    }
    if device::unmet(requirements).len() == 0 {
        assert forall|i: int| 0 <= i < requirements.len() implies (#[trigger] requirements[i]).0 by {
            device::unmet_contains(requirements, i);
        }
    }
}

/// A device is rejected exactly if it cannot be used: for want of a feature, of presentation,
/// of a queue family, or of room for the descriptors.
pub proof fn unusable_devices_are_rejected(desc: DeviceDesc, candidate: Candidate)
    ensures
        device::rejection(desc, candidate) is None <==> device_usable(desc, candidate),
{
    features_are_required(candidate);
    demands_are_met(desc, candidate);
    met_means_nothing_unmet(device::demands(desc, candidate));
    first_family(candidate.families@, desc.windowed, 0);
}

/// Discrete devices are preferred to integrated ones, and those to all others.
pub open spec fn preference(kind: DeviceType) -> int {
    if kind == DeviceType::Discrete {
        2
    } else if kind == DeviceType::Integrated {
        1
    } else {
        0
    }
}

/// What every chosen device has and lacks, and what is learnt only once it is created.
pub open spec fn capable(caps: DeviceCaps) -> bool {
    &&& caps.buffer_device_address && caps.dynamic_rendering && caps.synchronization2
    &&& caps.timeline_semaphore && caps.descriptor_buffer && caps.bindless_descriptors
    &&& !caps.storage_input_output16
    &&& caps.max_timeline_value_difference == 0 && caps.descriptor_buffer_alignment == 0
    &&& caps.texture_descriptor_size == 0 && caps.sampler_descriptor_size == 0
}

/// Vulkan packs a version: from bit 22 on the major number in seven bits, from bit 12 on the
/// minor number in ten.
pub open spec fn packed(version: int, major: int, minor: int) -> bool {
    major == version / 0x40_0000 % 0x80 && minor == version / 0x1000 % 0x400
}

/// A device that is too old is rejected with its name and its version. One that lacks
/// something is rejected with its name and all that it lacks.
pub proof fn rejections_name_the_device(
    desc: DeviceDesc,
    candidate: Candidate,
    major: nat,
    minor: nat,
)
    requires
        packed(candidate.api_version as int, major as int, minor as int),
    ensures
        ({
            let reason = device::rejection(desc, candidate);
            let missing = device::unmet(device::demands(desc, candidate));
            &&& candidate.api_version < 0x0040_4000 ==> reason == Some(
                candidate.name@ + ": Vulkan 1.4 required (reports "@ + text::decimal_text(major)
                    + "."@ + text::decimal_text(minor) + ")"@,
            )
            &&& candidate.api_version >= 0x0040_4000 && reason is Some ==> reason == Some(
                candidate.name@ + ": "@ + text::joined(text::literals(missing), ", "@),
            )
        }),
{
    let version = candidate.api_version;
    assert((version >> 22) & 0x7f == version / 0x40_0000 % 0x80 && (version >> 12) & 0x3ff
        == version / 0x1000 % 0x400) by (bit_vector);
    let name = candidate.name@;
    let start = ": Vulkan 1.4 required (reports "@;
    assert(name + start + text::decimal_text(major) + "."@ + text::decimal_text(minor) + ")"@
        =~= name + (start + text::decimal_text(major) + "."@ + text::decimal_text(minor) + ")"@));
}

/// The first of the most preferred devices that can be used is chosen, with its first queue
/// family that can be used, its own limits and its own capabilities. There is a choice
/// whenever any device can be used.
pub proof fn the_best_device_is_chosen(
    desc: &DeviceDesc,
    candidates: &Vec<Candidate>,
    r: Result<Selection, GpuError>,
)
    requires
        call_ensures(device::select_device, (desc, candidates), r),
    ensures
        r is Ok <==> exists|i: int|
            0 <= i < candidates@.len() && device_usable(*desc, #[trigger] candidates@[i]),
        r matches Ok(selection) ==> {
            let chosen = candidates@[selection.position as int];
            let families = chosen.families@;
            let family = selection.queue_family as int;
            &&& selection.position < candidates@.len()
            &&& device_usable(*desc, chosen)
            &&& forall|i: int|
                0 <= i < candidates@.len() && device_usable(*desc, #[trigger] candidates@[i])
                    ==> preference(candidates@[i].device_type) <= preference(chosen.device_type)
                    && (preference(candidates@[i].device_type) == preference(chosen.device_type)
                    ==> selection.position <= i)
            &&& 0 <= family < families.len()
            &&& family_usable(families[family], desc.windowed)
            &&& forall|i: int|
                0 <= i < family ==> !family_usable(#[trigger] families[i], desc.windowed)
            &&& selection.timestamp_valid_bits == families[family].timestamp_valid_bits
            &&& selection.limits == chosen.limits
            &&& selection.caps.device_name@ == chosen.name@
            &&& selection.caps.api_version == chosen.api_version
            &&& selection.caps.mesh_shader == chosen.mesh_shader
            &&& selection.caps.sampler_anisotropy == chosen.base.sampler_anisotropy
            &&& selection.caps.max_sampler_anisotropy == chosen.limits.max_sampler_anisotropy
            &&& selection.caps.max_color_attachments == chosen.limits.max_color_attachments
            &&& selection.caps.max_push_data_size == chosen.limits.max_push_constants_size
            &&& selection.caps.texture_heap_alignment == chosen.limits.buffer_image_granularity
            &&& selection.caps.timestamp_period_ns == chosen.limits.timestamp_period
            &&& selection.caps.sub_texel_precision_bits == chosen.limits.sub_texel_precision_bits
            &&& selection.caps.texture_compression_bc == chosen.base.texture_compression_bc
            &&& selection.caps.texture_compression_astc == chosen.base.texture_compression_astc_ldr
            &&& selection.caps.descriptor_count == desc.descriptor_count
            &&& capable(selection.caps)
        },
{
    let all = candidates@;
    device::chosen_is_usable(*desc, all, all.len());
    assert forall|i: int| 0 <= i < all.len() implies (device::rejection(
        *desc,
        #[trigger] all[i],
    ) is None <==> device_usable(*desc, all[i])) by {
        unusable_devices_are_rejected(*desc, all[i]);
    }
    assert forall|i: int| 0 <= i < all.len() && device_usable(*desc, #[trigger] all[i]) implies {
        &&& r is Ok
        &&& preference(all[i].device_type) <= preference(
            all[r->Ok_0.position as int].device_type,
        )
        &&& preference(all[i].device_type) == preference(
            all[r->Ok_0.position as int].device_type,
        ) ==> r->Ok_0.position <= i
    } by {
        device::selection_prefers_the_best(*desc, all, all.len(), i);
    }
    if let Ok(selection) = r {
        let chosen = all[selection.position as int];
        first_family(chosen.families@, desc.windowed, 0);
        assert(device_usable(*desc, chosen));
    }
}

/// A description is refused only without descriptors or swapchain images, a loader only if it
/// is older than Vulkan 1.4, and validation only if it is wanted and not installed.
pub proof fn descriptions_are_judged(
    desc: &DeviceDesc,
    version: Option<u32>,
    layers: &Vec<String>,
    described: Result<(), GpuError>,
    loaded: Result<(), GpuError>,
    validated: Result<(), GpuError>,
)
    requires
        call_ensures(device::check_device_desc, (desc,), described),
        call_ensures(device::check_loader_version, (version,), loaded),
        call_ensures(device::check_validation_layer, (desc, layers), validated),
    ensures
        described is Ok <==> desc.descriptor_count > 0 && desc.desired_swapchain_image_count > 0,
        loaded is Ok <==> version is Some && version->Some_0 >= 0x0040_4000,
        validated is Ok <==> !desc.validation || text::texts(layers@).contains(
            "VK_LAYER_KHRONOS_validation"@,
        ),
{
}

/// A device is created with every feature that the library uses, and with those of the others
/// that it has.
pub proof fn all_features_are_enabled(caps: &DeviceCaps, r: EnabledFeatures)
    requires
        call_ensures(device::enabled_features, (caps,), r),
    ensures
        r.base.shader_int64 && r.base.independent_blend && r.base.image_cube_array,
        r.base.fragment_stores_and_atomics && r.base.vertex_pipeline_stores_and_atomics,
        r.base.shader_storage_image_extended_formats,
        r.features12.buffer_device_address && r.features12.timeline_semaphore,
        r.features12.runtime_descriptor_array && r.features12.descriptor_binding_partially_bound,
        r.features12.shader_sampled_image_array_non_uniform_indexing,
        r.features12.shader_storage_image_array_non_uniform_indexing,
        r.features13.dynamic_rendering && r.features13.synchronization2
            && r.features13.maintenance4,
        r.descriptor_buffer,
        r.mesh_shader == caps.mesh_shader,
        r.base.sampler_anisotropy == caps.sampler_anisotropy,
        r.base.texture_compression_bc == caps.texture_compression_bc,
        r.base.texture_compression_astc_ldr == caps.texture_compression_astc,
{
}

/// Descriptor buffers are always enabled, swapchains for a window, and mesh shaders where the
/// device has them; nothing else is.
pub proof fn needed_extensions_are_enabled(
    windowed: bool,
    mesh_shader: bool,
    r: Vec<&'static str>,
    name: &'static str,
)
    requires
        call_ensures(device::device_extensions, (windowed, mesh_shader), r),
    ensures
        r@.contains(name) <==> name == "VK_EXT_descriptor_buffer" || windowed && name
            == "VK_KHR_swapchain" || mesh_shader && name == "VK_EXT_mesh_shader",
        r@.len() == 1 + (if windowed {
            1int
        } else {
            0
        }) + if mesh_shader {
            1int
        } else {
            0
        },
{
    assert(r@[0] == "VK_EXT_descriptor_buffer");
    if windowed {
        assert(r@[1] == "VK_KHR_swapchain");
    }
    if mesh_shader {
        assert(r@[r@.len() - 1] == "VK_EXT_mesh_shader");
    }
}

// ---------------------------------------------------------------------------
// State
// ---------------------------------------------------------------------------

/// A created device keeps its number, what it was asked for and what was selected, and takes
/// each size from what the driver says of it: sampled images, storage images and samplers, in
/// this order.
pub proof fn devices_keep_what_they_are(
    id: u64,
    desc: &DeviceDesc,
    selection: Selection,
    properties: &DescriptorProperties,
    mesh_limits: MeshLimits,
    difference: u64,
    r: Result<DeviceState, GpuError>,
)
    requires
        call_ensures(
            DeviceState::new,
            (id, desc, selection, properties, mesh_limits, difference),
            r,
        ),
    ensures
        r is Ok <==> properties.max_descriptor_buffer_bindings >= 3
            && properties.max_resource_descriptor_buffer_bindings >= 2
            && properties.max_sampler_descriptor_buffer_bindings >= 1,
        r matches Ok(made) ==> {
            &&& made.id == id
            &&& made.windowed == desc.windowed
            &&& made.limits == selection.limits
            &&& made.mesh_limits == mesh_limits
            &&& made.queue_family == selection.queue_family
            &&& made.timestamp_query_count == desc.timestamp_query_count
            &&& made.timestamp_valid_bits == selection.timestamp_valid_bits
            &&& made.descriptor_sizes@[0] == properties.sampled_image_descriptor_size
            &&& made.descriptor_sizes@[1] == properties.storage_image_descriptor_size
            &&& made.descriptor_sizes@[2] == properties.sampler_descriptor_size
            &&& made.caps.max_timeline_value_difference == difference
            &&& made.caps.descriptor_buffer_alignment
                == properties.descriptor_buffer_offset_alignment
            &&& made.caps.sampler_descriptor_size == properties.sampler_descriptor_size
            &&& made.caps.texture_descriptor_size >= properties.sampled_image_descriptor_size
            &&& made.caps.texture_descriptor_size >= properties.storage_image_descriptor_size
            &&& made.caps.texture_descriptor_size == properties.sampled_image_descriptor_size
                || made.caps.texture_descriptor_size == properties.storage_image_descriptor_size
            &&& made.caps.device_name == selection.caps.device_name
            &&& made.caps.mesh_shader == selection.caps.mesh_shader
            &&& made.caps.descriptor_count == selection.caps.descriptor_count
            &&& made.caps.max_color_attachments == selection.caps.max_color_attachments
            &&& made.caps.sampler_anisotropy == selection.caps.sampler_anisotropy
            &&& made.caps.max_push_data_size == selection.caps.max_push_data_size
        },
{
}

/// Two parts belong together exactly if their devices have the same number.
pub proof fn devices_are_told_by_number(first: &DeviceState, second: &DeviceState, r: bool)
    requires
        call_ensures(state::same_device, (first, second), r),
    ensures
        r <==> first.id == second.id,
{
}

// ---------------------------------------------------------------------------
// Heaps
// ---------------------------------------------------------------------------

/// A buffer of the asked size can be addressed and copied from and to. Plain buffers also
/// hold storage, indices and indirect arguments; descriptor heaps hold the descriptors of
/// their set. The host reaches it as its memory says.
pub open spec fn buffer_as_asked(
    plan: BufferPlan,
    device: DeviceState,
    size: u64,
    memory: MemoryType,
    set: Option<usize>,
) -> bool {
    &&& plan.size == size
    &&& plan.descriptor_set == set
    &&& plan.usage & 0x0002_0003 == 0x0002_0003
    &&& set is None ==> plan.usage == 0x0002_0163
    &&& set == Some(2usize) ==> plan.usage == 0x0022_0003
    &&& set is Some && set != Some(2usize) ==> plan.usage == 0x0042_0003
    &&& plan.host is Unmapped <==> memory is GpuOnly
    &&& plan.host is Random <==> memory is Readback
    &&& plan.alignment >= 16
    &&& set is None ==> plan.alignment == 16
    &&& set is Some ==> plan.alignment >= device.caps.descriptor_buffer_alignment
    &&& plan.alignment == 16 || plan.alignment == device.caps.descriptor_buffer_alignment
}

proof fn buffers_are_planned(
    device: DeviceState,
    size: u64,
    memory: MemoryType,
    set: Option<usize>,
)
    ensures
        heap::spec_buffer_plan(device, size, memory, set) is Ok <==> 0 < size <= isize::MAX,
        heap::spec_buffer_plan(device, size, memory, set) matches Ok(plan) ==> buffer_as_asked(
            plan,
            device,
            size,
            memory,
            set,
        ),
{
    assert(0x0002_0003u32 | 0x0000_0160u32 == 0x0002_0163u32) by (bit_vector);
    assert(0x0002_0003u32 | 0x0020_0000u32 == 0x0022_0003u32) by (bit_vector);
    assert(0x0002_0003u32 | 0x0040_0000u32 == 0x0042_0003u32) by (bit_vector);
    assert(0x0002_0163u32 & 0x0002_0003u32 == 0x0002_0003u32) by (bit_vector);
    assert(0x0022_0003u32 & 0x0002_0003u32 == 0x0002_0003u32) by (bit_vector);
    assert(0x0042_0003u32 & 0x0002_0003u32 == 0x0002_0003u32) by (bit_vector);
}

/// A plain buffer is planned as asked, unless it is empty, too large or of memory for
/// descriptors.
pub proof fn heaps_are_planned_as_asked(
    device: &DeviceState,
    size: u64,
    memory: MemoryType,
    r: Result<BufferPlan, GpuError>,
)
    requires
        call_ensures(heap::create_gpu_heap, (device, size, memory), r),
    ensures
        r is Ok <==> 0 < size <= isize::MAX && !(memory is TextureDescriptorHeap) && !(
        memory is SamplerDescriptorHeap),
        r matches Ok(plan) ==> buffer_as_asked(plan, *device, size, memory, None),
{
    buffers_are_planned(*device, size, memory, None);
}

/// Descriptor heaps are as large as the driver says: sampled images for set 0, storage images
/// for set 1 and samplers for set 2.
pub proof fn descriptor_heaps_have_their_size(
    device: &DeviceState,
    kind: TextureDescriptorType,
    textures: Result<BufferPlan, GpuError>,
    samplers: Result<BufferPlan, GpuError>,
)
    requires
        call_ensures(heap::create_texture_descriptor_heap, (device, kind), textures),
        call_ensures(heap::create_sampler_descriptor_heap, (device,), samplers),
    ensures
        ({
            let set: usize = if kind == TextureDescriptorType::Sampled {
                0
            } else {
                1
            };
            let size = device.heap_sizes@[set as int];
            let sampler_size = device.heap_sizes@[2];
            &&& textures is Ok <==> 0 < size <= isize::MAX
            &&& textures matches Ok(plan) ==> buffer_as_asked(
                plan,
                *device,
                size,
                MemoryType::TextureDescriptorHeap,
                Some(set),
            )
            &&& samplers is Ok <==> 0 < sampler_size <= isize::MAX
            &&& samplers matches Ok(plan) ==> buffer_as_asked(
                plan,
                *device,
                sampler_size,
                MemoryType::SamplerDescriptorHeap,
                Some(2),
            )
        }),
{
    let set: usize = if kind == TextureDescriptorType::Sampled {
        0
    } else {
        1
    };
    buffers_are_planned(
        *device,
        device.heap_sizes@[set as int],
        MemoryType::TextureDescriptorHeap,
        Some(set),
    );
    buffers_are_planned(*device, device.heap_sizes@[2], MemoryType::SamplerDescriptorHeap, Some(2));
}

/// A range is the part of its heap that was asked for, if it is not empty and all of it
/// exists.
pub proof fn ranges_are_parts_of_their_heap(
    heap: &GpuHeap,
    offset: u64,
    size: u64,
    r: Result<GpuRange<'_>, GpuError>,
)
    requires
        call_ensures(GpuHeap::range, (heap, offset, size), r),
    ensures
        r is Ok <==> 0 < size && offset + size <= heap@.size,
        r matches Ok(range) ==> range@.offset == offset && range@.size == size && range@.heap
            == heap@,
{
}

/// The device finds a range behind the start of its heap.
pub proof fn ranges_have_their_address(range: &GpuRange<'_>, r: u64)
    requires
        call_ensures(GpuRange::device_address, (range,), r),
    ensures
        r == range@.heap.address + range@.offset,
{
}

/// The host reaches the part that was asked for, of a mapped heap only. The device finds the
/// same part behind the start of the heap.
pub proof fn mapped_memory_is_where_it_was_asked(
    heap: &GpuHeap,
    offset: u64,
    size: usize,
    bytes: &[u8],
    mapped: Result<MappedRange, GpuError>,
    written: Result<MappedRange, GpuError>,
)
    requires
        call_ensures(heap::mapped_memory, (heap, offset, size), mapped),
        call_ensures(heap::write_memory, (heap, offset, bytes), written),
        bytes@.len() <= usize::MAX,
        heap@.address + heap@.size <= u64::MAX,
    ensures
        mapped is Ok <==> 0 < size && offset + size <= heap@.size && heap@.mapped,
        mapped matches Ok(part) ==> part.offset == offset && part.size == size && part.gpu
            == heap@.address + offset,
        written is Ok <==> 0 < bytes@.len() && offset + bytes@.len() <= heap@.size && heap@.mapped,
        written matches Ok(part) ==> part.offset == offset && part.size == bytes@.len() && part.gpu
            == heap@.address + offset,
{
}

/// Flushes and invalidations cover all of their range, of a mapped heap only.
pub proof fn flushes_cover_their_range(
    range: GpuRange<'_>,
    flushed: Result<HeapSpan, GpuError>,
    invalidated: Result<HeapSpan, GpuError>,
)
    requires
        call_ensures(heap::flush_memory, (range,), flushed),
        call_ensures(heap::invalidate_memory, (range,), invalidated),
    ensures
        flushed is Ok <==> range@.heap.mapped,
        invalidated is Ok <==> range@.heap.mapped,
        flushed matches Ok(span) ==> span.offset == range@.offset && span.size == range@.size,
        invalidated matches Ok(span) ==> span.offset == range@.offset && span.size == range@.size,
{
}

/// A descriptor lies behind the start of its array and the descriptors before it.
pub proof fn descriptors_lie_in_their_slot(
    heap: &GpuHeap,
    set: usize,
    index: u32,
    r: Result<HeapSpan, GpuError>,
)
    requires
        set < 3,
        call_ensures(heap::descriptor_slot, (heap, set, index), r),
    ensures
        ({
            let size = heap@.state.descriptor_sizes@[set as int];
            let start = heap@.state.descriptor_offsets@[set as int] + index * size;
            &&& r is Ok <==> 0 < size && start + size <= heap@.size && heap@.mapped
            &&& r matches Ok(slot) ==> slot.offset == start && slot.size == size
        }),
{
    let size = heap@.state.descriptor_sizes@[set as int];
    assert(index * size >= 0) by (nonlinear_arith)
        requires
            index >= 0,
            size >= 0,
    ;
}

// ---------------------------------------------------------------------------
// Errors and the frame loop
// ---------------------------------------------------------------------------

/// The error of each result of the driver that is told apart, by its Vulkan number. Any
/// other is kept as it is.
pub open spec fn tells_apart(problem: Problem, code: i32, result: vk::Result) -> bool {
    &&& problem is DeviceLost <==> code == -4
    &&& problem is Timeout <==> code == 2 || code == 1
    &&& problem is OutOfDate <==> code == -1_000_001_004
    &&& problem is SurfaceLost <==> code == -1_000_000_000
    &&& problem == Problem::DriverError(result) || problem is DeviceLost || problem is Timeout
        || problem is OutOfDate || problem is SurfaceLost
}

/// The results of the driver are told apart by their numbers.
pub proof fn driver_results_are_told_apart(code: i32, result: vk::Result, r: GpuError)
    requires
        call_ensures(error::error_of_code, (code, result), r),
    ensures
        tells_apart(r@, code, result),
        tells_apart(error::problem_of(result), vulkan::vk_result_code(result), result),
{
}

/// A value of the driver is handed on, and a failure becomes the error of its number.
pub proof fn driver_values_are_handed_on(
    reply: Result<u64, vk::Result>,
    r: Result<u64, GpuError>,
)
    requires
        call_ensures(error::driver_result::<u64>, (reply,), r),
    ensures
        r is Ok <==> reply is Ok,
        reply matches Ok(value) ==> r == Ok::<u64, GpuError>(value),
        reply matches Err(result) ==> tells_apart(
            r->Err_0@,
            vulkan::vk_result_code(result),
            result,
        ),
{
}

/// A failed acquisition is helped by a new swapchain if the old one is out of date. A shown
/// frame wants a new swapchain if it no longer fits. Any other error ends the frame.
pub proof fn outcomes_follow_errors(
    error: &GpuError,
    result: &Result<bool, GpuError>,
    acquired: AcquireOutcome,
    presented: PresentOutcome,
)
    requires
        call_ensures(frame_loop::after_acquire, (error,), acquired),
        call_ensures(frame_loop::after_present, (result,), presented),
    ensures
        acquired is Rebuild <==> *error is OutOfDate,
        presented is Shown <==> *result == Ok::<bool, GpuError>(false),
        presented is Rebuild <==> *result == Ok::<bool, GpuError>(true) || *result is Err && (
        *result)->Err_0 is OutOfDate,
{
}

/// A redraw leads to another until the limit is reached or something fails; a minimized
/// window is no failure. The resize test resizes after three frames and rebuilds after six.
pub proof fn redraws_go_on(
    result: &Result<(), GpuError>,
    rendered: usize,
    options: LoopOptions,
    r: LoopStep,
)
    requires
        call_ensures(frame_loop::after_redraw, (result, rendered, options), r),
    ensures
        ({
            let failed = *result is Err && !((*result)->Err_0 is WindowMinimized);
            let over = options.frame_limit matches Some(limit) && rendered >= limit;
            &&& r.fail <==> failed
            &&& r.exit <==> failed || over
            &&& r.redraw <==> !failed && !over
            &&& r.request_resize <==> !failed && options.resize_test && rendered == 3
            &&& r.rebuild <==> !failed && options.resize_test && rendered == 6
        }),
{
}

/// Frames are recorded in turns: two frames in a row use different command buffers.
pub proof fn command_buffers_take_turns(rendered: usize, slot: usize, next: usize)
    requires
        rendered < usize::MAX,
        call_ensures(frame_loop::command_slot, (rendered,), slot),
        call_ensures(frame_loop::command_slot, ((rendered + 1) as usize,), next),
    ensures
        slot < 2 && next < 2 && slot != next,
        rendered == 0 ==> slot == 0,
{
}

} // verus!
