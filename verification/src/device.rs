//! Device requirements, selection and capabilities.

use crate::error;
use crate::error::{GpuError, Problem, unsupported};
use crate::float_bits::F32Bits;
use crate::format::Format;
use crate::text;
use crate::text::{concat, contains_name, decimal, join, join_literals};
use crate::types::{U32x3, VULKAN_API_VERSION};
use ash::vk;
use vstd::prelude::*;
use vstd::string::StringExecFns;

verus! {

/// What a device is created for. Without a window it is headless.
#[derive(Debug, Clone, Copy, PartialEq, Eq, Structural)]
pub struct DeviceDesc {
    pub windowed: bool,
    pub swapchain_format: Format,
    pub desired_swapchain_image_count: u32,
    pub timestamp_query_count: u32,
    /// Entries in each of the sampled-image, storage-image and sampler arrays.
    pub descriptor_count: u32,
    pub validation: bool,
}

impl Default for DeviceDesc {
    fn default() -> (r: DeviceDesc)
        ensures
            r == (DeviceDesc {
                windowed: false,
                swapchain_format: Format::Undefined,
                desired_swapchain_image_count: 2,
                timestamp_query_count: 256,
                descriptor_count: 1024,
                validation: false,
            }),
    {
        DeviceDesc {
            windowed: false,
            swapchain_format: Format::Undefined,
            desired_swapchain_image_count: 2,
            timestamp_query_count: 256,
            descriptor_count: 1024,
            validation: false,
        }
    }
}

/// Enabled capabilities.
#[derive(Debug, Clone)]
pub struct DeviceCaps {
    pub device_name: String,
    pub api_version: u32,
    pub buffer_device_address: bool,
    pub dynamic_rendering: bool,
    pub synchronization2: bool,
    pub timeline_semaphore: bool,
    /// Maximum distance between a timeline's completed and outstanding values.
    pub max_timeline_value_difference: u64,
    pub descriptor_buffer: bool,
    pub bindless_descriptors: bool,
    pub mesh_shader: bool,
    pub sampler_anisotropy: bool,
    pub max_sampler_anisotropy: F32Bits,
    pub max_color_attachments: u32,
    pub descriptor_count: u32,
    pub descriptor_buffer_alignment: u64,
    pub max_push_data_size: u64,
    /// Buffer/image granularity; individual images can need a larger alignment.
    pub texture_heap_alignment: u64,
    /// The larger of the two texture descriptor sizes.
    pub texture_descriptor_size: u64,
    pub sampler_descriptor_size: u64,
    /// Nanoseconds per timestamp tick.
    pub timestamp_period_ns: F32Bits,
    /// Fractional filtering precision, for conservative sampled-field bounds.
    pub sub_texel_precision_bits: u32,
    pub texture_compression_bc: bool,
    pub texture_compression_astc: bool,
    pub storage_input_output16: bool,
}

/// The limits of a physical device that the library reads.
#[derive(Debug, Default, Clone, Copy, PartialEq, Eq)]
pub struct DeviceLimits {
    pub max_framebuffer_width: u32,
    pub max_framebuffer_height: u32,
    pub max_viewport_width: u32,
    pub max_viewport_height: u32,
    pub viewport_bounds_low: F32Bits,
    pub viewport_bounds_high: F32Bits,
    pub max_compute_work_group_count: U32x3,
    pub max_push_constants_size: u32,
    pub max_color_attachments: u32,
    pub max_sampler_anisotropy: F32Bits,
    pub buffer_image_granularity: u64,
    pub timestamp_period: F32Bits,
    pub sub_texel_precision_bits: u32,
    pub max_per_stage_descriptor_sampled_images: u32,
    pub max_per_stage_descriptor_storage_images: u32,
    pub max_per_stage_descriptor_samplers: u32,
    pub max_descriptor_set_sampled_images: u32,
    pub max_descriptor_set_storage_images: u32,
    pub max_descriptor_set_samplers: u32,
    pub max_per_stage_resources: u32,
}

/// The limits of mesh drawing.
#[derive(Debug, Default, Clone, Copy, PartialEq, Eq)]
pub struct MeshLimits {
    pub max_mesh_work_group_count: U32x3,
    pub max_mesh_work_group_total_count: u32,
}

/// Features of Vulkan 1.0 that the library reads.
#[derive(Debug, Default, Clone, Copy, PartialEq, Eq)]
pub struct BaseFeatures {
    pub shader_int64: bool,
    pub independent_blend: bool,
    pub image_cube_array: bool,
    pub fragment_stores_and_atomics: bool,
    pub vertex_pipeline_stores_and_atomics: bool,
    pub shader_storage_image_extended_formats: bool,
    pub sampler_anisotropy: bool,
    pub texture_compression_bc: bool,
    pub texture_compression_astc_ldr: bool,
}

/// Features of Vulkan 1.2 that the library reads.
#[derive(Debug, Default, Clone, Copy, PartialEq, Eq)]
pub struct Vulkan12Features {
    pub buffer_device_address: bool,
    pub timeline_semaphore: bool,
    pub runtime_descriptor_array: bool,
    pub descriptor_binding_partially_bound: bool,
    pub shader_sampled_image_array_non_uniform_indexing: bool,
    pub shader_storage_image_array_non_uniform_indexing: bool,
}

/// Features of Vulkan 1.3 that the library reads.
#[derive(Debug, Default, Clone, Copy, PartialEq, Eq)]
pub struct Vulkan13Features {
    pub dynamic_rendering: bool,
    pub synchronization2: bool,
    pub maintenance4: bool,
}

/// A queue family of a physical device.
#[derive(Debug, Clone, Copy, PartialEq, Eq, Structural)]
pub struct QueueFamily {
    /// The Vulkan queue bits: one for graphics, two for compute.
    pub flags: u32,
    pub queue_count: u32,
    pub timestamp_valid_bits: u32,
    /// The family can present to the window's surface.
    pub presents: bool,
}

/// The kind of a physical device.
#[derive(Debug, Clone, Copy, PartialEq, Eq, Structural)]
pub enum DeviceType {
    Discrete,
    Integrated,
    Other,
}

/// A physical device as the driver describes it.
#[derive(Debug, Clone)]
pub struct Candidate {
    pub name: String,
    pub api_version: u32,
    pub device_type: DeviceType,
    pub extensions: Vec<String>,
    pub base: BaseFeatures,
    pub features12: Vulkan12Features,
    pub features13: Vulkan13Features,
    pub descriptor_buffer: bool,
    pub mesh_shader: bool,
    pub families: Vec<QueueFamily>,
    pub limits: DeviceLimits,
}

// ---------------------------------------------------------------------------
// Before any device is looked at
// ---------------------------------------------------------------------------

/// Whether a description can be met at all.
pub open spec fn spec_check_desc(desc: DeviceDesc) -> Result<(), Problem> {
    if desc.descriptor_count == 0 || desc.desired_swapchain_image_count == 0 {
        error::refused("descriptor and swapchain counts must be nonzero")
    } else {
        Ok(())
    }
}

/// Checks a description before the loader is touched.
pub fn check_device_desc(desc: &DeviceDesc) -> (r: Result<(), GpuError>)
    ensures
        error::outcome(r) == spec_check_desc(*desc),
{
    if desc.descriptor_count == 0 || desc.desired_swapchain_image_count == 0 {
        return Err(GpuError::InvalidArgument("descriptor and swapchain counts must be nonzero"));
    }
    Ok(())
}

/// Checks the version of the loader; a loader that reports none is of version 1.0.
pub fn check_loader_version(version: Option<u32>) -> (r: Result<(), GpuError>)
    ensures
        error::outcome(r) == (if version is Some && version->Some_0 >= VULKAN_API_VERSION {
            Ok::<(), Problem>(())
        } else {
            error::lacking("Vulkan loader 1.4 is required"@)
        }),
{
    let version: u32 = match version {
        Some(version) => version,
        None => 0x0040_0000,
    };
    if version < VULKAN_API_VERSION {
        return Err(unsupported("Vulkan loader 1.4 is required"));
    }
    Ok(())
}

/// Checks that validation, where it is wanted, can be had.
pub fn check_validation_layer(desc: &DeviceDesc, layers: &Vec<String>) -> (r: Result<(), GpuError>)
    ensures
        error::outcome(r) == (if desc.validation && !text::texts(layers@).contains(
            "VK_LAYER_KHRONOS_validation"@,
        ) {
            error::lacking("VK_LAYER_KHRONOS_validation is not installed"@)
        } else {
            Ok::<(), Problem>(())
        }),
{
    if desc.validation && !contains_name(layers, "VK_LAYER_KHRONOS_validation") {
        return Err(unsupported("VK_LAYER_KHRONOS_validation is not installed"));
    }
    Ok(())
}

// ---------------------------------------------------------------------------
// Requirements
// ---------------------------------------------------------------------------

/// Every requirement on version and features: whether it is met, and its name.
pub open spec fn requirements(
    version: u32,
    base: BaseFeatures,
    features12: Vulkan12Features,
    features13: Vulkan13Features,
    descriptors: bool,
) -> Seq<(bool, &'static str)> {
    seq![
        (version >= VULKAN_API_VERSION, "Vulkan 1.4"),
        (base.shader_int64, "shaderInt64 (device-address shader ABI)"),
        (base.independent_blend, "independentBlend"),
        (base.image_cube_array, "imageCubeArray"),
        (base.fragment_stores_and_atomics, "fragmentStoresAndAtomics"),
        (base.vertex_pipeline_stores_and_atomics, "vertexPipelineStoresAndAtomics"),
        (base.shader_storage_image_extended_formats, "shaderStorageImageExtendedFormats"),
        (features12.buffer_device_address, "bufferDeviceAddress"),
        (features12.timeline_semaphore, "timelineSemaphore"),
        (features13.dynamic_rendering, "dynamicRendering"),
        (features13.synchronization2, "synchronization2"),
        (features13.maintenance4, "maintenance4 (SPIR-V LocalSizeId)"),
        (descriptors, "VK_EXT_descriptor_buffer / descriptorBuffer"),
        (features12.runtime_descriptor_array, "runtimeDescriptorArray"),
        (features12.descriptor_binding_partially_bound, "descriptorBindingPartiallyBound"),
        (
            features12.shader_sampled_image_array_non_uniform_indexing,
            "shaderSampledImageArrayNonUniformIndexing",
        ),
        (
            features12.shader_storage_image_array_non_uniform_indexing,
            "shaderStorageImageArrayNonUniformIndexing",
        ),
    ]
}

/// The names of the unmet requirements, in their order.
pub open spec fn unmet(requirements: Seq<(bool, &'static str)>) -> Seq<&'static str>
    decreases requirements.len(),
{
    if requirements.len() == 0 {
        Seq::empty()
    } else if requirements.last().0 {
        unmet(requirements.drop_last())
    } else {
        unmet(requirements.drop_last()).push(requirements.last().1)
    }
}

/// Lists the features that a device lacks.
pub fn required_features(
    version: u32,
    base: &BaseFeatures,
    features12: &Vulkan12Features,
    features13: &Vulkan13Features,
    descriptors: bool,
) -> (r: Vec<&'static str>)
    ensures
        r@ == unmet(requirements(version, *base, *features12, *features13, descriptors)),
{
    let table: [(bool, &'static str); 17] = [
        (version >= VULKAN_API_VERSION, "Vulkan 1.4"),
        (base.shader_int64, "shaderInt64 (device-address shader ABI)"),
        (base.independent_blend, "independentBlend"),
        (base.image_cube_array, "imageCubeArray"),
        (base.fragment_stores_and_atomics, "fragmentStoresAndAtomics"),
        (base.vertex_pipeline_stores_and_atomics, "vertexPipelineStoresAndAtomics"),
        (base.shader_storage_image_extended_formats, "shaderStorageImageExtendedFormats"),
        (features12.buffer_device_address, "bufferDeviceAddress"),
        (features12.timeline_semaphore, "timelineSemaphore"),
        (features13.dynamic_rendering, "dynamicRendering"),
        (features13.synchronization2, "synchronization2"),
        (features13.maintenance4, "maintenance4 (SPIR-V LocalSizeId)"),
        (descriptors, "VK_EXT_descriptor_buffer / descriptorBuffer"),
        (features12.runtime_descriptor_array, "runtimeDescriptorArray"),
        (features12.descriptor_binding_partially_bound, "descriptorBindingPartiallyBound"),
        (
            features12.shader_sampled_image_array_non_uniform_indexing,
            "shaderSampledImageArrayNonUniformIndexing",
        ),
        (
            features12.shader_storage_image_array_non_uniform_indexing,
            "shaderStorageImageArrayNonUniformIndexing",
        ),
    ];
    let ghost all = requirements(version, *base, *features12, *features13, descriptors);
    assert(table@ =~= all);
    let mut missing: Vec<&'static str> = Vec::new();
    let mut index: usize = 0;
    while index < 17
        invariant
            index <= 17,
            table@ == all,
            all.len() == 17,
            missing@ == unmet(all.take(index as int)),
        decreases 17 - index,
    {
        assert(all.take(index + 1).drop_last() =~= all.take(index as int));
        assert(all.take(index + 1).last() == all[index as int]);
        if !table[index].0 {
            missing.push(table[index].1);
        }
        index = index + 1;
    }
    assert(all.take(17) =~= all);
    missing
}

/// The family has queues for both graphics and compute.
pub open spec fn family_works(family: QueueFamily) -> bool {
    family.flags & 3 == 3 && family.queue_count != 0
}

/// Whether a family has queues for both graphics and compute.
pub fn is_work_family(family: &QueueFamily) -> (r: bool)
    ensures
        r == family_works(*family),
{
    family.flags & 3 == 3 && family.queue_count != 0
}

/// The first family from `from` on that works and, for a window, presents.
pub open spec fn family_from(families: Seq<QueueFamily>, windowed: bool, from: int) -> Option<int>
    decreases families.len() - from,
{
    if from >= families.len() {
        None
    } else if family_works(families[from]) && (!windowed || families[from].presents) {
        Some(from)
    } else {
        family_from(families, windowed, from + 1)
    }
}

fn find_family(families: &Vec<QueueFamily>, windowed: bool) -> (r: Option<usize>)
    ensures
        match (r, family_from(families@, windowed, 0)) {
            (Some(index), Some(expected)) => index == expected && index < families@.len(),
            (None, None) => true,
            _ => false,
        },
{
    let mut index: usize = 0;
    while index < families.len()
        invariant
            index <= families@.len(),
            family_from(families@, windowed, 0) == family_from(families@, windowed, index as int),
        decreases families@.len() - index,
    {
        if is_work_family(&families[index]) && (!windowed || families[index].presents) {
            return Some(index);
        }
        index = index + 1;
    }
    None
}

/// The descriptor arrays stay inside the limits of the device.
pub open spec fn descriptors_fit(limits: DeviceLimits, count: u32) -> bool {
    &&& count <= limits.max_per_stage_descriptor_sampled_images
    &&& count <= limits.max_per_stage_descriptor_storage_images
    &&& count <= limits.max_per_stage_descriptor_samplers
    &&& count <= limits.max_descriptor_set_sampled_images
    &&& count <= limits.max_descriptor_set_storage_images
    &&& count <= limits.max_descriptor_set_samplers
    &&& count * 3 <= limits.max_per_stage_resources
}

fn has_descriptors(limits: &DeviceLimits, count: u32) -> (r: bool)
    ensures
        r == descriptors_fit(*limits, count),
{
    count <= limits.max_per_stage_descriptor_sampled_images && count
        <= limits.max_per_stage_descriptor_storage_images && count
        <= limits.max_per_stage_descriptor_samplers && count
        <= limits.max_descriptor_set_sampled_images && count
        <= limits.max_descriptor_set_storage_images && count <= limits.max_descriptor_set_samplers
        && count as u64 * 3 <= limits.max_per_stage_resources as u64
}

/// The features that a device has to have.
pub open spec fn requirements_of(candidate: Candidate) -> Seq<(bool, &'static str)> {
    requirements(
        candidate.api_version,
        candidate.base,
        candidate.features12,
        candidate.features13,
        candidate.descriptor_buffer,
    )
}

/// Everything that a device is asked for beyond its version: whether it has it,
/// and what it is called.
pub open spec fn demands(desc: DeviceDesc, candidate: Candidate) -> Seq<(bool, &'static str)> {
    requirements_of(candidate) + seq![
        (
            !desc.windowed || text::texts(candidate.extensions@).contains("VK_KHR_swapchain"@),
            "VK_KHR_swapchain",
        ),
        (
            family_from(candidate.families@, desc.windowed, 0) is Some,
            "one graphics+compute+present queue family",
        ),
        (
            descriptors_fit(candidate.limits, desc.descriptor_count),
            "requested bindless descriptor count exceeds device limits",
        ),
    ]
}

/// Why a device is not used, if it is not.
pub open spec fn rejection(desc: DeviceDesc, candidate: Candidate) -> Option<Seq<char>> {
    let missing = unmet(demands(desc, candidate));
    if candidate.api_version < VULKAN_API_VERSION {
        Some(
            candidate.name@ + (": Vulkan 1.4 required (reports "@ + text::decimal_text(
                ((candidate.api_version >> 22) & 0x7f) as nat,
            ) + "."@ + text::decimal_text(((candidate.api_version >> 12) & 0x3ff) as nat) + ")"@),
        )
    } else if missing.len() > 0 {
        Some(candidate.name@ + ": "@ + text::joined(text::literals(missing), ", "@))
    } else {
        None
    }
}

fn version_text(version: u32) -> (r: String)
    ensures
        r@ == ": Vulkan 1.4 required (reports "@ + text::decimal_text(
            ((version >> 22) & 0x7f) as nat,
        ) + "."@ + text::decimal_text(((version >> 12) & 0x3ff) as nat) + ")"@,
{
    let mut message = ": Vulkan 1.4 required (reports ".to_owned();
    message.append(decimal(vk::api_version_major(version)).as_str());
    message.append(".");
    message.append(decimal(vk::api_version_minor(version)).as_str());
    message.append(")");
    message
}

proof fn unmet_splits(first: Seq<(bool, &'static str)>, last: (bool, &'static str))
    ensures
        unmet(first.push(last)) == (if last.0 {
            unmet(first)
        } else {
            unmet(first).push(last.1)
        }),
{
    assert(first.push(last).drop_last() =~= first);
}

fn missing_of(desc: &DeviceDesc, candidate: &Candidate) -> (r: Vec<&'static str>)
    ensures
        r@ == unmet(demands(*desc, *candidate)),
{
    let mut missing = required_features(
        candidate.api_version,
        &candidate.base,
        &candidate.features12,
        &candidate.features13,
        candidate.descriptor_buffer,
    );
    let ghost first = requirements(
        candidate.api_version,
        candidate.base,
        candidate.features12,
        candidate.features13,
        candidate.descriptor_buffer,
    );
    let ghost all = demands(*desc, *candidate);
    proof {
        let second = first.push(all[17]);
        let third = second.push(all[18]);
        unmet_splits(first, all[17]);
        unmet_splits(second, all[18]);
        unmet_splits(third, all[19]);
        assert(third.push(all[19]) =~= all);
    }
    if desc.windowed && !contains_name(&candidate.extensions, "VK_KHR_swapchain") {
        missing.push("VK_KHR_swapchain");
    }
    if find_family(&candidate.families, desc.windowed).is_none() {
        missing.push("one graphics+compute+present queue family");
    }
    if !has_descriptors(&candidate.limits, desc.descriptor_count) {
        missing.push("requested bindless descriptor count exceeds device limits");
    }
    missing
}

fn reject(desc: &DeviceDesc, candidate: &Candidate) -> (r: Option<String>)
    ensures
        match (r, rejection(*desc, *candidate)) {
            (Some(message), Some(expected)) => message@ == expected,
            (None, None) => true,
            _ => false,
        },
{
    if candidate.api_version < VULKAN_API_VERSION {
        let reason = version_text(candidate.api_version);
        return Some(concat(candidate.name.as_str(), reason.as_str()));
    }
    let missing = missing_of(desc, candidate);
    if missing.len() > 0 {
        let mut message = concat(candidate.name.as_str(), ": ");
        message.append(join_literals(&missing, ", ").as_str());
        return Some(message);
    }
    None
}

// ---------------------------------------------------------------------------
// Selection
// ---------------------------------------------------------------------------

/// How much a kind of device is preferred.
pub open spec fn score(device_type: DeviceType) -> int {
    match device_type {
        DeviceType::Discrete => 3,
        DeviceType::Integrated => 2,
        DeviceType::Other => 1,
    }
}

fn rank(device_type: DeviceType) -> (r: u32)
    ensures
        r == score(device_type),
{
    match device_type {
        DeviceType::Discrete => 3,
        DeviceType::Integrated => 2,
        DeviceType::Other => 1,
    }
}

/// The score of the device chosen so far; zero if there is none.
pub open spec fn chosen_score(candidates: Seq<Candidate>, chosen: Option<int>) -> int {
    match chosen {
        None => 0,
        Some(index) => score(candidates[index].device_type),
    }
}

/// The device chosen among the first `count`: a later one takes over only if it is
/// usable and strictly preferred.
pub open spec fn chosen_of(desc: DeviceDesc, candidates: Seq<Candidate>, count: nat) -> Option<int>
    decreases count,
{
    if count == 0 {
        None
    } else {
        let before = chosen_of(desc, candidates, (count - 1) as nat);
        let candidate = candidates[count - 1];
        if rejection(desc, candidate) is None && score(candidate.device_type) > chosen_score(
            candidates,
            before,
        ) {
            Some(count - 1)
        } else {
            before
        }
    }
}

/// The reasons why devices among the first `count` are not used.
pub open spec fn rejections(desc: DeviceDesc, candidates: Seq<Candidate>, count: nat) -> Seq<
    Seq<char>,
>
    decreases count,
{
    if count == 0 {
        Seq::empty()
    } else {
        let before = rejections(desc, candidates, (count - 1) as nat);
        match rejection(desc, candidates[count - 1]) {
            Some(message) => before.push(message),
            None => before,
        }
    }
}

/// A chosen physical device.
#[derive(Debug, Clone)]
pub struct Selection {
    /// The place of the device in the driver's list.
    pub position: usize,
    pub queue_family: usize,
    pub timestamp_valid_bits: u32,
    pub limits: DeviceLimits,
    pub caps: DeviceCaps,
}

/// Capabilities that follow from the physical device alone.
pub open spec fn caps_of(caps: DeviceCaps, desc: DeviceDesc, candidate: Candidate) -> bool {
    let limits = candidate.limits;
    &&& caps.device_name@ == candidate.name@
    &&& caps.api_version == candidate.api_version
    &&& caps.buffer_device_address
    &&& caps.dynamic_rendering
    &&& caps.synchronization2
    &&& caps.timeline_semaphore
    &&& caps.descriptor_buffer
    &&& caps.bindless_descriptors
    &&& caps.mesh_shader == candidate.mesh_shader
    &&& caps.sampler_anisotropy == candidate.base.sampler_anisotropy
    &&& caps.max_sampler_anisotropy == limits.max_sampler_anisotropy
    &&& caps.max_color_attachments == limits.max_color_attachments
    &&& caps.descriptor_count == desc.descriptor_count
    &&& caps.max_push_data_size == limits.max_push_constants_size
    &&& caps.texture_heap_alignment == limits.buffer_image_granularity
    &&& caps.timestamp_period_ns == limits.timestamp_period
    &&& caps.sub_texel_precision_bits == limits.sub_texel_precision_bits
    &&& caps.texture_compression_bc == candidate.base.texture_compression_bc
    &&& caps.texture_compression_astc == candidate.base.texture_compression_astc_ldr
    &&& !caps.storage_input_output16
}

/// Capabilities that are learnt only after the device exists are still zero.
pub open spec fn caps_open(caps: DeviceCaps) -> bool {
    &&& caps.max_timeline_value_difference == 0
    &&& caps.descriptor_buffer_alignment == 0
    &&& caps.texture_descriptor_size == 0
    &&& caps.sampler_descriptor_size == 0
}

/// The selection of the candidate with the given place.
pub open spec fn selects(
    selection: Selection,
    desc: DeviceDesc,
    candidates: Seq<Candidate>,
    index: int,
) -> bool {
    let candidate = candidates[index];
    &&& selection.position == index
    &&& family_from(candidate.families@, desc.windowed, 0) == Some(selection.queue_family as int)
    &&& selection.timestamp_valid_bits
        == candidate.families@[selection.queue_family as int].timestamp_valid_bits
    &&& selection.limits == candidate.limits
    &&& caps_of(selection.caps, desc, candidate)
    &&& caps_open(selection.caps)
}

fn describe(desc: &DeviceDesc, candidate: &Candidate) -> (r: DeviceCaps)
    ensures
        caps_of(r, *desc, *candidate),
        caps_open(r),
{
    let limits = candidate.limits;
    DeviceCaps {
        device_name: candidate.name.clone(),
        api_version: candidate.api_version,
        buffer_device_address: true,
        dynamic_rendering: true,
        synchronization2: true,
        timeline_semaphore: true,
        max_timeline_value_difference: 0,
        descriptor_buffer: true,
        bindless_descriptors: true,
        mesh_shader: candidate.mesh_shader,
        sampler_anisotropy: candidate.base.sampler_anisotropy,
        max_sampler_anisotropy: limits.max_sampler_anisotropy,
        max_color_attachments: limits.max_color_attachments,
        descriptor_count: desc.descriptor_count,
        descriptor_buffer_alignment: 0,
        max_push_data_size: limits.max_push_constants_size as u64,
        texture_heap_alignment: limits.buffer_image_granularity,
        texture_descriptor_size: 0,
        sampler_descriptor_size: 0,
        timestamp_period_ns: limits.timestamp_period,
        sub_texel_precision_bits: limits.sub_texel_precision_bits,
        texture_compression_bc: candidate.base.texture_compression_bc,
        texture_compression_astc: candidate.base.texture_compression_astc_ldr,
        storage_input_output16: false,
    }
}

/// Chooses a physical device: the first of the most preferred kind among those that
/// meet every requirement. If none does, the error says of each what it lacks.
pub fn select_device(desc: &DeviceDesc, candidates: &Vec<Candidate>) -> (r: Result<
    Selection,
    GpuError,
>)
    ensures
        match (r, chosen_of(*desc, candidates@, candidates@.len())) {
            (Ok(selection), Some(index)) => selects(selection, *desc, candidates@, index),
            (Err(error), None) => error@ == Problem::Unsupported(
                "no suitable Vulkan 1.4 device; "@ + text::joined(
                    rejections(*desc, candidates@, candidates@.len()),
                    "; "@,
                ),
            ),
            _ => false,
        },
{
    let ghost all = candidates@;
    let mut rejected: Vec<String> = Vec::new();
    let mut best_score: u32 = 0;
    let mut best: Option<Selection> = None;
    let mut index: usize = 0;
    assert(text::texts(rejected@) =~= rejections(*desc, all, 0));
    while index < candidates.len()
        invariant
            index <= candidates@.len(),
            all == candidates@,
            text::texts(rejected@) == rejections(*desc, all, index as nat),
            best_score == chosen_score(all, chosen_of(*desc, all, index as nat)),
            match (best, chosen_of(*desc, all, index as nat)) {
                (Some(selection), Some(place)) => selects(selection, *desc, all, place),
                (None, None) => true,
                _ => false,
            },
        decreases candidates@.len() - index,
    {
        let candidate = &candidates[index];
        match reject(desc, candidate) {
            Some(message) => {
                let ghost before = text::texts(rejected@);
                rejected.push(message);
                assert(text::texts(rejected@) =~= before.push(message@));
            },
            None => {
                let score = rank(candidate.device_type);
                if score > best_score {
                    proof {
                        usable_family(*desc, *candidate);
                    }
                    if let Some(family) = find_family(&candidate.families, desc.windowed) {
                        best_score = score;
                        best = Some(
                            Selection {
                                position: index,
                                queue_family: family,
                                timestamp_valid_bits: candidate.families[family].timestamp_valid_bits,
                                limits: candidate.limits,
                                caps: describe(desc, candidate),
                            },
                        );
                    }
                }
            },
        }
        index = index + 1;
    }
    match best {
        Some(selection) => Ok(selection),
        None => {
            let reasons = join(&rejected, "; ");
            let message = concat("no suitable Vulkan 1.4 device; ", reasons.as_str());
            Err(GpuError::Unsupported(message))
        },
    }
}

/// A device that lacks nothing has a queue family to work with.
proof fn usable_family(desc: DeviceDesc, candidate: Candidate)
    requires
        rejection(desc, candidate) is None,
    ensures
        family_from(candidate.families@, desc.windowed, 0) is Some,
{
    unmet_contains(demands(desc, candidate), 18);
}

// ---------------------------------------------------------------------------
// Creation
// ---------------------------------------------------------------------------

/// The features that a device is created with.
#[derive(Debug, Clone, Copy, PartialEq, Eq)]
pub struct EnabledFeatures {
    pub base: BaseFeatures,
    pub features12: Vulkan12Features,
    pub features13: Vulkan13Features,
    pub descriptor_buffer: bool,
    pub mesh_shader: bool,
}

/// All that is required, and what else the capabilities name.
pub open spec fn spec_enabled_features(caps: DeviceCaps) -> EnabledFeatures {
    EnabledFeatures {
        base: BaseFeatures {
            shader_int64: true,
            independent_blend: true,
            image_cube_array: true,
            fragment_stores_and_atomics: true,
            vertex_pipeline_stores_and_atomics: true,
            shader_storage_image_extended_formats: true,
            sampler_anisotropy: caps.sampler_anisotropy,
            texture_compression_bc: caps.texture_compression_bc,
            texture_compression_astc_ldr: caps.texture_compression_astc,
        },
        features12: Vulkan12Features {
            buffer_device_address: true,
            timeline_semaphore: true,
            runtime_descriptor_array: true,
            descriptor_binding_partially_bound: true,
            shader_sampled_image_array_non_uniform_indexing: true,
            shader_storage_image_array_non_uniform_indexing: true,
        },
        features13: Vulkan13Features {
            dynamic_rendering: true,
            synchronization2: true,
            maintenance4: true,
        },
        descriptor_buffer: true,
        mesh_shader: caps.mesh_shader,
    }
}

/// Lists the features to enable on a device.
pub fn enabled_features(caps: &DeviceCaps) -> (r: EnabledFeatures)
    ensures
        r == spec_enabled_features(*caps),
{
    EnabledFeatures {
        base: BaseFeatures {
            shader_int64: true,
            independent_blend: true,
            image_cube_array: true,
            fragment_stores_and_atomics: true,
            vertex_pipeline_stores_and_atomics: true,
            shader_storage_image_extended_formats: true,
            sampler_anisotropy: caps.sampler_anisotropy,
            texture_compression_bc: caps.texture_compression_bc,
            texture_compression_astc_ldr: caps.texture_compression_astc,
        },
        features12: Vulkan12Features {
            buffer_device_address: true,
            timeline_semaphore: true,
            runtime_descriptor_array: true,
            descriptor_binding_partially_bound: true,
            shader_sampled_image_array_non_uniform_indexing: true,
            shader_storage_image_array_non_uniform_indexing: true,
        },
        features13: Vulkan13Features {
            dynamic_rendering: true,
            synchronization2: true,
            maintenance4: true,
        },
        descriptor_buffer: true,
        mesh_shader: caps.mesh_shader,
    }
}

/// The extensions that a device is created with.
pub open spec fn spec_device_extensions(windowed: bool, mesh_shader: bool) -> Seq<&'static str> {
    let first = seq!["VK_EXT_descriptor_buffer"];
    let second = if windowed {
        first.push("VK_KHR_swapchain")
    } else {
        first
    };
    if mesh_shader {
        second.push("VK_EXT_mesh_shader")
    } else {
        second
    }
}

/// Lists the extensions to enable on a device.
pub fn device_extensions(windowed: bool, mesh_shader: bool) -> (r: Vec<&'static str>)
    ensures
        r@ == spec_device_extensions(windowed, mesh_shader),
{
    let mut extensions: Vec<&'static str> = Vec::new();
    extensions.push("VK_EXT_descriptor_buffer");
    if windowed {
        extensions.push("VK_KHR_swapchain");
    }
    if mesh_shader {
        extensions.push("VK_EXT_mesh_shader");
    }
    extensions
}

// ---------------------------------------------------------------------------
// Laws
// ---------------------------------------------------------------------------

/// Every requirement that is not met is listed.
pub proof fn unmet_contains(requirements: Seq<(bool, &'static str)>, index: int)
    requires
        0 <= index < requirements.len(),
    ensures
        !requirements[index].0 ==> unmet(requirements).contains(requirements[index].1),
    decreases requirements.len(),
{
    if index < requirements.len() - 1 {
        unmet_contains(requirements.drop_last(), index);
        let before = unmet(requirements.drop_last());
        if !requirements[index].0 {
            let place = choose|i: int|
                0 <= i < before.len() && before[i] == requirements[index].1;
            assert(unmet(requirements)[place] == requirements[index].1);
        }
    } else {
        let all = unmet(requirements);
        if !requirements[index].0 {
            assert(all[all.len() - 1] == requirements[index].1);
        }
    }
}

/// Only requirements that are not met are listed.
pub proof fn unmet_only(requirements: Seq<(bool, &'static str)>, place: int) -> (index: int)
    requires
        0 <= place < unmet(requirements).len(),
    ensures
        0 <= index < requirements.len(),
        !requirements[index].0,
        requirements[index].1 == unmet(requirements)[place],
    decreases requirements.len(),
{
    let before = unmet(requirements.drop_last());
    if place < before.len() {
        unmet_only(requirements.drop_last(), place)
    } else {
        requirements.len() - 1
    }
}

/// The chosen device is usable, no usable device is preferred to it, and no usable
/// device before it is as good. If none is chosen, none is usable.
pub proof fn selection_prefers_the_best(
    desc: DeviceDesc,
    candidates: Seq<Candidate>,
    count: nat,
    other: int,
)
    requires
        count <= candidates.len(),
        0 <= other < count,
        rejection(desc, candidates[other]) is None,
    ensures
        chosen_of(desc, candidates, count) matches Some(index) && {
            &&& 0 <= index < count
            &&& rejection(desc, candidates[index]) is None
            &&& score(candidates[other].device_type) <= score(candidates[index].device_type)
            &&& other < index ==> score(candidates[other].device_type) < score(
                candidates[index].device_type,
            )
        },
    decreases count,
{
    let before = (count - 1) as nat;
    chosen_is_usable(desc, candidates, before);
    if other < before {
        selection_prefers_the_best(desc, candidates, before, other);
    }
}

/// A chosen device is one of the list that is not rejected.
pub proof fn chosen_is_usable(desc: DeviceDesc, candidates: Seq<Candidate>, count: nat)
    ensures
        chosen_of(desc, candidates, count) matches Some(index) ==> 0 <= index < count && rejection(
            desc,
            candidates[index],
        ) is None,
    decreases count,
{
    if count > 0 {
        chosen_is_usable(desc, candidates, (count - 1) as nat);
    }
}

/// Every enabled feature is offered by the device.
pub open spec fn offered(enabled: EnabledFeatures, candidate: Candidate) -> bool {
    let base = candidate.base;
    let features12 = candidate.features12;
    let features13 = candidate.features13;
    &&& enabled.base.shader_int64 ==> base.shader_int64
    &&& enabled.base.independent_blend ==> base.independent_blend
    &&& enabled.base.image_cube_array ==> base.image_cube_array
    &&& enabled.base.fragment_stores_and_atomics ==> base.fragment_stores_and_atomics
    &&& enabled.base.vertex_pipeline_stores_and_atomics ==> base.vertex_pipeline_stores_and_atomics
    &&& enabled.base.shader_storage_image_extended_formats
        ==> base.shader_storage_image_extended_formats
    &&& enabled.base.sampler_anisotropy ==> base.sampler_anisotropy
    &&& enabled.base.texture_compression_bc ==> base.texture_compression_bc
    &&& enabled.base.texture_compression_astc_ldr ==> base.texture_compression_astc_ldr
    &&& enabled.features12.buffer_device_address ==> features12.buffer_device_address
    &&& enabled.features12.timeline_semaphore ==> features12.timeline_semaphore
    &&& enabled.features12.runtime_descriptor_array ==> features12.runtime_descriptor_array
    &&& enabled.features12.descriptor_binding_partially_bound
        ==> features12.descriptor_binding_partially_bound
    &&& enabled.features12.shader_sampled_image_array_non_uniform_indexing
        ==> features12.shader_sampled_image_array_non_uniform_indexing
    &&& enabled.features12.shader_storage_image_array_non_uniform_indexing
        ==> features12.shader_storage_image_array_non_uniform_indexing
    &&& enabled.features13.dynamic_rendering ==> features13.dynamic_rendering
    &&& enabled.features13.synchronization2 ==> features13.synchronization2
    &&& enabled.features13.maintenance4 ==> features13.maintenance4
    &&& enabled.descriptor_buffer ==> candidate.descriptor_buffer
    &&& enabled.mesh_shader ==> candidate.mesh_shader
}

/// Every requirement of a list is met.
pub open spec fn all_met(requirements: Seq<(bool, &'static str)>) -> bool {
    forall|i: int| 0 <= i < requirements.len() ==> (#[trigger] requirements[i]).0
}

proof fn nothing_unmet(requirements: Seq<(bool, &'static str)>)
    requires
        unmet(requirements).len() == 0,
    ensures
        all_met(requirements),
{
    assert forall|i: int| 0 <= i < requirements.len() implies (#[trigger] requirements[i]).0 by {
        unmet_contains(requirements, i);
    }
}

/// A usable device meets every requirement.
proof fn usable_meets_requirements(desc: DeviceDesc, candidate: Candidate)
    requires
        rejection(desc, candidate) is None,
    ensures
        all_met(requirements_of(candidate)),
{
    let wanted = demands(desc, candidate);
    let required = requirements_of(candidate);
    nothing_unmet(wanted);
    assert forall|i: int| 0 <= i < required.len() implies (#[trigger] required[i]).0 by {
        assert(wanted[i] == required[i]);
    }
}

/// A usable device can present if it has to.
proof fn usable_presents(desc: DeviceDesc, candidate: Candidate)
    requires
        rejection(desc, candidate) is None,
    ensures
        desc.windowed ==> text::texts(candidate.extensions@).contains("VK_KHR_swapchain"@),
{
    unmet_contains(demands(desc, candidate), 17);
}

proof fn required_base_features(candidate: Candidate)
    requires
        all_met(requirements_of(candidate)),
    ensures
        candidate.base.shader_int64,
        candidate.base.independent_blend,
        candidate.base.image_cube_array,
        candidate.base.fragment_stores_and_atomics,
        candidate.base.vertex_pipeline_stores_and_atomics,
        candidate.base.shader_storage_image_extended_formats,
{
    let required = requirements_of(candidate);
    assert(required[1].0 && required[2].0 && required[3].0);
    assert(required[4].0 && required[5].0 && required[6].0);
}

proof fn required_vulkan12_features(candidate: Candidate)
    requires
        all_met(requirements_of(candidate)),
    ensures
        candidate.features12.buffer_device_address,
        candidate.features12.timeline_semaphore,
        candidate.features12.runtime_descriptor_array,
        candidate.features12.descriptor_binding_partially_bound,
        candidate.features12.shader_sampled_image_array_non_uniform_indexing,
        candidate.features12.shader_storage_image_array_non_uniform_indexing,
{
    let required = requirements_of(candidate);
    assert(required[7].0 && required[8].0 && required[13].0);
    assert(required[14].0 && required[15].0 && required[16].0);
}

proof fn required_vulkan13_features(candidate: Candidate)
    requires
        all_met(requirements_of(candidate)),
    ensures
        candidate.features13.dynamic_rendering,
        candidate.features13.synchronization2,
        candidate.features13.maintenance4,
        candidate.descriptor_buffer,
{
    let required = requirements_of(candidate);
    assert(required[9].0 && required[10].0 && required[11].0 && required[12].0);
}

/// A selected device offers every feature that is enabled on it, and can present if
/// it has to. What its capabilities name is enabled.
pub proof fn only_offered_features_are_enabled(
    selection: Selection,
    desc: DeviceDesc,
    candidates: Seq<Candidate>,
    index: int,
)
    requires
        chosen_of(desc, candidates, candidates.len()) == Some(index),
        selects(selection, desc, candidates, index),
    ensures
        offered(spec_enabled_features(selection.caps), candidates[index]),
        desc.windowed ==> text::texts(candidates[index].extensions@).contains(
            "VK_KHR_swapchain"@,
        ),
        selection.caps.mesh_shader == spec_enabled_features(selection.caps).mesh_shader,
        selection.caps.sampler_anisotropy == spec_enabled_features(
            selection.caps,
        ).base.sampler_anisotropy,
{
    let candidate = candidates[index];
    chosen_is_usable(desc, candidates, candidates.len());
    usable_meets_requirements(desc, candidate);
    usable_presents(desc, candidate);
    required_base_features(candidate);
    required_vulkan12_features(candidate);
    required_vulkan13_features(candidate);
}

/// If no device is chosen, the message gives a reason for every one of them.
pub proof fn every_rejection_is_reported(desc: DeviceDesc, candidates: Seq<Candidate>, count: nat)
    requires
        count <= candidates.len(),
        chosen_of(desc, candidates, count) is None,
    ensures
        rejections(desc, candidates, count).len() == count,
        forall|i: int|
            0 <= i < count ==> Some(#[trigger] rejections(desc, candidates, count)[i]) == rejection(
                desc,
                candidates[i],
            ),
    decreases count,
{
    if count > 0 {
        let before = (count - 1) as nat;
        every_rejection_is_reported(desc, candidates, before);
        let earlier = rejections(desc, candidates, before);
        let all = rejections(desc, candidates, count);
        assert forall|i: int| 0 <= i < count implies Some(#[trigger] all[i]) == rejection(
            desc,
            candidates[i],
        ) by {
            if i < before {
                assert(all[i] == earlier[i]);
            }
        }
    }
}

} // verus!
