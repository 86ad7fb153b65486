use no_graphics_api::heap::descriptor_slot;
use no_graphics_api::state::same_device;
use no_graphics_api::swapchain::{
    accept_first_swapchain, add_present_semaphore, check_extent, complete_swapchain, fence_reset,
    image_acquired, image_desc, install_swapchain, present_failed, retire_swapchain,
    surface_extent,
};
use no_graphics_api::texture::judge_texture_support;
use no_graphics_api::{
    AcquirePlan, AddressMode, BaseFeatures, Candidate, CompareOp, DescriptorProperties, DeviceDesc,
    DeviceLimits, DeviceState, DeviceType, DrawableExtent, F32Bits, Filter, Format, GpuCpuRange, GpuDevice,
    GpuError, GpuHeap, HeapSpan, HostAccess, ImageLimits, MappedRange, MemoryType, MeshLimits,
    QueueFamily, RenderView, RenderViewDesc, Sampler, SamplerDesc, SurfaceCaps, SurfaceFormat,
    SwapchainPlan, Texture, TextureAspect, TextureDesc, TextureDescriptorDesc,
    TextureDescriptorType, TextureLayout, TextureType, TextureUsage, U32x2, U32x3,
    VULKAN_API_VERSION, ViewType, Vulkan12Features, Vulkan13Features, acquire, check_device_desc,
    check_loader_version, check_validation_layer, create_gpu_heap,
    create_reinterpreted_texture_view, create_render_view, create_sampler,
    create_sampler_descriptor_heap, create_texture, create_texture_descriptor_heap,
    create_texture_view, device_extensions, enabled_features, flush_memory, get_device_caps, get_drawable_extent, invalidate_memory,
    is_work_family, mapped_memory, plan_acquire, plan_swapchain, recreate_swapchain, select_device,
    supports_texture_format, texture_support, vk, write_memory, write_sampler_descriptor,
    write_texture_descriptor,
};
use std::rc::Rc;

fn refusal<T>(result: Result<T, GpuError>) -> String {
    match result {
        Err(error) => error.message(),
        Ok(_) => "accepted".to_string(),
    }
}

fn invalid(message: &str) -> String {
    format!("invalid argument: {message}")
}

fn limits() -> DeviceLimits {
    DeviceLimits {
        max_framebuffer_width: 4096,
        max_framebuffer_height: 4096,
        max_viewport_width: 4096,
        max_viewport_height: 4096,
        viewport_bounds_low: F32Bits((-8192.0_f32).to_bits()),
        viewport_bounds_high: F32Bits(8191.0_f32.to_bits()),
        max_compute_work_group_count: U32x3 { x: 8, y: 8, z: 8 },
        max_push_constants_size: 128,
        max_color_attachments: 8,
        max_sampler_anisotropy: F32Bits(16.0_f32.to_bits()),
        buffer_image_granularity: 64,
        timestamp_period: F32Bits::ONE(),
        sub_texel_precision_bits: 8,
        max_per_stage_descriptor_sampled_images: 4096,
        max_per_stage_descriptor_storage_images: 4096,
        max_per_stage_descriptor_samplers: 4096,
        max_descriptor_set_sampled_images: 4096,
        max_descriptor_set_storage_images: 4096,
        max_descriptor_set_samplers: 4096,
        max_per_stage_resources: 12288,
    }
}

fn candidate(name: &str) -> Candidate {
    Candidate {
        name: name.to_string(),
        api_version: VULKAN_API_VERSION,
        device_type: DeviceType::Integrated,
        extensions: vec![
            "VK_EXT_descriptor_buffer".to_string(),
            "VK_KHR_swapchain".to_string(),
        ],
        base: BaseFeatures {
            shader_int64: true,
            independent_blend: true,
            image_cube_array: true,
            fragment_stores_and_atomics: true,
            vertex_pipeline_stores_and_atomics: true,
            shader_storage_image_extended_formats: true,
            sampler_anisotropy: true,
            texture_compression_bc: true,
            texture_compression_astc_ldr: false,
        },
        features12: Vulkan12Features {
            buffer_device_address: true,
            timeline_semaphore: true,
            runtime_descriptor_array: true,
            descriptor_binding_partially_bound: true,
            shader_sampled_image_array_non_uniform_indexing: true,
            shader_storage_image_array_non_uniform_indexing: true,
        },
        features13: Vulkan13Features {
            dynamic_rendering: true,
            synchronization2: true,
            maintenance4: true,
        },
        descriptor_buffer: true,
        mesh_shader: false,
        families: vec![
            QueueFamily { flags: 2, queue_count: 4, timestamp_valid_bits: 0, presents: true },
            QueueFamily { flags: 7, queue_count: 1, timestamp_valid_bits: 36, presents: true },
        ],
        limits: limits(),
    }
}

fn properties() -> DescriptorProperties {
    DescriptorProperties {
        max_descriptor_buffer_bindings: 3,
        max_resource_descriptor_buffer_bindings: 2,
        max_sampler_descriptor_buffer_bindings: 1,
        descriptor_buffer_offset_alignment: 64,
        sampled_image_descriptor_size: 32,
        storage_image_descriptor_size: 48,
        sampler_descriptor_size: 16,
        max_sampler_descriptor_buffer_range: 1 << 20,
        max_resource_descriptor_buffer_range: 1 << 20,
    }
}

fn desc(windowed: bool) -> DeviceDesc {
    DeviceDesc {
        windowed,
        ..DeviceDesc::default()
    }
}

fn state_with(id: u64, windowed: bool, candidate: Candidate) -> DeviceState {
    let desc = desc(windowed);
    let selection = select_device(&desc, &vec![candidate]).unwrap();
    let mut state =
        DeviceState::new(id, &desc, selection, &properties(), MeshLimits::default(), 9).unwrap();
    for (set, size) in [(0, 32 * 1024 + 64), (1, 48 * 1024), (2, 16 * 1024)] {
        let offset = if set == 0 { 64 } else { 0 };
        state
            .set_heap_layout(&properties(), set, size, offset)
            .unwrap();
    }
    state
}

fn state(id: u64) -> Rc<DeviceState> {
    Rc::new(state_with(id, false, candidate("card")))
}

// ---------------------------------------------------------------------------
// Selection
// ---------------------------------------------------------------------------

#[test]
fn device_descriptions_are_checked() {
    assert!(check_device_desc(&DeviceDesc::default()).is_ok());
    let message = invalid("descriptor and swapchain counts must be nonzero");
    let none = DeviceDesc { descriptor_count: 0, ..DeviceDesc::default() };
    assert_eq!(refusal(check_device_desc(&none)), message);
    let none = DeviceDesc { desired_swapchain_image_count: 0, ..DeviceDesc::default() };
    assert_eq!(refusal(check_device_desc(&none)), message);
    assert!(check_loader_version(Some(VULKAN_API_VERSION)).is_ok());
    let old = "unsupported: Vulkan loader 1.4 is required";
    assert_eq!(refusal(check_loader_version(None)), old);
    assert_eq!(refusal(check_loader_version(Some(vk::API_VERSION_1_3))), old);
}

#[test]
fn validation_needs_its_layer() {
    let wanted = DeviceDesc { validation: true, ..DeviceDesc::default() };
    let layers = vec!["VK_LAYER_KHRONOS_validation".to_string()];
    assert!(check_validation_layer(&wanted, &layers).is_ok());
    assert_eq!(
        refusal(check_validation_layer(&wanted, &vec!["other".to_string()])),
        "unsupported: VK_LAYER_KHRONOS_validation is not installed"
    );
    assert!(check_validation_layer(&DeviceDesc::default(), &Vec::new()).is_ok());
}

#[test]
fn work_families_draw_and_compute() {
    let family = |flags, queue_count| QueueFamily {
        flags,
        queue_count,
        timestamp_valid_bits: 0,
        presents: false,
    };
    assert!(is_work_family(&family(3, 1)));
    assert!(is_work_family(&family(0xff, 2)));
    assert!(!is_work_family(&family(3, 0)));
    assert!(!is_work_family(&family(1, 1)));
    assert!(!is_work_family(&family(2, 1)));
}

#[test]
fn the_best_device_is_selected() {
    let mut discrete = candidate("discrete");
    discrete.device_type = DeviceType::Discrete;
    discrete.mesh_shader = true;
    let mut second = candidate("second discrete");
    second.device_type = DeviceType::Discrete;
    let mut other = candidate("other");
    other.device_type = DeviceType::Other;
    let all = vec![other, candidate("integrated"), discrete, second];
    let selection = select_device(&DeviceDesc::default(), &all).unwrap();
    assert_eq!(selection.position, 2);
    assert_eq!(selection.queue_family, 1);
    assert_eq!(selection.timestamp_valid_bits, 36);
    assert_eq!(selection.limits, limits());
    let caps = selection.caps;
    assert_eq!(caps.device_name, "discrete");
    assert_eq!(caps.api_version, VULKAN_API_VERSION);
    assert!(caps.buffer_device_address && caps.bindless_descriptors && caps.mesh_shader);
    assert!(caps.texture_compression_bc && !caps.texture_compression_astc);
    assert_eq!(caps.max_push_data_size, 128);
    assert_eq!(caps.texture_heap_alignment, 64);
    assert_eq!(caps.descriptor_count, 1024);
    assert_eq!(caps.max_color_attachments, 8);
    assert_eq!(caps.max_timeline_value_difference, 0);
    assert!(!caps.storage_input_output16);
}

#[test]
fn every_rejected_device_is_reported() {
    let mut old = candidate("old");
    old.api_version = vk::make_api_version(0, 1, 3, 250);
    let mut bare = candidate("bare");
    bare.extensions = vec!["VK_EXT_descriptor_buffer".to_string()];
    bare.features13.maintenance4 = false;
    bare.families[1].presents = false;
    let mut small = candidate("small");
    small.limits.max_per_stage_resources = 3071;
    assert_eq!(
        refusal(select_device(&desc(true), &vec![old.clone(), bare.clone(), small.clone()])),
        "unsupported: no suitable Vulkan 1.4 device; \
         old: Vulkan 1.4 required (reports 1.3); \
         bare: maintenance4 (SPIR-V LocalSizeId), VK_KHR_swapchain, \
         one graphics+compute+present queue family; \
         small: requested bindless descriptor count exceeds device limits"
    );
    bare.features13.maintenance4 = true;
    assert_eq!(select_device(&desc(false), &vec![old, bare, small]).unwrap().position, 1);
}

#[test]
fn offered_features_are_enabled() {
    let mut meshing = candidate("card");
    meshing.mesh_shader = true;
    let selection = select_device(&desc(true), &vec![meshing.clone()]).unwrap();
    let enabled = enabled_features(&selection.caps);
    assert_eq!(enabled.base, meshing.base);
    assert_eq!(enabled.features12, meshing.features12);
    assert_eq!(enabled.features13, meshing.features13);
    assert!(enabled.descriptor_buffer && enabled.mesh_shader);
    let plain = select_device(&desc(false), &vec![candidate("card")]).unwrap();
    assert!(!enabled_features(&plain.caps).mesh_shader);
    assert_eq!(
        device_extensions(true, true),
        ["VK_EXT_descriptor_buffer", "VK_KHR_swapchain", "VK_EXT_mesh_shader"]
    );
    assert_eq!(device_extensions(false, false), ["VK_EXT_descriptor_buffer"]);
}

#[test]
fn states_take_over_the_selection() {
    let state = state_with(4, true, candidate("card"));
    assert!(state.windowed);
    assert_eq!(state.id, 4);
    assert_eq!(state.descriptor_sizes, [32, 48, 16]);
    assert_eq!(state.descriptor_offsets, [64, 0, 0]);
    assert_eq!(state.heap_sizes, [32 * 1024 + 64, 48 * 1024, 16 * 1024]);
    assert_eq!(state.caps.texture_descriptor_size, 48);
    assert_eq!(state.caps.sampler_descriptor_size, 16);
    assert_eq!(state.caps.descriptor_buffer_alignment, 64);
    assert_eq!(state.caps.max_timeline_value_difference, 9);
    assert_eq!(state.timestamp_query_count, 256);
    assert_eq!(state.timestamp_valid_bits, 36);
    assert!(same_device(&state, &state_with(4, false, candidate("twin"))));
    assert!(!same_device(&state, &state_with(5, true, candidate("card"))));
}

#[test]
fn descriptor_buffers_have_to_suffice() {
    let selection = select_device(&desc(false), &vec![candidate("card")]).unwrap();
    for scarce in [
        DescriptorProperties { max_descriptor_buffer_bindings: 2, ..properties() },
        DescriptorProperties { max_resource_descriptor_buffer_bindings: 1, ..properties() },
        DescriptorProperties { max_sampler_descriptor_buffer_bindings: 0, ..properties() },
    ] {
        assert_eq!(
            refusal(DeviceState::new(
                0,
                &desc(false),
                selection.clone(),
                &scarce,
                MeshLimits::default(),
                0
            )),
            "unsupported: card: three descriptor buffer bindings required"
        );
    }
    let mut state = state_with(0, false, candidate("card"));
    let tight = DescriptorProperties {
        max_sampler_descriptor_buffer_range: 10,
        max_resource_descriptor_buffer_range: 20,
        ..properties()
    };
    assert!(state.set_heap_layout(&tight, 0, 20, 0).is_ok());
    assert!(state.set_heap_layout(&tight, 2, 10, 0).is_ok());
    let message = "unsupported: descriptor heap exceeds descriptor-buffer range";
    assert_eq!(refusal(state.set_heap_layout(&tight, 1, 21, 0)), message);
    assert_eq!(refusal(state.set_heap_layout(&tight, 2, 11, 0)), message);
    assert_eq!(state.heap_sizes, [20, 21, 11]);
}

// ---------------------------------------------------------------------------
// Heaps
// ---------------------------------------------------------------------------

#[test]
fn buffers_are_planned_by_their_memory() {
    let state = state(1);
    let usage = vk::BufferUsageFlags::SHADER_DEVICE_ADDRESS
        | vk::BufferUsageFlags::TRANSFER_SRC
        | vk::BufferUsageFlags::TRANSFER_DST;
    let plain = usage
        | vk::BufferUsageFlags::STORAGE_BUFFER
        | vk::BufferUsageFlags::INDEX_BUFFER
        | vk::BufferUsageFlags::INDIRECT_BUFFER;
    for (memory, host) in [
        (MemoryType::CpuVisible, HostAccess::SequentialWrite),
        (MemoryType::GpuOnly, HostAccess::Unmapped),
        (MemoryType::Readback, HostAccess::Random),
    ] {
        let plan = create_gpu_heap(&state, 100, memory).unwrap();
        assert_eq!(plan.host, host);
        assert_eq!(plan.size, 100);
        assert_eq!(plan.usage, plain.as_raw());
        assert_eq!(plan.alignment, 16);
        assert_eq!(plan.descriptor_set, None);
    }
    let message = invalid("buffer size must fit a nonempty Rust slice");
    assert_eq!(refusal(create_gpu_heap(&state, 0, MemoryType::GpuOnly)), message);
    assert_eq!(refusal(create_gpu_heap(&state, 1 << 63, MemoryType::GpuOnly)), message);
    for memory in [MemoryType::TextureDescriptorHeap, MemoryType::SamplerDescriptorHeap] {
        assert_eq!(
            refusal(create_gpu_heap(&state, 100, memory)),
            invalid("use create_texture_descriptor_heap or create_sampler_descriptor_heap")
        );
    }
    let resources = (usage | vk::BufferUsageFlags::RESOURCE_DESCRIPTOR_BUFFER_EXT).as_raw();
    let sampled = create_texture_descriptor_heap(&state, TextureDescriptorType::Sampled).unwrap();
    assert_eq!(sampled.size, 32 * 1024 + 64);
    assert_eq!(sampled.descriptor_set, Some(0));
    assert_eq!(sampled.usage, resources);
    assert_eq!(sampled.alignment, 64);
    assert_eq!(sampled.host, HostAccess::SequentialWrite);
    let storage = create_texture_descriptor_heap(&state, TextureDescriptorType::Storage).unwrap();
    assert_eq!(storage.descriptor_set, Some(1));
    let sampler = create_sampler_descriptor_heap(&state).unwrap();
    assert_eq!(sampler.descriptor_set, Some(2));
    assert_eq!(
        sampler.usage,
        (usage | vk::BufferUsageFlags::SAMPLER_DESCRIPTOR_BUFFER_EXT).as_raw()
    );
}

fn heap(state: &Rc<DeviceState>, size: u64, mapped: bool) -> GpuHeap {
    let plan = create_gpu_heap(state, size, MemoryType::CpuVisible).unwrap();
    GpuHeap::allocated(state.clone(), &plan, 77, 0x1000, mapped)
}

#[test]
fn ranges_stay_in_their_heap() {
    let heap = heap(&state(1), 100, true);
    assert_eq!((heap.size(), heap.device_address(), heap.buffer()), (100, 0x1000, 77));
    assert!(heap.is_mapped());
    let range = heap.range(20, 80).unwrap();
    assert_eq!((range.offset(), range.size()), (20, 80));
    assert_eq!(range.device_address(), 0x1014);
    assert_eq!(range.heap().buffer(), 77);
    let message = invalid("buffer range is empty or out of bounds");
    for (offset, size) in [(0, 0), (101, 1), (20, 81), (u64::MAX, 2)] {
        assert_eq!(refusal(heap.range(offset, size)), message);
    }
    assert_eq!(
        flush_memory(range).unwrap(),
        HeapSpan { offset: 20, size: 80 }
    );
    assert_eq!(
        invalidate_memory(range).unwrap(),
        HeapSpan { offset: 20, size: 80 }
    );
}

#[test]
fn mappings_need_visible_memory() {
    let state = state(1);
    let visible = heap(&state, 100, true);
    assert_eq!(
        mapped_memory(&visible, 8, 12).unwrap(),
        MappedRange { gpu: 0x1008, offset: 8, size: 12 }
    );
    assert_eq!(
        write_memory(&visible, 4, &[1, 2, 3]).unwrap(),
        MappedRange { gpu: 0x1004, offset: 4, size: 3 }
    );
    assert!(write_memory(&visible, 98, &[1, 2, 3]).is_err());
    assert!(write_memory(&visible, 0, &[]).is_err());
    let mut mapping = [9_u8; 8];
    let range = GpuCpuRange { gpu: 0x1004, cpu: &mut mapping[4..7] };
    range.fill_with(&[1, 2, 3]);
    assert_eq!(mapping, [9, 9, 9, 9, 1, 2, 3, 9]);
    let hidden = heap(&state, 100, false);
    assert_eq!(
        refusal(mapped_memory(&hidden, 0, 4)),
        invalid("heap is not CPU visible")
    );
    let range = hidden.range(0, 4).unwrap();
    assert_eq!(refusal(flush_memory(range)), invalid("heap is not mapped"));
    assert_eq!(refusal(invalidate_memory(range)), invalid("heap is not mapped"));
}

#[test]
fn descriptor_slots_lie_side_by_side() {
    let state = state(1);
    let plan = create_texture_descriptor_heap(&state, TextureDescriptorType::Sampled).unwrap();
    let heap = GpuHeap::allocated(state, &plan, 1, 0, true);
    let first = descriptor_slot(&heap, 0, 6).unwrap();
    let second = descriptor_slot(&heap, 0, 7).unwrap();
    assert_eq!(first, HeapSpan { offset: 64 + 6 * 32, size: 32 });
    assert_eq!(first.offset + first.size, second.offset);
}

// ---------------------------------------------------------------------------
// Textures and views
// ---------------------------------------------------------------------------

#[test]
fn textures_are_planned_and_judged() {
    let desc = TextureDesc {
        texture_type: TextureType::CubeArray,
        extent: U32x3 { x: 64, y: 64, z: 1 },
        layer_count: 12,
        mip_levels: 7,
        mutable_format: true,
        usage: TextureUsage::SAMPLED() | TextureUsage::TRANSFER_DESTINATION(),
        ..TextureDesc::default()
    };
    let plan = create_texture(&desc).unwrap();
    assert_eq!(plan.image_type.code(), vk::ImageType::TYPE_2D.as_raw());
    assert_eq!(
        plan.flags.0,
        (vk::ImageCreateFlags::CUBE_COMPATIBLE | vk::ImageCreateFlags::MUTABLE_FORMAT).as_raw()
    );
    assert_eq!(
        plan.usage,
        (vk::ImageUsageFlags::SAMPLED | vk::ImageUsageFlags::TRANSFER_DST).as_raw()
    );
    assert_eq!(plan.desc, desc);
    let state = state(1);
    let limits = ImageLimits {
        max_extent: U32x3 { x: 64, y: 64, z: 1 },
        max_mip_levels: 7,
        max_array_layers: 12,
    };
    assert!(texture_support(&state, &desc, Ok(limits)).is_ok());
    for scarce in [
        ImageLimits { max_extent: U32x3 { x: 63, y: 64, z: 1 }, ..limits },
        ImageLimits { max_extent: U32x3 { x: 64, y: 63, z: 1 }, ..limits },
        ImageLimits { max_mip_levels: 6, ..limits },
        ImageLimits { max_array_layers: 11, ..limits },
    ] {
        assert_eq!(
            refusal(texture_support(&state, &desc, Ok(scarce))),
            "unsupported: texture extent, mip count or array size exceeds device limits"
        );
    }
    let missing = vk::Result::ERROR_FORMAT_NOT_SUPPORTED;
    let message = "unsupported: card: Rgba8Unorm with TextureUsage(33)";
    assert_eq!(refusal(texture_support(&state, &desc, Err(missing))), message);
    assert_eq!(
        refusal(judge_texture_support(&state, &desc, Err((missing.as_raw(), missing)))),
        message
    );
    assert_eq!(
        refusal(texture_support(&state, &desc, Err(vk::Result::ERROR_DEVICE_LOST))),
        "DeviceLost"
    );
}

#[test]
fn undefined_formats_are_not_asked_for() {
    assert!(supports_texture_format(Format::Undefined, TextureUsage::SAMPLED()).is_none());
    assert!(supports_texture_format(Format::R8Unorm, TextureUsage::NONE()).is_none());
    let query = supports_texture_format(Format::R8Unorm, TextureUsage::STORAGE()).unwrap();
    assert_eq!(query.format, Format::R8Unorm);
    assert_eq!(query.usage, vk::ImageUsageFlags::STORAGE.as_raw());
}

fn texture(state: &Rc<DeviceState>, desc: TextureDesc) -> Texture {
    Texture::created(state.clone(), 500, desc)
}

#[test]
fn views_cover_what_remains() {
    let state = state(1);
    let cubes = texture(
        &state,
        TextureDesc {
            texture_type: TextureType::CubeArray,
            extent: U32x3 { x: 16, y: 16, z: 1 },
            mip_levels: 5,
            layer_count: 18,
            ..TextureDesc::default()
        },
    );
    let all = create_texture_view(&cubes, &TextureDescriptorDesc::default()).unwrap();
    assert_eq!(all.view_type, ViewType::CubeArray);
    assert_eq!(all.format, Format::Rgba8Unorm);
    assert_eq!(all.subresources.level_count, 5);
    assert_eq!(all.subresources.layer_count, 18);
    assert_eq!(all.extent, U32x2 { x: 16, y: 16 });
    let part = TextureDescriptorDesc {
        base_mip: 3,
        base_layer: 6,
        layer_count: 6,
        ..TextureDescriptorDesc::default()
    };
    let cube = create_texture_view(&cubes, &part).unwrap();
    assert_eq!(cube.view_type, ViewType::Cube);
    assert_eq!(cube.subresources.base_mip_level, 3);
    assert_eq!(cube.subresources.level_count, 2);
    assert_eq!(cube.extent, U32x2 { x: 2, y: 2 });
    let skewed = TextureDescriptorDesc { base_layer: 5, ..part };
    assert_eq!(create_texture_view(&cubes, &skewed).unwrap().view_type, ViewType::TwoDArray);
    let flat = create_render_view(&cubes, &RenderViewDesc { mip_level: 4, slice: 7 }).unwrap();
    assert_eq!(flat.view_type, ViewType::TwoD);
    assert_eq!(flat.subresources.level_count, 1);
    assert_eq!(flat.subresources.base_array_layer, 7);
    assert_eq!(flat.subresources.layer_count, 1);
    assert_eq!(flat.extent, U32x2 { x: 1, y: 1 });
}

#[test]
fn each_view_error_has_its_input() {
    let state = state(1);
    let plain = texture(&state, TextureDesc::default());
    let desc = TextureDescriptorDesc::default();
    let copied = texture(
        &state,
        TextureDesc { usage: TextureUsage::TRANSFER_SOURCE(), ..TextureDesc::default() },
    );
    assert_eq!(
        refusal(create_texture_view(&copied, &desc)),
        invalid("transfer-only textures cannot have image views")
    );
    assert_eq!(
        refusal(create_texture_view(&plain, &TextureDescriptorDesc { base_mip: 1, ..desc })),
        invalid("view base subresource out of bounds")
    );
    assert_eq!(
        refusal(create_texture_view(&plain, &TextureDescriptorDesc { mip_count: 2, ..desc })),
        invalid("view subresource range out of bounds")
    );
    let other = TextureDescriptorDesc { format: Format::Rgba8Srgb, ..desc };
    assert_eq!(
        refusal(create_texture_view(&plain, &other)),
        invalid("use create_reinterpreted_texture_view for format reinterpretation")
    );
    assert_eq!(
        refusal(create_reinterpreted_texture_view(&plain, &other)),
        invalid("texture was not created with mutable_format")
    );
    let mutable = texture(
        &state,
        TextureDesc { mutable_format: true, ..TextureDesc::default() },
    );
    assert_eq!(
        create_reinterpreted_texture_view(&mutable, &other).unwrap().format,
        Format::Rgba8Srgb
    );
    assert_eq!(
        refusal(create_texture_view(
            &plain,
            &TextureDescriptorDesc { aspect: TextureAspect::Depth, ..desc }
        )),
        invalid("view aspect is incompatible with texture format")
    );
    let volume = texture(
        &state,
        TextureDesc { texture_type: TextureType::ThreeD, ..TextureDesc::default() },
    );
    assert_eq!(
        refusal(create_render_view(&volume, &RenderViewDesc::default())),
        "unsupported: attachment views require 2D textures or cube/array slices"
    );
    assert_eq!(create_texture_view(&volume, &desc).unwrap().view_type, ViewType::ThreeD);
}

fn view_of(texture: &Texture, desc: &TextureDescriptorDesc) -> RenderView {
    RenderView::created(texture, create_texture_view(texture, desc).unwrap(), 3, 900)
}

#[test]
fn views_remember_their_texture() {
    let source = texture(&state(1), TextureDesc::default());
    let view = view_of(&source, &TextureDescriptorDesc::default());
    assert_eq!(view.texture().image(), 500);
    assert_eq!(view.texture().clone().description(), source.description());
    assert_eq!((view.id(), view.raw()), (3, 900));
    assert_eq!(view.extent(), U32x2 { x: 1, y: 1 });
    assert_eq!(view.texture().state().id, 1);
}

#[test]
fn samplers_are_planned_in_vulkan_numbers() {
    let state = state(1);
    let plan = create_sampler(
        &state,
        &SamplerDesc {
            min_filter: Filter::Nearest,
            mip_filter: Filter::Nearest,
            address_v: AddressMode::MirroredRepeat,
            address_w: AddressMode::ClampToEdge,
            anisotropic: true,
            compare_enabled: true,
            compare: CompareOp::Greater,
            ..SamplerDesc::default()
        },
    )
    .unwrap();
    assert_eq!(plan.min_filter, vk::Filter::NEAREST.as_raw());
    assert_eq!(plan.mag_filter, vk::Filter::LINEAR.as_raw());
    assert_eq!(plan.mipmap_mode, vk::SamplerMipmapMode::NEAREST.as_raw());
    assert_eq!(plan.address_u, vk::SamplerAddressMode::REPEAT.as_raw());
    assert_eq!(plan.address_v, vk::SamplerAddressMode::MIRRORED_REPEAT.as_raw());
    assert_eq!(plan.address_w, vk::SamplerAddressMode::CLAMP_TO_EDGE.as_raw());
    assert_eq!(plan.compare_op, vk::CompareOp::GREATER.as_raw());
    assert_eq!(plan.max_anisotropy.0, 16.0_f32.to_bits());
    assert!(plan.anisotropic && plan.compare_enabled);
    let mut without = candidate("card");
    without.base.sampler_anisotropy = false;
    let without = state_with(1, false, without);
    let wanted = SamplerDesc { anisotropic: true, ..SamplerDesc::default() };
    assert_eq!(refusal(create_sampler(&without, &wanted)), "unsupported: samplerAnisotropy");
}

#[test]
fn texture_descriptors_are_written_to_their_slot() {
    let state = state(1);
    let descriptor_heap = |state: &Rc<DeviceState>, kind| {
        let plan = create_texture_descriptor_heap(state, kind).unwrap();
        GpuHeap::allocated(state.clone(), &plan, 1, 0, true)
    };
    let sampled = descriptor_heap(&state, TextureDescriptorType::Sampled);
    let storage = descriptor_heap(&state, TextureDescriptorType::Storage);
    let both = TextureUsage::SAMPLED() | TextureUsage::STORAGE();
    let mips = TextureDesc {
        extent: U32x3 { x: 4, y: 4, z: 1 },
        mip_levels: 2,
        usage: both,
        ..TextureDesc::default()
    };
    let source = texture(&state, mips);
    let all = view_of(&source, &TextureDescriptorDesc::default());
    let write = write_texture_descriptor(&sampled, 2, &all).unwrap();
    assert_eq!(write.set, 0);
    assert_eq!(write.layout, TextureLayout::Sampled);
    assert_eq!(write.slot, HeapSpan { offset: 64 + 64, size: 32 });
    let single = TextureDescriptorDesc { mip_count: 1, ..TextureDescriptorDesc::default() };
    let level = view_of(&source, &single);
    let write = write_texture_descriptor(&storage, 2, &level).unwrap();
    assert_eq!(write.set, 1);
    assert_eq!(write.layout, TextureLayout::General);
    assert_eq!(write.slot, HeapSpan { offset: 96, size: 48 });
    assert_eq!(
        refusal(write_texture_descriptor(&storage, 2, &all)),
        invalid("storage image views need exactly one mip level")
    );
    assert_eq!(
        refusal(write_texture_descriptor(&sampled, 1024, &all)),
        invalid("descriptor index out of bounds")
    );
    assert_eq!(
        refusal(write_texture_descriptor(&heap(&state, 64, true), 0, &all)),
        invalid("not a texture descriptor heap")
    );
    let foreign = descriptor_heap(&Rc::new(state_with(2, false, candidate("card"))),
        TextureDescriptorType::Sampled);
    assert_eq!(
        refusal(write_texture_descriptor(&foreign, 0, &all)),
        invalid("resources belong to different devices")
    );
    let depth = texture(
        &state,
        TextureDesc { format: Format::D24UnormS8Uint, ..TextureDesc::default() },
    );
    assert_eq!(
        refusal(write_texture_descriptor(
            &sampled,
            0,
            &view_of(&depth, &TextureDescriptorDesc::default())
        )),
        invalid("descriptor view usage/aspect is incompatible")
    );
    let aspect = TextureDescriptorDesc {
        aspect: TextureAspect::Depth,
        ..TextureDescriptorDesc::default()
    };
    assert!(write_texture_descriptor(&sampled, 0, &view_of(&depth, &aspect)).is_ok());
}

#[test]
fn sampler_descriptors_are_written_to_their_slot() {
    let state = state(1);
    let plan = create_sampler_descriptor_heap(&state).unwrap();
    let samplers = GpuHeap::allocated(state.clone(), &plan, 1, 0, true);
    let sampler = Sampler { state: state.clone(), raw: 8 };
    assert_eq!(
        write_sampler_descriptor(&samplers, 5, &sampler).unwrap(),
        HeapSpan { offset: 80, size: 16 }
    );
    let message = invalid("sampler descriptor heap, index or device mismatch");
    assert_eq!(refusal(write_sampler_descriptor(&samplers, 1024, &sampler)), message);
    assert_eq!(
        refusal(write_sampler_descriptor(&heap(&state, 64, true), 0, &sampler)),
        message
    );
    let foreign = Sampler { state: Rc::new(state_with(2, false, candidate("card"))), raw: 8 };
    assert_eq!(refusal(write_sampler_descriptor(&samplers, 0, &foreign)), message);
}

// ---------------------------------------------------------------------------
// Swapchains
// ---------------------------------------------------------------------------

fn windowed() -> GpuDevice {
    let state = Rc::new(state_with(1, true, candidate("card")));
    GpuDevice::new(state, &desc(true), [101, 102], 103)
}

fn surface() -> SurfaceCaps {
    SurfaceCaps {
        current_extent: U32x2 { x: 800, y: 600 },
        min_extent: U32x2 { x: 1, y: 1 },
        max_extent: U32x2 { x: 1000, y: 1000 },
        min_image_count: 3,
        max_image_count: 0,
        supported_usage: vk::ImageUsageFlags::COLOR_ATTACHMENT.as_raw(),
        supported_alpha: vk::CompositeAlphaFlagsKHR::OPAQUE.as_raw(),
    }
}

fn surface_formats(format: vk::Format) -> Vec<SurfaceFormat> {
    vec![
        SurfaceFormat {
            format: vk::Format::B8G8R8A8_SRGB.as_raw(),
            color_space: vk::ColorSpaceKHR::DISPLAY_P3_NONLINEAR_EXT.as_raw(),
        },
        SurfaceFormat {
            format: format.as_raw(),
            color_space: vk::ColorSpaceKHR::SRGB_NONLINEAR.as_raw(),
        },
    ]
}

fn plan(device: &GpuDevice) -> SwapchainPlan {
    let extent = U32x2 { x: 800, y: 600 };
    plan_swapchain(device, extent, &surface(), &surface_formats(vk::Format::B8G8R8A8_SRGB))
        .unwrap()
}

fn install(device: &mut GpuDevice, plan: &SwapchainPlan) {
    retire_swapchain(device);
    let mut views = Vec::new();
    for index in 0..3 {
        let image = Texture::created(device.state().clone(), 600 + index, image_desc(plan));
        let view = create_render_view(&image, &RenderViewDesc::default()).unwrap();
        views.push(Rc::new(RenderView::created(&image, view, 700 + index, 800 + index)));
    }
    install_swapchain(device, plan, views);
    for index in 0..3 {
        add_present_semaphore(device, 900 + index);
    }
    complete_swapchain(device);
}

#[test]
fn drawable_extents_come_from_the_surface() {
    assert_eq!(get_drawable_extent(None), DrawableExtent::Known(U32x2::default()));
    assert_eq!(
        get_drawable_extent(Some(U32x2 { x: 0, y: 5 })),
        DrawableExtent::Known(U32x2::default())
    );
    let window = U32x2 { x: 1200, y: 5 };
    assert_eq!(get_drawable_extent(Some(window)), DrawableExtent::AskSurface(window));
    assert_eq!(surface_extent(window, &surface()), U32x2 { x: 800, y: 600 });
    let open = SurfaceCaps {
        current_extent: U32x2 { x: u32::MAX, y: u32::MAX },
        min_extent: U32x2 { x: 10, y: 10 },
        ..surface()
    };
    assert_eq!(surface_extent(window, &open), U32x2 { x: 1000, y: 10 });
    assert!(check_extent(window).is_ok());
    assert_eq!(refusal(check_extent(U32x2 { x: 1, y: 0 })), "WindowMinimized");
}

#[test]
fn swapchains_follow_the_surface() {
    let device = windowed();
    let chosen = plan(&device);
    assert_eq!(chosen.extent, U32x2 { x: 800, y: 600 });
    assert_eq!(chosen.format, Format::Bgra8Srgb);
    assert_eq!(chosen.color_space, vk::ColorSpaceKHR::SRGB_NONLINEAR.as_raw());
    assert_eq!(chosen.image_count, 3);
    assert_eq!(chosen.alpha, vk::CompositeAlphaFlagsKHR::OPAQUE.as_raw());
    let image = image_desc(&chosen);
    assert_eq!(image.extent, U32x3 { x: 800, y: 600, z: 1 });
    assert_eq!(image.usage, TextureUsage::COLOR_ATTACHMENT());
    let caps = SurfaceCaps {
        min_image_count: 1,
        max_image_count: 1,
        supported_alpha: (vk::CompositeAlphaFlagsKHR::INHERIT
            | vk::CompositeAlphaFlagsKHR::POST_MULTIPLIED)
            .as_raw(),
        ..surface()
    };
    let any = surface_formats(vk::Format::UNDEFINED);
    let other = plan_swapchain(&device, chosen.extent, &caps, &any).unwrap();
    assert_eq!(other.image_count, 1);
    assert_eq!(other.format, Format::Bgra8Srgb);
    assert_eq!(other.alpha, vk::CompositeAlphaFlagsKHR::POST_MULTIPLIED.as_raw());
    assert_eq!(
        refusal(plan_swapchain(
            &device,
            chosen.extent,
            &surface(),
            &surface_formats(vk::Format::R8_UNORM)
        )),
        "unsupported: surface does not support Bgra8Srgb / SRGB_NONLINEAR"
    );
    let unusable = SurfaceCaps { supported_usage: 0, ..surface() };
    assert_eq!(
        refusal(plan_swapchain(
            &device,
            chosen.extent,
            &unusable,
            &surface_formats(vk::Format::B8G8R8A8_SRGB)
        )),
        "unsupported: swapchain color attachments"
    );
}

#[test]
fn headless_devices_have_no_swapchain() {
    let device = GpuDevice::new(state(1), &desc(false), [1, 2], 3);
    let message = "unsupported: headless device has no swapchain";
    assert_eq!(refusal(recreate_swapchain(&device)), message);
    assert!(acquire(&device).is_ok());
    assert_eq!(refusal(plan_acquire(&device, U32x2::default())), message);
    assert_eq!(get_device_caps(&device).device_name, "card");
}

#[test]
fn devices_of_minimized_windows_are_created() {
    assert_eq!(accept_first_swapchain(Ok(())), Ok(()));
    assert_eq!(accept_first_swapchain(Err(GpuError::WindowMinimized)), Ok(()));
    assert_eq!(
        accept_first_swapchain(Err(GpuError::SurfaceLost)),
        Err(GpuError::SurfaceLost)
    );
    assert_eq!(
        accept_first_swapchain(Err(GpuError::Unsupported("no format".to_owned()))),
        Err(GpuError::Unsupported("no format".to_owned()))
    );
}

#[test]
fn frames_are_acquired_one_at_a_time() {
    let mut device = windowed();
    let extent = U32x2 { x: 800, y: 600 };
    assert_eq!(refusal(plan_acquire(&device, extent)), "OutOfDate");
    let chosen = plan(&device);
    install(&mut device, &chosen);
    assert_eq!(device.image_total(), 3);
    assert_eq!(device.extent(), extent);
    assert_eq!(device.generation(), 1);
    assert_eq!(device.image_view(2).raw(), 802);
    assert_eq!(device.present_semaphore(1), 901);
    assert_eq!((device.acquire_semaphore(0), device.acquire_semaphore(1)), (101, 102));
    assert_eq!(device.retirement(), 103);
    assert!(acquire(&device).is_ok());
    assert_eq!(refusal(plan_acquire(&device, U32x2::default())), "WindowMinimized");
    assert_eq!(refusal(plan_acquire(&device, U32x2 { x: 801, y: 600 })), "OutOfDate");
    let first = plan_acquire(&device, extent).unwrap();
    assert_eq!(
        first,
        AcquirePlan { slot: 0, retirement_value: 0, wait_for_fence: false }
    );
    fence_reset(&mut device, &first);
    assert!(!device.is_acquire_pending(0));
    let frame = image_acquired(&mut device, &first, 2, true);
    assert!(device.is_acquire_pending(0) && !device.is_acquire_pending(1));
    assert_eq!(frame.image_index(), 2);
    assert_eq!(frame.view_id(), 702);
    assert!(frame.is_suboptimal());
    assert_eq!(frame.generation(), 2);
    assert_eq!(frame.extent, extent);
    assert_eq!(device.active(), Some((2, 0)));
    assert_eq!(refusal(acquire(&device)), invalid("a frame is already acquired"));
    assert_eq!(
        refusal(recreate_swapchain(&device)),
        invalid("present the acquired frame before resizing")
    );
}

#[test]
fn failed_presents_ask_for_a_new_swapchain() {
    let mut device = windowed();
    let chosen = plan(&device);
    install(&mut device, &chosen);
    assert!(recreate_swapchain(&device).is_ok());
    present_failed(&mut device);
    assert_eq!(refusal(acquire(&device)), "OutOfDate");
    let chosen = plan(&device);
    install(&mut device, &chosen);
    assert!(acquire(&device).is_ok());
    assert_eq!(device.generation(), 2);
    // A swapchain that lacks a semaphore cannot be acquired from.
    retire_swapchain(&mut device);
    install_swapchain(&mut device, &chosen, vec![device_view(&chosen)]);
    complete_swapchain(&mut device);
    assert_eq!(refusal(plan_acquire(&device, chosen.extent)), "OutOfDate");
}

fn device_view(plan: &SwapchainPlan) -> Rc<RenderView> {
    let image = Texture::created(state(1), 1, image_desc(plan));
    let view = create_render_view(&image, &RenderViewDesc::default()).unwrap();
    Rc::new(RenderView::created(&image, view, 1, 1))
}
