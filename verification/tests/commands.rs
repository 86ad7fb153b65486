use no_graphics_api::frame_loop::{
    AcquireOutcome, LoopOptions, LoopStep, PresentOutcome, after_acquire, after_present,
    after_redraw, command_slot,
};
use no_graphics_api::swapchain::{
    add_present_semaphore, complete_swapchain, fence_reset, image_acquired, image_desc,
    install_swapchain, retire_swapchain,
};
use no_graphics_api::{
    Access, Barrier, BaseFeatures, BindPoint, BlendComponentState, BlendFactor, BlendOp, BlendState,
    BufferCopy, Candidate, ClearColor, ColorAttachment, ColorTargetDesc, CommandBuffer,
    CommandStatus, CompareOp, CullMode, DepthAttachment, DepthStencilState, DescriptorProperties,
    DeviceDesc, DeviceLimits, DeviceState, DeviceType, DrawCall, F32Bits, Format, FormatSupport,
    GpuDevice, GpuError, GpuHeap, GraphicsPSODesc, HeapBindings, IndexType, LoadOp, MemoryType,
    MeshLimits, MeshPSODesc, PSO, QueueFamily, RasterizationState, RenderView, RenderViewDesc,
    RenderingDesc, ResetAction, Scissor, Stage, StencilAttachment, StencilFaceState, StencilOp,
    StoreOp, SubmitAction, SwapchainFrame, SwapchainPlan, TargetSupport, Texture, TextureAspect,
    TextureCopyDesc, TextureDesc, TextureDescriptorDesc, TextureDescriptorType, TextureLayout, TextureType, TextureUsage,
    TimelineSemaphore, U32x2, U32x3, VULKAN_API_VERSION, Viewport, Vulkan12Features,
    Vulkan13Features, acquire, barrier, begin_command, begin_render_pass, bind_descriptor_heaps,
    bind_pso, copy_memory, copy_memory_to_texture, copy_texture_to_memory, create_compute_pso,
    create_gpu_heap, create_graphics_pso, create_mesh_pso, create_render_view,
    create_sampler_descriptor_heap, create_texture_descriptor_heap, create_texture_view, dispatch, draw, draw_indexed,
    draw_mesh, end_render_pass, finish_pipeline, mask_timestamps, plan_acquire, presented,
    push_constants, read_timestamps, reset_command, reset_continue, select_device, set_scissor,
    set_viewport, spirv_words, submit, submit_and_present, submit_continue, submitted,
    timestamp_mask, validate_spirv, vk, wait_command, write_timestamp,
};
use std::rc::Rc;

fn refusal<T>(result: Result<T, GpuError>) -> String {
    match result {
        Err(error) => error.message(),
        Ok(_) => "accepted".to_string(),
    }
}

fn invalid(message: &str) -> String {
    format!("invalid argument: {message}")
}

fn limits() -> DeviceLimits {
    DeviceLimits {
        max_framebuffer_width: 4096,
        max_framebuffer_height: 4096,
        max_viewport_width: 4096,
        max_viewport_height: 4096,
        viewport_bounds_low: F32Bits((-8192.0_f32).to_bits()),
        viewport_bounds_high: F32Bits(8191.0_f32.to_bits()),
        max_compute_work_group_count: U32x3 { x: 8, y: 8, z: 8 },
        max_push_constants_size: 128,
        max_color_attachments: 8,
        max_sampler_anisotropy: F32Bits(16.0_f32.to_bits()),
        buffer_image_granularity: 64,
        timestamp_period: F32Bits::ONE(),
        sub_texel_precision_bits: 8,
        max_per_stage_descriptor_sampled_images: 4096,
        max_per_stage_descriptor_storage_images: 4096,
        max_per_stage_descriptor_samplers: 4096,
        max_descriptor_set_sampled_images: 4096,
        max_descriptor_set_storage_images: 4096,
        max_descriptor_set_samplers: 4096,
        max_per_stage_resources: 12288,
    }
}

fn candidate(name: &str) -> Candidate {
    Candidate {
        name: name.to_string(),
        api_version: VULKAN_API_VERSION,
        device_type: DeviceType::Integrated,
        extensions: vec![
            "VK_EXT_descriptor_buffer".to_string(),
            "VK_KHR_swapchain".to_string(),
        ],
        base: BaseFeatures {
            shader_int64: true,
            independent_blend: true,
            image_cube_array: true,
            fragment_stores_and_atomics: true,
            vertex_pipeline_stores_and_atomics: true,
            shader_storage_image_extended_formats: true,
            sampler_anisotropy: true,
            texture_compression_bc: true,
            texture_compression_astc_ldr: false,
        },
        features12: Vulkan12Features {
            buffer_device_address: true,
            timeline_semaphore: true,
            runtime_descriptor_array: true,
            descriptor_binding_partially_bound: true,
            shader_sampled_image_array_non_uniform_indexing: true,
            shader_storage_image_array_non_uniform_indexing: true,
        },
        features13: Vulkan13Features {
            dynamic_rendering: true,
            synchronization2: true,
            maintenance4: true,
        },
        descriptor_buffer: true,
        mesh_shader: false,
        families: vec![
            QueueFamily { flags: 2, queue_count: 4, timestamp_valid_bits: 0, presents: true },
            QueueFamily { flags: 7, queue_count: 1, timestamp_valid_bits: 36, presents: true },
        ],
        limits: limits(),
    }
}

fn properties() -> DescriptorProperties {
    DescriptorProperties {
        max_descriptor_buffer_bindings: 3,
        max_resource_descriptor_buffer_bindings: 2,
        max_sampler_descriptor_buffer_bindings: 1,
        descriptor_buffer_offset_alignment: 64,
        sampled_image_descriptor_size: 32,
        storage_image_descriptor_size: 48,
        sampler_descriptor_size: 16,
        max_sampler_descriptor_buffer_range: 1 << 20,
        max_resource_descriptor_buffer_range: 1 << 20,
    }
}

fn desc(windowed: bool) -> DeviceDesc {
    DeviceDesc {
        windowed,
        ..DeviceDesc::default()
    }
}

fn state_with(id: u64, windowed: bool, candidate: Candidate) -> DeviceState {
    let desc = desc(windowed);
    let selection = select_device(&desc, &vec![candidate]).unwrap();
    let mut state =
        DeviceState::new(id, &desc, selection, &properties(), MeshLimits::default(), 9).unwrap();
    for (set, size) in [(0, 32 * 1024 + 64), (1, 48 * 1024), (2, 16 * 1024)] {
        let offset = if set == 0 { 64 } else { 0 };
        state
            .set_heap_layout(&properties(), set, size, offset)
            .unwrap();
    }
    state
}

fn state(id: u64) -> Rc<DeviceState> {
    Rc::new(state_with(id, false, candidate("card")))
}

fn meshing(id: u64) -> Rc<DeviceState> {
    let mut candidate = candidate("card");
    candidate.mesh_shader = true;
    let mut state = state_with(id, false, candidate);
    state.mesh_limits = MeshLimits {
        max_mesh_work_group_count: U32x3 { x: 8, y: 8, z: 8 },
        max_mesh_work_group_total_count: 100,
    };
    Rc::new(state)
}

fn reset(command: &mut CommandBuffer) {
    let mut action = reset_command(command);
    while action != ResetAction::Done {
        action = reset_continue(command, action, Ok(())).unwrap();
    }
}

fn recording(state: &Rc<DeviceState>) -> CommandBuffer {
    let mut command = begin_command(state.clone());
    reset(&mut command);
    command
}

fn run_submission(command: &mut CommandBuffer, first: SubmitAction) {
    let mut action = first;
    while action != SubmitAction::Done {
        action = submit_continue(command, action, Ok(())).unwrap();
    }
}

fn device(state: &Rc<DeviceState>) -> GpuDevice {
    GpuDevice::new(state.clone(), &desc(state.windowed), [101, 102], 103)
}

fn pso(state: &Rc<DeviceState>, bind_point: BindPoint, mesh: bool) -> PSO {
    PSO { state: state.clone(), raw: 5, bind_point, mesh }
}

fn heap(state: &Rc<DeviceState>, size: u64, buffer: u64) -> GpuHeap {
    let plan = create_gpu_heap(state, size, MemoryType::CpuVisible).unwrap();
    GpuHeap::allocated(state.clone(), &plan, buffer, 0x1000, true)
}

fn target(state: &Rc<DeviceState>, format: Format, usage: TextureUsage) -> Texture {
    Texture::created(
        state.clone(),
        500,
        TextureDesc {
            extent: U32x3 { x: 64, y: 32, z: 1 },
            format,
            usage,
            ..TextureDesc::default()
        },
    )
}

fn view(texture: &Texture, raw: u64) -> RenderView {
    let plan = create_render_view(texture, &RenderViewDesc::default()).unwrap();
    RenderView::created(texture, plan, raw, raw)
}

const EXTENT: U32x2 = U32x2 { x: 64, y: 32 };

fn open_pass(command: &mut CommandBuffer) {
    assert!(begin_render_pass(command, &RenderingDesc::default(), EXTENT).is_ok());
}

// ---------------------------------------------------------------------------
// The life of a command
// ---------------------------------------------------------------------------

#[test]
fn resets_start_a_fresh_recording() {
    let state = state(1);
    let mut command = begin_command(state.clone());
    assert_eq!(command.status(), CommandStatus::Initial);
    assert!(command.has_queries());
    assert_eq!(command.query_total(), 256);
    assert_eq!(reset_command(&command), ResetAction::ResetPool);
    assert_eq!(
        reset_continue(&mut command, ResetAction::ResetPool, Ok(())),
        Ok(ResetAction::Begin)
    );
    assert_eq!(
        reset_continue(&mut command, ResetAction::Begin, Ok(())),
        Ok(ResetAction::ResetQueries(256))
    );
    assert_eq!(command.status(), CommandStatus::Recording);
    assert_eq!(
        reset_continue(&mut command, ResetAction::ResetQueries(256), Ok(())),
        Ok(ResetAction::Done)
    );
    assert!(write_timestamp(&mut command, 3, Stage::COMPUTE()).is_ok());
    bind_pso(&mut command, &pso(&state, BindPoint::Compute, false)).unwrap();
    open_pass(&mut command);
    assert!(command.is_rendering() && command.is_written(3));
    reset(&mut command);
    assert!(!command.is_rendering() && !command.is_written(3));
    assert_eq!(command.bound(), None);
}

#[test]
fn failed_resets_change_nothing() {
    let state = state(1);
    let mut command = recording(&state);
    let plan = submit(&device(&state), &command, &[], &[]).unwrap();
    run_submission(&mut command, plan.first);
    assert_eq!(command.status(), CommandStatus::Pending);
    assert!(wait_command(&command));
    assert_eq!(reset_command(&command), ResetAction::WaitForFence);
    assert_eq!(
        reset_continue(&mut command, ResetAction::WaitForFence, Err(vk::Result::TIMEOUT)),
        Err(GpuError::Timeout)
    );
    assert_eq!(command.status(), CommandStatus::Pending);
    assert_eq!(
        reset_continue(&mut command, ResetAction::WaitForFence, Ok(())),
        Ok(ResetAction::ResetPool)
    );
    assert_eq!(command.status(), CommandStatus::Pending);
    assert_eq!(
        reset_continue(&mut command, ResetAction::ResetPool, Ok(())),
        Ok(ResetAction::Begin)
    );
    assert_eq!(
        reset_continue(&mut command, ResetAction::Begin, Err(vk::Result::ERROR_DEVICE_LOST)),
        Err(GpuError::DeviceLost)
    );
    assert_eq!(command.status(), CommandStatus::Initial);
    assert!(!wait_command(&command));
}

#[test]
fn submitted_commands_have_to_be_reset() {
    let state = state(1);
    let device = device(&state);
    let mut command = recording(&state);
    let plan = submit(&device, &command, &[], &[]).unwrap();
    assert_eq!(plan.first, SubmitAction::EndRecording);
    assert_eq!(
        submit_continue(&mut command, SubmitAction::EndRecording, Ok(())),
        Ok(SubmitAction::ResetFence)
    );
    assert_eq!(command.status(), CommandStatus::Executable);
    // A failed submission can be tried again without recording anew.
    let again = submit(&device, &command, &[], &[]).unwrap();
    assert_eq!(again.first, SubmitAction::ResetFence);
    assert_eq!(
        submit_continue(&mut command, SubmitAction::ResetFence, Ok(())),
        Ok(SubmitAction::Submit)
    );
    assert_eq!(
        submit_continue(
            &mut command,
            SubmitAction::Submit,
            Err(vk::Result::ERROR_OUT_OF_DEVICE_MEMORY)
        ),
        Err(GpuError::DriverError(vk::Result::ERROR_OUT_OF_DEVICE_MEMORY))
    );
    assert_eq!(command.status(), CommandStatus::Executable);
    assert_eq!(
        submit_continue(&mut command, SubmitAction::Submit, Ok(())),
        Ok(SubmitAction::Done)
    );
    assert_eq!(command.status(), CommandStatus::Pending);
    assert_eq!(
        refusal(submit(&device, &command, &[], &[])),
        invalid("command must be recorded before submission")
    );
    assert_eq!(
        refusal(command.recording(false)),
        invalid("command is not recording; call reset_command")
    );
}

#[test]
fn submissions_are_checked() {
    let state = state(1);
    let device = device(&state);
    let mut command = recording(&state);
    let first = TimelineSemaphore { state: state.clone(), raw: 41 };
    let second = TimelineSemaphore { state: state.clone(), raw: 42 };
    let plan = submit(
        &device,
        &command,
        &[(&first, 7, Stage::TRANSFER()), (&second, 8, Stage::COMPUTE())],
        &[(&first, 9, Stage::ALL_COMMANDS())],
    )
    .unwrap();
    assert_eq!(plan.waits.len(), 2);
    assert_eq!((plan.waits[1].semaphore, plan.waits[1].value), (42, 8));
    assert_eq!(plan.waits[0].stage, vk::PipelineStageFlags2::ALL_TRANSFER);
    assert_eq!((plan.signals[0].semaphore, plan.signals[0].value), (41, 9));
    assert_eq!(
        refusal(submit(
            &device,
            &command,
            &[(&first, 7, Stage::TRANSFER()), (&first, 8, Stage::COMPUTE())],
            &[]
        )),
        invalid("duplicate semaphore in wait/signal list")
    );
    for stage in [Stage::NONE(), Stage::HOST() | Stage::COMPUTE(), Stage::MESH()] {
        assert_eq!(
            refusal(submit(&device, &command, &[], &[(&first, 1, stage)])),
            invalid("invalid semaphore pipeline stage")
        );
    }
    let elsewhere = Rc::new(state_with(2, false, candidate("card")));
    let foreign = TimelineSemaphore { state: elsewhere.clone(), raw: 43 };
    assert_eq!(
        refusal(submit(&device, &command, &[(&foreign, 1, Stage::COMPUTE())], &[])),
        invalid("timeline belongs to a different device")
    );
    assert_eq!(
        refusal(submit(&device, &recording(&elsewhere), &[], &[])),
        invalid("resources belong to different devices")
    );
    open_pass(&mut command);
    assert_eq!(
        refusal(submit(&device, &command, &[], &[])),
        invalid("end_render_pass before submitting")
    );
}

// ---------------------------------------------------------------------------
// Frames
// ---------------------------------------------------------------------------

fn windowed_state() -> Rc<DeviceState> {
    Rc::new(state_with(1, true, candidate("card")))
}

fn rebuild(device: &mut GpuDevice) {
    let plan = SwapchainPlan {
        extent: EXTENT,
        format: Format::Bgra8Srgb,
        color_space: 0,
        image_count: 2,
        alpha: 1,
    };
    retire_swapchain(device);
    let mut views = Vec::new();
    for index in 0..2 {
        let image = Texture::created(device.state().clone(), 600 + index, image_desc(&plan));
        views.push(Rc::new(view(&image, 800 + index)));
    }
    install_swapchain(device, &plan, views);
    add_present_semaphore(device, 900);
    add_present_semaphore(device, 901);
    complete_swapchain(device);
}

fn with_swapchain(state: &Rc<DeviceState>) -> GpuDevice {
    let mut device = device(state);
    rebuild(&mut device);
    device
}

fn take_frame(device: &mut GpuDevice, index: u32, suboptimal: bool) -> SwapchainFrame {
    assert!(acquire(device).is_ok());
    let plan = plan_acquire(device, EXTENT).unwrap();
    fence_reset(device, &plan);
    image_acquired(device, &plan, index, suboptimal)
}

#[test]
fn frames_are_submitted_once() {
    let state = windowed_state();
    let mut device = with_swapchain(&state);
    let frame = take_frame(&mut device, 1, false);
    let mut command = recording(&state);
    let plan = submit_and_present(&device, &command, &frame, &[], &[]).unwrap();
    assert_eq!((plan.image_index, plan.slot, plan.serial), (1, 0, 1));
    assert_eq!(plan.present_ready, 901);
    assert_eq!(plan.submission.waits.len(), 1);
    assert_eq!(plan.submission.waits[0].semaphore, 101);
    assert_eq!(plan.submission.waits[0].stage, vk::PipelineStageFlags2::ALL_COMMANDS);
    assert_eq!(plan.submission.signals[0].semaphore, 901);
    assert_eq!(
        (plan.submission.signals[1].semaphore, plan.submission.signals[1].value),
        (103, 1)
    );
    run_submission(&mut command, plan.submission.first);
    submitted(&mut device, &plan);
    assert_eq!((device.serial(), device.active()), (1, None));
    assert_eq!(presented(&mut device, &frame, Ok(false)), Ok(false));
    let mut other = recording(&state);
    assert_eq!(
        refusal(submit_and_present(&device, &other, &frame, &[], &[])),
        invalid("no acquired frame")
    );
    // The next frame uses the other slot, and the one after it waits.
    let next = take_frame(&mut device, 0, true);
    assert_eq!(
        refusal(submit_and_present(&device, &other, &frame, &[], &[])),
        invalid("stale or foreign swapchain frame")
    );
    let plan = submit_and_present(&device, &other, &next, &[], &[]).unwrap();
    assert_eq!((plan.slot, plan.serial), (1, 2));
    assert_eq!(plan.submission.waits[0].semaphore, 102);
    run_submission(&mut other, plan.submission.first);
    submitted(&mut device, &plan);
    assert_eq!(presented(&mut device, &next, Ok(false)), Ok(true));
    let third = plan_acquire(&device, EXTENT).unwrap();
    assert_eq!((third.slot, third.retirement_value, third.wait_for_fence), (0, 1, true));
}

#[test]
fn submitted_frames_stay_refused() {
    let state = windowed_state();
    let mut device = with_swapchain(&state);
    let mut command = recording(&state);
    let old = take_frame(&mut device, 0, false);
    let plan = submit_and_present(&device, &command, &old, &[], &[]).unwrap();
    run_submission(&mut command, plan.submission.first);
    submitted(&mut device, &plan);
    let idle = recording(&state);
    for round in 0..4 {
        // Every other round has a new swapchain, whose images are named alike.
        if round % 2 == 1 {
            rebuild(&mut device);
        }
        assert_eq!(
            refusal(submit_and_present(&device, &idle, &old, &[], &[])),
            invalid("no acquired frame")
        );
        let next = take_frame(&mut device, 0, false);
        assert_eq!(
            refusal(submit_and_present(&device, &idle, &old, &[], &[])),
            invalid("stale or foreign swapchain frame")
        );
        let mut other = recording(&state);
        let plan = submit_and_present(&device, &other, &next, &[], &[]).unwrap();
        assert_eq!(plan.serial, round + 2);
        run_submission(&mut other, plan.submission.first);
        submitted(&mut device, &plan);
    }
}

#[test]
fn failed_presentations_are_remembered() {
    let state = windowed_state();
    let mut device = with_swapchain(&state);
    let frame = take_frame(&mut device, 0, false);
    let mut command = recording(&state);
    let plan = submit_and_present(&device, &command, &frame, &[], &[]).unwrap();
    run_submission(&mut command, plan.submission.first);
    submitted(&mut device, &plan);
    assert_eq!(
        presented(&mut device, &frame, Err(vk::Result::ERROR_OUT_OF_DATE_KHR)),
        Err(GpuError::OutOfDate)
    );
    assert_eq!(acquire(&device), Err(GpuError::OutOfDate));
}

#[test]
fn frames_of_another_swapchain_are_refused() {
    let state = windowed_state();
    let mut device = with_swapchain(&state);
    let mut twin = with_swapchain(&state);
    let frame = take_frame(&mut device, 0, false);
    let foreign = take_frame(&mut twin, 1, false);
    let command = recording(&state);
    assert!(submit_and_present(&device, &command, &frame, &[], &[]).is_ok());
    assert_eq!(
        refusal(submit_and_present(&device, &command, &foreign, &[], &[])),
        invalid("stale or foreign swapchain frame")
    );
}

// ---------------------------------------------------------------------------
// Barriers and copies
// ---------------------------------------------------------------------------

#[test]
fn barriers_are_sorted_by_kind() {
    let state = state(1);
    let command = recording(&state);
    let heap = heap(&state, 64, 7);
    let depth = Texture::created(
        state.clone(),
        500,
        TextureDesc {
            texture_type: TextureType::TwoDArray,
            extent: U32x3 { x: 4, y: 4, z: 1 },
            mip_levels: 3,
            layer_count: 2,
            format: Format::D24UnormS8Uint,
            usage: TextureUsage::DEPTH_STENCIL_ATTACHMENT(),
            ..TextureDesc::default()
        },
    );
    let compute = (Stage::COMPUTE(), Access::SHADER_WRITE());
    let copy = (Stage::TRANSFER(), Access::TRANSFER_READ());
    let plan = barrier(
        &command,
        &[
            Barrier::Texture {
                texture: &depth,
                before: (Stage::NONE(), Access::NONE(), TextureLayout::Undefined),
                after: (
                    Stage::DEPTH_STENCIL_TESTS(),
                    Access::DEPTH_STENCIL_WRITE(),
                    TextureLayout::DepthStencilAttachment,
                ),
            },
            Barrier::Memory { before: compute, after: copy },
            Barrier::Buffer { range: heap.range(16, 32).unwrap(), before: compute, after: copy },
        ],
    )
    .unwrap();
    assert_eq!((plan.memory.len(), plan.buffers.len(), plan.images.len()), (1, 1, 1));
    assert_eq!(plan.memory[0].src_stage, vk::PipelineStageFlags2::COMPUTE_SHADER);
    assert_eq!(plan.memory[0].src_access, vk::AccessFlags2::SHADER_WRITE);
    assert_eq!(plan.memory[0].dst_stage, vk::PipelineStageFlags2::ALL_TRANSFER);
    assert_eq!(plan.memory[0].dst_access, vk::AccessFlags2::TRANSFER_READ);
    let buffer = &plan.buffers[0];
    assert_eq!((buffer.buffer, buffer.offset, buffer.size), (7, 16, 32));
    let image = &plan.images[0];
    assert_eq!(image.image, 500);
    assert_eq!(image.old_layout, vk::ImageLayout::UNDEFINED);
    assert_eq!(image.new_layout, vk::ImageLayout::DEPTH_STENCIL_ATTACHMENT_OPTIMAL);
    assert_eq!((image.subresources.level_count, image.subresources.layer_count), (3, 2));
    assert_eq!(
        image.subresources.aspect_mask.bits(),
        (vk::ImageAspectFlags::DEPTH | vk::ImageAspectFlags::STENCIL).as_raw()
    );
    assert_eq!(
        refusal(barrier(
            &command,
            &[Barrier::Texture {
                texture: &depth,
                before: (Stage::NONE(), Access::NONE(), TextureLayout::General),
                after: (Stage::NONE(), Access::NONE(), TextureLayout::Undefined),
            }]
        )),
        invalid("cannot transition to UNDEFINED")
    );
    let elsewhere = recording(&Rc::new(state_with(2, false, candidate("card"))));
    assert_eq!(
        refusal(barrier(
            &elsewhere,
            &[Barrier::Buffer { range: heap.range(0, 4).unwrap(), before: compute, after: copy }]
        )),
        invalid("resources belong to different devices")
    );
}

#[test]
fn buffer_copies_are_aligned_and_apart() {
    let state = state(1);
    let command = recording(&state);
    let first = heap(&state, 64, 7);
    let second = heap(&state, 64, 8);
    assert_eq!(
        copy_memory(&command, first.range(4, 16).unwrap(), second.range(8, 16).unwrap()),
        Ok(BufferCopy {
            source: 7,
            destination: 8,
            source_offset: 4,
            destination_offset: 8,
            size: 16,
        })
    );
    let message = invalid("copy ranges need equal sizes and four-byte alignment");
    for (source, destination) in [((0, 16), (0, 12)), ((2, 16), (0, 16)), ((0, 6), (0, 6))] {
        assert_eq!(
            refusal(copy_memory(
                &command,
                first.range(source.0, source.1).unwrap(),
                second.range(destination.0, destination.1).unwrap()
            )),
            message
        );
    }
    assert_eq!(
        refusal(copy_memory(
            &command,
            first.range(0, 16).unwrap(),
            first.range(12, 16).unwrap()
        )),
        invalid("buffer copy ranges overlap")
    );
    assert!(
        copy_memory(&command, first.range(0, 16).unwrap(), first.range(16, 16).unwrap()).is_ok()
    );
}

#[test]
fn texture_copies_need_their_usage() {
    let state = state(1);
    let mut command = recording(&state);
    let memory = heap(&state, 64 * 32 * 4 + 16, 7);
    let range = memory.range(16, 64 * 32 * 4).unwrap();
    let copy = TextureCopyDesc::default();
    let both = TextureUsage::TRANSFER_SOURCE() | TextureUsage::TRANSFER_DESTINATION();
    let texture = target(&state, Format::Rgba8Unorm, both);
    let upload =
        copy_memory_to_texture(&command, range, &texture, &copy, TextureAspect::Automatic).unwrap();
    assert_eq!((upload.buffer, upload.image), (7, 500));
    assert_eq!(upload.region.buffer_offset, 16);
    assert_eq!(upload.region.image_extent.width, 64);
    assert_eq!(
        copy_texture_to_memory(&command, &texture, range, &copy, TextureAspect::Color).unwrap(),
        upload
    );
    let sampled = target(&state, Format::Rgba8Unorm, TextureUsage::SAMPLED());
    assert_eq!(
        refusal(copy_memory_to_texture(
            &command,
            range,
            &sampled,
            &copy,
            TextureAspect::Automatic
        )),
        invalid("texture lacks TRANSFER_DESTINATION usage")
    );
    assert_eq!(
        refusal(copy_texture_to_memory(
            &command,
            &sampled,
            range,
            &copy,
            TextureAspect::Automatic
        )),
        invalid("texture lacks TRANSFER_SOURCE usage")
    );
    open_pass(&mut command);
    let inside = invalid("command is not allowed inside rendering");
    assert_eq!(
        refusal(copy_texture_to_memory(
            &command,
            &texture,
            range,
            &copy,
            TextureAspect::Automatic
        )),
        inside
    );
    assert_eq!(refusal(barrier(&command, &[])), inside);
    assert_eq!(refusal(copy_memory(&command, range, range)), inside);
    assert_eq!(refusal(dispatch(&command, U32x3 { x: 1, y: 1, z: 1 })), inside);
    assert_eq!(
        refusal(begin_render_pass(&mut command, &RenderingDesc::default(), EXTENT)),
        inside
    );
}

// ---------------------------------------------------------------------------
// Rendering
// ---------------------------------------------------------------------------

#[test]
fn render_passes_list_their_attachments() {
    let state = state(1);
    let mut command = recording(&state);
    let color = target(&state, Format::Bgra8Srgb, TextureUsage::COLOR_ATTACHMENT());
    let depth = target(
        &state,
        Format::D24UnormS8Uint,
        TextureUsage::DEPTH_STENCIL_ATTACHMENT(),
    );
    let color_view = view(&color, 21);
    let depth_view = view(&depth, 22);
    let clear = ClearColor::from_uint([1, 2, 3, 4]);
    let colors = [ColorAttachment {
        render_view: Some(&color_view),
        load: LoadOp::Clear,
        store: StoreOp::Store,
        clear,
    }];
    let desc = RenderingDesc {
        colors: &colors,
        depth: DepthAttachment {
            render_view: Some(&depth_view),
            load: LoadOp::Discard,
            store: StoreOp::Discard,
            clear: F32Bits::ONE(),
        },
        stencil: StencilAttachment {
            render_view: Some(&depth_view),
            load: LoadOp::Load,
            store: StoreOp::Store,
            clear: 255,
        },
    };
    let plan = begin_render_pass(&mut command, &desc, EXTENT).unwrap();
    assert!(command.is_rendering());
    assert_eq!(plan.colors.len(), 1);
    assert_eq!(plan.colors[0].view, 21);
    assert_eq!(plan.colors[0].load, vk::AttachmentLoadOp::CLEAR.as_raw());
    assert_eq!(plan.colors[0].store, vk::AttachmentStoreOp::STORE.as_raw());
    assert_eq!(plan.colors[0].clear, clear);
    let depth_plan = plan.depth.unwrap();
    assert_eq!(depth_plan.view, 22);
    assert_eq!(depth_plan.load, vk::AttachmentLoadOp::DONT_CARE.as_raw());
    assert_eq!(depth_plan.store, vk::AttachmentStoreOp::DONT_CARE.as_raw());
    let stencil_plan = plan.stencil.unwrap();
    assert_eq!(stencil_plan.load, vk::AttachmentLoadOp::LOAD.as_raw());
    assert_eq!((stencil_plan.view, stencil_plan.clear), (22, 255));
    assert_eq!(plan.extent, EXTENT);
    assert_eq!(
        plan.viewport,
        Ok(Viewport {
            x: F32Bits::ZERO(),
            y: F32Bits::ZERO(),
            width: F32Bits(64.0_f32.to_bits()),
            height: F32Bits(32.0_f32.to_bits()),
            min_depth: F32Bits::ZERO(),
            max_depth: F32Bits::ONE(),
        })
    );
    assert_eq!(plan.scissor, Ok(Scissor { x: 0, y: 0, width: 64, height: 32 }));
    assert!(end_render_pass(&mut command).is_ok());
    assert_eq!(refusal(end_render_pass(&mut command)), invalid("no active render pass"));
}

#[test]
fn each_render_pass_error_has_its_input() {
    let state = state(1);
    let mut command = recording(&state);
    let mut begin = |desc: &RenderingDesc<'_>, extent| {
        refusal(begin_render_pass(&mut command, desc, extent))
    };
    let plain = RenderingDesc::default();
    assert_eq!(
        begin(&plain, U32x2 { x: 0, y: 1 }),
        invalid("invalid render extent or color attachment count")
    );
    assert_eq!(
        begin(&plain, U32x2 { x: 4097, y: 1 }),
        invalid("render extent exceeds framebuffer/viewport limits")
    );
    let sampled = target(&state, Format::Rgba8Unorm, TextureUsage::SAMPLED());
    let sampled_view = view(&sampled, 1);
    let color = target(&state, Format::Rgba8Unorm, TextureUsage::COLOR_ATTACHMENT());
    let color_view = view(&color, 2);
    let depth = target(
        &state,
        Format::D32Float,
        TextureUsage::DEPTH_STENCIL_ATTACHMENT(),
    );
    let depth_view = view(&depth, 3);
    let other_depth_view = view(&depth, 4);
    let none = [ColorAttachment::default()];
    assert_eq!(
        begin(&RenderingDesc { colors: &none, ..RenderingDesc::default() }, EXTENT),
        invalid("color attachment needs a render view")
    );
    let wrong = [ColorAttachment {
        render_view: Some(&sampled_view),
        ..ColorAttachment::default()
    }];
    assert_eq!(
        begin(&RenderingDesc { colors: &wrong, ..RenderingDesc::default() }, EXTENT),
        invalid("color attachment usage or extent mismatch")
    );
    let right = [ColorAttachment {
        render_view: Some(&color_view),
        ..ColorAttachment::default()
    }];
    assert_eq!(
        begin(
            &RenderingDesc { colors: &right, ..RenderingDesc::default() },
            U32x2 { x: 65, y: 32 }
        ),
        invalid("color attachment usage or extent mismatch")
    );
    let depth_desc = |depth, stencil, clear| RenderingDesc {
        depth: DepthAttachment {
            render_view: depth,
            clear: F32Bits(clear),
            ..DepthAttachment::default()
        },
        stencil: StencilAttachment {
            render_view: stencil,
            ..StencilAttachment::default()
        },
        ..RenderingDesc::default()
    };
    let one = 1.0_f32.to_bits();
    assert_eq!(
        begin(&depth_desc(Some(&depth_view), None, 1.5_f32.to_bits()), EXTENT),
        invalid("depth clear must be in 0..=1")
    );
    assert_eq!(
        begin(&depth_desc(Some(&color_view), None, one), EXTENT),
        invalid("depth/stencil attachment usage or extent mismatch")
    );
    assert_eq!(
        begin(&depth_desc(Some(&depth_view), Some(&other_depth_view), one), EXTENT),
        invalid("depth and stencil must use the same image view")
    );
    assert_eq!(
        begin(&depth_desc(None, Some(&depth_view), one), EXTENT),
        invalid("stencil view lacks stencil aspect")
    );
    let stencil = target(
        &state,
        Format::S8Uint,
        TextureUsage::DEPTH_STENCIL_ATTACHMENT(),
    );
    let stencil_view = view(&stencil, 5);
    assert_eq!(
        begin(&depth_desc(Some(&stencil_view), None, one), EXTENT),
        invalid("depth view lacks depth aspect")
    );
    let mips = Texture::created(
        state.clone(),
        9,
        TextureDesc {
            extent: U32x3 { x: 64, y: 32, z: 1 },
            mip_levels: 2,
            usage: TextureUsage::COLOR_ATTACHMENT(),
            ..TextureDesc::default()
        },
    );
    let whole = create_texture_view(&mips, &TextureDescriptorDesc::default()).unwrap();
    let whole = RenderView::created(&mips, whole, 6, 6);
    let deep = [ColorAttachment {
        render_view: Some(&whole),
        ..ColorAttachment::default()
    }];
    assert_eq!(
        begin(&RenderingDesc { colors: &deep, ..RenderingDesc::default() }, EXTENT),
        invalid("attachments require single-mip 2D/2D-array views")
    );
}

#[test]
fn passes_open_though_the_viewport_is_refused() {
    let mut odd = state_with(1, false, candidate("card"));
    odd.limits.viewport_bounds_low = F32Bits::ONE();
    let mut command = recording(&Rc::new(odd));
    let plan = begin_render_pass(&mut command, &RenderingDesc::default(), EXTENT).unwrap();
    assert_eq!(
        plan.viewport,
        Err(GpuError::InvalidArgument("viewport exceeds device bounds"))
    );
    assert!(plan.scissor.is_ok());
    assert!(command.is_rendering());
}

#[test]
fn viewports_are_checked() {
    let command = recording(&state(1));
    let set = |x: f32, y: f32, width: f32, height: f32, min_depth: f32, max_depth: f32| {
        let viewport = Viewport {
            x: F32Bits(x.to_bits()),
            y: F32Bits(y.to_bits()),
            width: F32Bits(width.to_bits()),
            height: F32Bits(height.to_bits()),
            min_depth: F32Bits(min_depth.to_bits()),
            max_depth: F32Bits(max_depth.to_bits()),
        };
        refusal(set_viewport(
            &command,
            &viewport,
            F32Bits((x + width).to_bits()),
            F32Bits((y + height).to_bits()),
        ))
    };
    let bounds = invalid("viewport exceeds device bounds");
    assert_eq!(set(0.0, 0.0, 64.0, 32.0, 0.0, 1.0), "accepted");
    assert_eq!(set(0.0, 32.0, 64.0, -32.0, 1.0, 0.0), "accepted");
    assert_eq!(set(-8192.0, -8192.0, 64.0, 32.0, 0.0, 1.0), "accepted");
    assert_eq!(set(f32::NAN, 0.0, 1.0, 1.0, 0.0, 1.0), invalid("viewport values must be finite"));
    assert_eq!(set(0.0, 0.0, 0.0, 1.0, 0.0, 1.0), bounds);
    assert_eq!(set(0.0, 0.0, 1.0, -0.0, 0.0, 1.0), bounds);
    assert_eq!(set(0.0, 0.0, 4097.0, 1.0, 0.0, 1.0), bounds);
    assert_eq!(set(0.0, 0.0, 1.0, -4097.0, 0.0, 1.0), bounds);
    assert_eq!(set(0.0, 0.0, 1.0, 1.0, -0.1, 1.0), bounds);
    assert_eq!(set(0.0, 0.0, 1.0, 1.0, 0.0, 1.1), bounds);
    assert_eq!(set(-8193.0, 0.0, 1.0, 1.0, 0.0, 1.0), bounds);
    assert_eq!(set(8191.0, 0.0, 1.0, 1.0, 0.0, 1.0), bounds);
    assert_eq!(set(0.0, -8192.0, 1.0, -1.0, 0.0, 1.0), bounds);
    assert_eq!(set(0.0, 8191.5, 1.0, -1.0, 0.0, 1.0), bounds);
}

#[test]
fn scissors_are_checked() {
    let command = recording(&state(1));
    let scissor = |x, y, width, height| {
        refusal(set_scissor(&command, &Scissor { x, y, width, height }))
    };
    let message = invalid("scissor exceeds signed coordinate bounds");
    assert_eq!(scissor(0, 0, 64, 32), "accepted");
    assert_eq!(scissor(i32::MAX, 0, 0, 1), "accepted");
    assert_eq!(scissor(-1, 0, 1, 1), message);
    assert_eq!(scissor(0, i32::MAX, 1, 1), message);
    assert_eq!(scissor(0, 0, u32::MAX, 1), message);
}

#[test]
fn pushed_constants_are_aligned_and_bounded() {
    let command = recording(&state(1));
    let message = invalid("push constants exceed limit or lack four-byte alignment");
    assert!(push_constants(&command, 64, &[0; 64]).is_ok());
    assert_eq!(refusal(push_constants(&command, 68, &[0; 64])), message);
    assert_eq!(refusal(push_constants(&command, 2, &[0; 4])), message);
    assert_eq!(refusal(push_constants(&command, 0, &[0; 6])), message);
    assert_eq!(refusal(push_constants(&command, 0, &[])), message);
}

#[test]
fn heaps_are_bound_in_their_order() {
    let state = state(1);
    let mut command = recording(&state);
    let heap_of = |kind, address| {
        let plan = create_texture_descriptor_heap(&state, kind).unwrap();
        GpuHeap::allocated(state.clone(), &plan, 1, address, true)
    };
    let sampled = heap_of(TextureDescriptorType::Sampled, 0x100);
    let storage = heap_of(TextureDescriptorType::Storage, 0x200);
    let plan = create_sampler_descriptor_heap(&state).unwrap();
    let sampler = GpuHeap::allocated(state.clone(), &plan, 1, 0x300, true);
    assert_eq!(
        refusal(bind_descriptor_heaps(&command, [&sampled, &storage, &sampler])),
        invalid("bind a PSO before descriptor heaps")
    );
    bind_pso(&mut command, &pso(&state, BindPoint::Compute, false)).unwrap();
    assert_eq!(
        bind_descriptor_heaps(&command, [&sampled, &storage, &sampler]).unwrap(),
        HeapBindings {
            bind_point: BindPoint::Compute,
            sampled: 0x100,
            storage: 0x200,
            sampler: 0x300,
        }
    );
    assert_eq!(
        refusal(bind_descriptor_heaps(&command, [&storage, &sampled, &sampler])),
        invalid("expected sampled, storage, sampler heaps in that order")
    );
}

#[test]
fn draws_need_a_pass_and_a_pipeline() {
    let state = state(1);
    let mut command = recording(&state);
    let message = invalid("draw needs an active render pass and graphics PSO");
    bind_pso(&mut command, &pso(&state, BindPoint::Graphics, false)).unwrap();
    assert_eq!(refusal(draw(&command, 3, 1, 0, 0)), message);
    open_pass(&mut command);
    assert_eq!(
        draw(&command, 3, 2, 1, 4),
        Ok(DrawCall { vertex_count: 3, instance_count: 2, first_vertex: 1, first_instance: 4 })
    );
    let indices = heap(&state, 64, 7);
    let range = indices.range(8, 12).unwrap();
    let call =
        draw_indexed(&command, range, IndexType::Uint16, 4, 1, 2, -1, 0).unwrap();
    assert_eq!((call.indices.buffer, call.indices.offset), (7, 8));
    assert_eq!(call.indices.index_type, vk::IndexType::UINT16.as_raw());
    assert_eq!((call.index_count, call.first_index, call.vertex_offset), (4, 2, -1));
    let outside = invalid("index range out of bounds or misaligned");
    assert_eq!(
        refusal(draw_indexed(&command, range, IndexType::Uint16, 5, 1, 2, 0, 0)),
        outside
    );
    assert_eq!(
        refusal(draw_indexed(&command, range, IndexType::Uint32, u32::MAX, 1, u32::MAX, 0, 0)),
        outside
    );
    let odd = indices.range(2, 12).unwrap();
    assert_eq!(refusal(draw_indexed(&command, odd, IndexType::Uint32, 1, 1, 0, 0, 0)), outside);
    bind_pso(&mut command, &pso(&state, BindPoint::Compute, false)).unwrap();
    assert_eq!(refusal(draw(&command, 3, 1, 0, 0)), message);
    assert_eq!(
        refusal(draw_indexed(&command, range, IndexType::Uint16, 1, 1, 0, 0, 0)),
        invalid("indexed draw needs a render pass, graphics PSO and index buffer")
    );
}

#[test]
fn dispatches_are_bounded() {
    let state = state(1);
    let mut command = recording(&state);
    let groups = |x, y, z| U32x3 { x, y, z };
    assert_eq!(
        refusal(dispatch(&command, groups(1, 1, 1))),
        invalid("dispatch needs a compute PSO")
    );
    bind_pso(&mut command, &pso(&state, BindPoint::Compute, false)).unwrap();
    assert!(dispatch(&command, groups(8, 8, 8)).is_ok());
    assert_eq!(
        refusal(dispatch(&command, groups(8, 9, 8))),
        invalid("compute group count exceeds device limit")
    );
}

#[test]
fn mesh_draws_are_bounded() {
    let groups = |x, y, z| U32x3 { x, y, z };
    let plain = recording(&state(1));
    assert_eq!(
        refusal(draw_mesh(&plain, groups(1, 1, 1))),
        "unsupported: VK_EXT_mesh_shader / meshShader"
    );
    let state = meshing(1);
    let mut command = recording(&state);
    assert_eq!(
        refusal(draw_mesh(&command, groups(1, 1, 1))),
        invalid("mesh draw needs a render pass and mesh PSO")
    );
    bind_pso(&mut command, &pso(&state, BindPoint::Graphics, true)).unwrap();
    open_pass(&mut command);
    assert!(draw_mesh(&command, groups(5, 5, 4)).is_ok());
    assert_eq!(
        refusal(draw_mesh(&command, groups(9, 1, 1))),
        invalid("mesh workgroup count exceeds device limit")
    );
    let total = invalid("mesh total workgroup count exceeds device limit");
    assert_eq!(refusal(draw_mesh(&command, groups(5, 5, 5))), total);
}

// ---------------------------------------------------------------------------
// Timestamps
// ---------------------------------------------------------------------------

#[test]
fn timestamps_are_written_once_and_read_after() {
    let state = state(1);
    let mut command = recording(&state);
    assert_eq!(
        write_timestamp(&mut command, 4, Stage::COMPUTE()),
        Ok(vk::PipelineStageFlags2::COMPUTE_SHADER)
    );
    assert_eq!(
        refusal(write_timestamp(&mut command, 4, Stage::COMPUTE())),
        invalid("timestamp query already written in this recording")
    );
    assert_eq!(
        refusal(write_timestamp(&mut command, 256, Stage::COMPUTE())),
        invalid("timestamp index out of bounds")
    );
    let stage = invalid("timestamp needs one supported device stage");
    for wrong in [
        Stage::NONE(),
        Stage::DEPTH_STENCIL_TESTS(),
        Stage::COMPUTE() | Stage::VERTEX(),
        Stage::HOST(),
        Stage::MESH(),
    ] {
        assert_eq!(refusal(write_timestamp(&mut command, 5, wrong)), stage);
    }
    write_timestamp(&mut command, 5, Stage::ALL_COMMANDS()).unwrap();
    assert_eq!(
        refusal(read_timestamps(&command, 4, 2)),
        invalid("timestamp results require a submitted command and nonempty output")
    );
    let plan = submit(&device(&state), &command, &[], &[]).unwrap();
    run_submission(&mut command, plan.first);
    assert!(read_timestamps(&command, 4, 2).is_ok());
    assert_eq!(
        refusal(read_timestamps(&command, 4, 3)),
        invalid("timestamp query was not written")
    );
    assert_eq!(
        refusal(read_timestamps(&command, 255, 2)),
        invalid("timestamp range out of bounds")
    );
    assert_eq!(
        refusal(read_timestamps(&command, 4, usize::MAX)),
        invalid("timestamp range overflow")
    );
    assert!(read_timestamps(&command, 4, 0).is_err());
}

#[test]
fn timestamps_can_be_missing() {
    let mut without = candidate("card");
    without.families[1].timestamp_valid_bits = 0;
    let mut command = recording(&Rc::new(state_with(1, false, without)));
    assert!(!command.has_queries());
    assert_eq!(
        refusal(write_timestamp(&mut command, 0, Stage::COMPUTE())),
        "unsupported: timestamps are disabled or unsupported by this queue"
    );
}

#[test]
fn timestamps_wrap_at_their_bits() {
    assert_eq!(timestamp_mask(0), 0);
    assert_eq!(timestamp_mask(36), (1 << 36) - 1);
    assert_eq!(timestamp_mask(64), u64::MAX);
    let mut values = vec![u64::MAX, 5, 1 << 36];
    mask_timestamps(&mut values, timestamp_mask(36));
    assert_eq!(values, [(1 << 36) - 1, 5, 0]);
}

// ---------------------------------------------------------------------------
// Pipelines
// ---------------------------------------------------------------------------

const SHADER: [u32; 5] = [0x0723_0203, 0x0001_0600, 0, 1, 0];

fn support(targets: usize) -> FormatSupport {
    FormatSupport {
        targets: vec![TargetSupport { attachment: true, blend: true }; targets],
        depth: true,
        stencil: true,
    }
}

#[test]
fn shaders_start_with_their_magic_number() {
    assert!(validate_spirv(&SHADER).is_ok());
    assert!(create_compute_pso(&SHADER).is_ok());
    let message = invalid("expected little-endian SPIR-V words with a valid header");
    assert_eq!(refusal(validate_spirv(&SHADER[..4])), message);
    assert_eq!(refusal(create_compute_pso(&[1, 2, 3, 4, 5])), message);
    assert_eq!(spirv_words(&[3, 2, 0x23, 7, 1, 0, 0, 0]), [0x0723_0203, 1]);
    assert!(spirv_words(&[]).is_empty());
}

#[test]
fn raster_pipelines_are_planned_in_vulkan_numbers() {
    let state = meshing(1);
    let blend = BlendState {
        enabled: true,
        color: BlendComponentState {
            source: BlendFactor::SourceAlpha,
            destination: BlendFactor::OneMinusSourceAlpha,
            operation: BlendOp::ReverseSubtract,
        },
        alpha: BlendComponentState {
            source: BlendFactor::One,
            destination: BlendFactor::DestinationAlpha,
            operation: BlendOp::Maximum,
        },
    };
    let targets = [
        ColorTargetDesc { format: Format::Bgra8Srgb, blend, write_mask: 0x7 },
        ColorTargetDesc { format: Format::R8Unorm, ..ColorTargetDesc::default() },
    ];
    let desc = GraphicsPSODesc {
        vertex_spirv: &SHADER,
        fragment_spirv: &SHADER,
        color_targets: &targets,
        depth_format: Format::D24UnormS8Uint,
        stencil_format: Format::D24UnormS8Uint,
        rasterization: RasterizationState {
            cull: CullMode::CounterClockwise,
            depth_bias_slope: F32Bits::ONE(),
            ..RasterizationState::default()
        },
        depth_stencil: DepthStencilState {
            depth_test: true,
            depth_write: true,
            depth_compare: CompareOp::GreaterEqual,
            stencil_test: true,
            stencil_read_mask: 0x0f,
            stencil_write_mask: 0xf0,
            front: StencilFaceState {
                compare: CompareOp::NotEqual,
                fail: StencilOp::Zero,
                pass: StencilOp::IncrementWrap,
                depth_fail: StencilOp::Invert,
                reference: 9,
            },
            back: StencilFaceState {
                fail: StencilOp::DecrementClamp,
                pass: StencilOp::DecrementWrap,
                depth_fail: StencilOp::IncrementClamp,
                ..StencilFaceState::default()
            },
        },
    };
    let plan = create_graphics_pso(&state, &desc, &support(2)).unwrap();
    assert_eq!(plan.first_stage, vk::ShaderStageFlags::VERTEX.as_raw());
    assert!(plan.has_fragment && !plan.mesh);
    assert_eq!(
        plan.color_formats,
        [vk::Format::B8G8R8A8_SRGB, vk::Format::R8_UNORM]
    );
    assert_eq!(plan.depth_format, vk::Format::D24_UNORM_S8_UINT);
    assert_eq!(plan.stencil_format, vk::Format::D24_UNORM_S8_UINT);
    let first = plan.blends[0];
    assert!(first.enabled);
    assert_eq!(first.src_color, vk::BlendFactor::SRC_ALPHA.as_raw());
    assert_eq!(first.dst_color, vk::BlendFactor::ONE_MINUS_SRC_ALPHA.as_raw());
    assert_eq!(first.color_op, vk::BlendOp::REVERSE_SUBTRACT.as_raw());
    assert_eq!(first.src_alpha, vk::BlendFactor::ONE.as_raw());
    assert_eq!(first.dst_alpha, vk::BlendFactor::DST_ALPHA.as_raw());
    assert_eq!(first.alpha_op, vk::BlendOp::MAX.as_raw());
    assert_eq!(first.write_mask, 7);
    assert!(!plan.blends[1].enabled);
    let fixed = plan.fixed;
    assert_eq!(fixed.cull_mode, vk::CullModeFlags::BACK.as_raw());
    assert_eq!(fixed.front_face, vk::FrontFace::CLOCKWISE.as_raw());
    assert!(fixed.depth_bias && fixed.depth_test && fixed.depth_write && fixed.stencil_test);
    assert_eq!(fixed.depth_compare, vk::CompareOp::GREATER_OR_EQUAL.as_raw());
    assert_eq!(fixed.front.compare_op, vk::CompareOp::NOT_EQUAL.as_raw());
    assert_eq!(fixed.front.fail_op, vk::StencilOp::ZERO.as_raw());
    assert_eq!(fixed.front.pass_op, vk::StencilOp::INCREMENT_AND_WRAP.as_raw());
    assert_eq!(fixed.front.depth_fail_op, vk::StencilOp::INVERT.as_raw());
    assert_eq!(
        (fixed.front.compare_mask, fixed.front.write_mask, fixed.front.reference),
        (0x0f, 0xf0, 9)
    );
    assert_eq!(fixed.back.fail_op, vk::StencilOp::DECREMENT_AND_CLAMP.as_raw());
    assert_eq!(fixed.back.pass_op, vk::StencilOp::DECREMENT_AND_WRAP.as_raw());
    assert_eq!(fixed.back.depth_fail_op, vk::StencilOp::INCREMENT_AND_CLAMP.as_raw());
    let mesh = MeshPSODesc { mesh_spirv: &SHADER, ..MeshPSODesc::default() };
    let plan = create_mesh_pso(&state, &mesh, &support(0)).unwrap();
    assert_eq!(plan.first_stage, vk::ShaderStageFlags::MESH_EXT.as_raw());
    assert!(plan.mesh && !plan.has_fragment);
    assert_eq!(plan.fixed.cull_mode, vk::CullModeFlags::NONE.as_raw());
    assert_eq!(plan.fixed.front_face, vk::FrontFace::COUNTER_CLOCKWISE.as_raw());
    assert!(!plan.fixed.depth_bias);
}

#[test]
fn each_pipeline_error_has_its_input() {
    let state = state(1);
    let plain = || GraphicsPSODesc { vertex_spirv: &SHADER, ..GraphicsPSODesc::default() };
    let create = |desc: GraphicsPSODesc<'_>, support: FormatSupport| {
        refusal(create_graphics_pso(&state, &desc, &support))
    };
    assert_eq!(create(plain(), support(0)), "accepted");
    let header = invalid("expected little-endian SPIR-V words with a valid header");
    assert_eq!(create(GraphicsPSODesc::default(), support(0)), header);
    assert_eq!(
        create(GraphicsPSODesc { fragment_spirv: &[1], ..plain() }, support(0)),
        header
    );
    let many = [ColorTargetDesc { format: Format::R8Unorm, ..ColorTargetDesc::default() }; 9];
    assert_eq!(
        create(GraphicsPSODesc { color_targets: &many, ..plain() }, support(9)),
        "unsupported: too many color attachments"
    );
    let clamped = RasterizationState {
        depth_bias_clamp: F32Bits::ONE(),
        ..RasterizationState::default()
    };
    assert_eq!(
        create(GraphicsPSODesc { rasterization: clamped, ..plain() }, support(0)),
        "unsupported: depthBiasClamp is not enabled"
    );
    let tested = DepthStencilState { depth_test: true, ..DepthStencilState::default() };
    assert_eq!(
        create(GraphicsPSODesc { depth_stencil: tested, ..plain() }, support(0)),
        invalid("depth/stencil test requires a corresponding attachment format")
    );
    let one = &many[..1];
    let mut without = support(1);
    without.targets[0].attachment = false;
    assert_eq!(
        create(GraphicsPSODesc { color_targets: one, ..plain() }, without),
        "unsupported: color attachment format R8Unorm"
    );
    // A target without a format is refused whatever the driver says, and first of all.
    let shapeless = [ColorTargetDesc { format: Format::Undefined, write_mask: 0x10, ..many[0] }];
    assert_eq!(
        create(GraphicsPSODesc { color_targets: &shapeless, ..plain() }, support(1)),
        "unsupported: color attachment format Undefined"
    );
    let masked = [ColorTargetDesc { write_mask: 0x10, ..many[0] }];
    assert_eq!(
        create(GraphicsPSODesc { color_targets: &masked, ..plain() }, support(1)),
        invalid("color write_mask has bits outside RGBA")
    );
    let blended = [ColorTargetDesc {
        blend: BlendState { enabled: true, ..BlendState::default() },
        ..many[0]
    }];
    let mut without = support(1);
    without.targets[0].blend = false;
    assert_eq!(
        create(GraphicsPSODesc { color_targets: &blended, ..plain() }, without),
        "unsupported: blending for R8Unorm"
    );
    assert_eq!(
        create(GraphicsPSODesc { depth_format: Format::S8Uint, ..plain() }, support(0)),
        invalid("invalid depth/stencil format")
    );
    let mut without = support(0);
    without.depth = false;
    assert_eq!(
        create(GraphicsPSODesc { depth_format: Format::D32Float, ..plain() }, without),
        "unsupported: depth/stencil format D32Float"
    );
    assert_eq!(
        create(
            GraphicsPSODesc {
                depth_format: Format::D32Float,
                stencil_format: Format::S8Uint,
                ..plain()
            },
            support(0)
        ),
        invalid("depth and stencil must use the same format when both are present")
    );
    let mesh = MeshPSODesc { mesh_spirv: &SHADER, ..MeshPSODesc::default() };
    assert_eq!(
        refusal(create_mesh_pso(&state, &mesh, &support(0))),
        "unsupported: card: VK_EXT_mesh_shader / meshShader"
    );
}

#[test]
fn failed_pipelines_are_destroyed() {
    let state = state(1);
    let made = finish_pipeline(state.clone(), Ok(vec![11]), BindPoint::Compute, false)
        .ok()
        .unwrap();
    assert_eq!((made.raw, made.bind_point, made.mesh), (11, BindPoint::Compute, false));
    let failure = finish_pipeline(
        state,
        Err((vec![12, 13], vk::Result::ERROR_DEVICE_LOST)),
        BindPoint::Graphics,
        true,
    )
    .err()
    .unwrap();
    assert_eq!(failure.destroy, [12, 13]);
    assert_eq!(failure.error, GpuError::DeviceLost);
}

// ---------------------------------------------------------------------------
// The presentation loop
// ---------------------------------------------------------------------------

#[test]
fn loops_rebuild_and_go_on() {
    assert_eq!(after_acquire(&GpuError::OutOfDate), AcquireOutcome::Rebuild);
    assert_eq!(after_acquire(&GpuError::WindowMinimized), AcquireOutcome::Fail);
    assert_eq!(after_present(&Ok(false)), PresentOutcome::Shown);
    assert_eq!(after_present(&Ok(true)), PresentOutcome::Rebuild);
    assert_eq!(after_present(&Err(GpuError::OutOfDate)), PresentOutcome::Rebuild);
    assert_eq!(after_present(&Err(GpuError::DeviceLost)), PresentOutcome::Fail);
    assert_eq!((command_slot(0), command_slot(1), command_slot(2)), (0, 1, 0));
    let options = LoopOptions { resize_test: true, frame_limit: Some(7) };
    let quiet = LoopStep {
        fail: false,
        request_resize: false,
        rebuild: false,
        exit: false,
        redraw: true,
    };
    assert_eq!(after_redraw(&Ok(()), 1, options), quiet);
    assert_eq!(after_redraw(&Err(GpuError::WindowMinimized), 1, options), quiet);
    assert!(after_redraw(&Ok(()), 3, options).request_resize);
    assert!(after_redraw(&Ok(()), 6, options).rebuild);
    let last = after_redraw(&Ok(()), 7, options);
    assert!(last.exit && !last.redraw);
    let failed = after_redraw(&Err(GpuError::DeviceLost), 1, options);
    assert!(failed.fail && failed.exit && !failed.redraw);
    let free = LoopOptions { resize_test: false, frame_limit: None };
    assert_eq!(after_redraw(&Ok(()), 3, free), quiet);
}
