//! The decisions behind a small, explicit Vulkan 1.4 graphics API.
//!
//! The library holds what such an API computes and checks: device requirements and
//! selection, buffer ranges, texture shapes, views and copies, pipeline state, the
//! life of command buffers and frames, and the TrueType outlines that a glyph
//! rasterizer needs. It makes no driver calls. Functions say what the driver is to
//! do, as plain values, and take in what it replied.
//!
//! Descriptor sets 0, 1 and 2 are sampled-image, storage-image and sampler arrays,
//! respectively. Buffer access uses device addresses.

pub mod answer_laws;
pub mod change_laws;
pub mod command;
pub mod device;
pub mod device_laws;
pub mod error;
pub mod flags;
pub mod float_bits;
pub mod format;
pub mod frame_loop;
pub mod glyph_raster;
pub mod heap;
pub mod pipeline;
pub mod pipeline_laws;
pub mod recording;
pub mod recording_laws;
pub mod simple_ttf;
pub mod state;
pub mod swapchain;
pub mod text;
pub mod texture;
pub mod texture_copy;
pub mod texture_laws;
pub mod types;
pub mod value_laws;
pub mod vulkan;

pub use ash::vk;
pub use harfrust;

pub use command::{
    BindPoint, CommandBuffer, CommandStatus, PresentPlan, ResetAction, SemaphoreInfo, SubmitAction,
    SubmitPlan, TimelineSemaphore, begin_command, presented, reset_command, reset_continue, submit,
    submit_and_present, submit_continue, submitted, wait_command,
};
pub use device::{
    BaseFeatures, Candidate, DeviceCaps, DeviceDesc, DeviceLimits, DeviceType, EnabledFeatures,
    MeshLimits, QueueFamily, Selection, Vulkan12Features, Vulkan13Features, check_device_desc,
    check_loader_version, check_validation_layer, device_extensions, enabled_features,
    is_work_family, required_features, select_device,
};
pub use error::GpuError;
pub use flags::{Access, Stage, TextureUsage, image_usage};
pub use float_bits::F32Bits;
pub use format::{Format, TextureFormatInfo};
pub use heap::{
    BufferPlan, GpuCpuRange, GpuHeap, GpuRange, HeapSpan, HostAccess, MappedRange, create_gpu_heap,
    create_sampler_descriptor_heap, create_texture_descriptor_heap, flush_memory,
    invalidate_memory, mapped_memory, write_memory,
};
pub use pipeline::{
    FormatSupport, GraphicsPSODesc, MeshPSODesc, PSO, RasterPlan, TargetSupport, blend_factor,
    create_compute_pso, create_graphics_pso, create_mesh_pso, finish_pipeline, spirv_words,
    validate_spirv,
};
pub use recording::{
    Barrier, BarrierPlan, BufferCopy, ColorAttachment, DepthAttachment, DrawCall, HeapBindings,
    IndexedDrawCall, RenderingDesc, RenderingPlan, StencilAttachment, TextureCopy, barrier,
    begin_render_pass, bind_descriptor_heaps, bind_pso, copy_memory, copy_memory_to_texture,
    copy_texture_to_memory, dispatch, draw, draw_indexed, draw_mesh, end_render_pass,
    mask_timestamps, push_constants, read_timestamps, set_scissor, set_viewport, timestamp_mask,
    write_timestamp,
};
pub use state::{DescriptorProperties, DeviceState};
pub use swapchain::{
    AcquirePlan, DrawableExtent, GpuDevice, SurfaceCaps, SurfaceFormat, SwapchainFrame,
    SwapchainPlan, acquire, get_device_caps, get_drawable_extent, plan_acquire, plan_swapchain,
    recreate_swapchain,
};
pub use texture::{
    ImageCreateFlags, ImageLimits, ImageType, RenderView, Sampler, SamplerPlan, SubresourceRange,
    Texture, TextureDescriptorWrite, TexturePlan, ViewPlan, ViewType, create_render_view,
    create_reinterpreted_texture_view, create_sampler, create_texture, create_texture_view,
    supports_texture_format, texture_support, validate_texture_desc, write_sampler_descriptor,
    write_texture_descriptor,
};
pub use texture_copy::{
    BufferImageCopy, Extent3D, ImageSubresourceLayers, Offset3D, texture_copy_region,
};
pub use types::{
    AddressMode, BlendComponentState, BlendFactor, BlendOp, BlendState, ClearColor,
    ColorTargetDesc, CompareOp, CullMode, DepthStencilState, Filter, ImageAspect, IndexType,
    LoadOp, MemoryType, RasterizationState, RenderViewDesc, SamplerDesc, Scissor, SizeAlign,
    StencilFaceState, StencilOp, StoreOp, TextureAspect, TextureCopyDesc, TextureDesc,
    TextureDescriptorDesc, TextureDescriptorType, TextureLayout, TextureType, U32x2, U32x3,
    VULKAN_API_VERSION, Viewport,
};
