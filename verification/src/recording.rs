//! Recorded commands: barriers, copies, rendering, draws and timestamps.
//!
//! Each function checks a command and says what to record.

use crate::command;
use crate::command::{BindPoint, CommandBuffer, CommandModel, CommandStatus};
use crate::error;
use crate::error::{GpuError, Problem, unsupported};
use crate::flags;
use crate::flags::{Access, Stage, TextureUsage, stage_mask_bits};
use crate::float_bits;
use crate::float_bits::F32Bits;
use crate::format::TextureFormatInfo;
use crate::heap::{GpuHeap, GpuRange, HeapModel, RangeModel};
use crate::pipeline::PSO;
use crate::state::DeviceState;
use crate::texture::{RenderView, SubresourceRange, Texture, TextureModel, ViewModel, ViewType};
use crate::texture_copy;
use crate::texture_copy::{BufferImageCopy, texture_copy_region};
use crate::types::{
    ClearColor, ImageAspect, IndexType, LoadOp, Scissor, StoreOp, TextureAspect, TextureCopyDesc,
    TextureLayout, U32x2, U32x3, Viewport,
};
use crate::vulkan;
use ash::vk;
use vstd::prelude::*;

verus! {

// ---------------------------------------------------------------------------
// Barriers
// ---------------------------------------------------------------------------

/// Synchronization2 dependency. Queue ownership transfers are unnecessary with
/// the single queue. Texture barriers cover the entire image, including all mips.
pub enum Barrier<'a> {
    Memory { before: (Stage, Access), after: (Stage, Access) },
    Buffer { range: GpuRange<'a>, before: (Stage, Access), after: (Stage, Access) },
    Texture {
        texture: &'a Texture,
        before: (Stage, Access, TextureLayout),
        after: (Stage, Access, TextureLayout),
    },
}

/// The two sides of a dependency.
pub struct Scopes {
    pub src_stage: vk::PipelineStageFlags2,
    pub src_access: vk::AccessFlags2,
    pub dst_stage: vk::PipelineStageFlags2,
    pub dst_access: vk::AccessFlags2,
}

/// A barrier on a part of a buffer.
pub struct BufferBarrier {
    pub scopes: Scopes,
    pub buffer: u64,
    pub offset: u64,
    pub size: u64,
}

/// A barrier on an image.
pub struct ImageBarrier {
    pub scopes: Scopes,
    pub old_layout: vk::ImageLayout,
    pub new_layout: vk::ImageLayout,
    pub image: u64,
    pub subresources: SubresourceRange,
}

/// Batched barriers to record.
pub struct BarrierPlan {
    pub memory: Vec<Scopes>,
    pub buffers: Vec<BufferBarrier>,
    pub images: Vec<ImageBarrier>,
}

/// The two sides of a dependency in Vulkan bits.
pub struct ScopesModel {
    pub src_stage: u64,
    pub src_access: u64,
    pub dst_stage: u64,
    pub dst_access: u64,
}

impl View for Scopes {
    type V = ScopesModel;

    open spec fn view(&self) -> ScopesModel {
        ScopesModel {
            src_stage: vulkan::vk_stage_bits(self.src_stage),
            src_access: vulkan::vk_access_bits(self.src_access),
            dst_stage: vulkan::vk_stage_bits(self.dst_stage),
            dst_access: vulkan::vk_access_bits(self.dst_access),
        }
    }
}

/// A barrier on a part of a buffer, as a value.
pub struct BufferBarrierModel {
    pub scopes: ScopesModel,
    pub buffer: u64,
    pub offset: u64,
    pub size: u64,
}

impl View for BufferBarrier {
    type V = BufferBarrierModel;

    open spec fn view(&self) -> BufferBarrierModel {
        BufferBarrierModel {
            scopes: self.scopes@,
            buffer: self.buffer,
            offset: self.offset,
            size: self.size,
        }
    }
}

/// A barrier on an image, as a value: layouts are Vulkan numbers.
pub struct ImageBarrierModel {
    pub scopes: ScopesModel,
    pub old_layout: i32,
    pub new_layout: i32,
    pub image: u64,
    pub subresources: SubresourceRange,
}

impl View for ImageBarrier {
    type V = ImageBarrierModel;

    open spec fn view(&self) -> ImageBarrierModel {
        ImageBarrierModel {
            scopes: self.scopes@,
            old_layout: vulkan::vk_layout_code(self.old_layout),
            new_layout: vulkan::vk_layout_code(self.new_layout),
            image: self.image,
            subresources: self.subresources,
        }
    }
}

/// Batched barriers as values.
#[verifier::ext_equal]
pub struct BarrierModel {
    pub memory: Seq<ScopesModel>,
    pub buffers: Seq<BufferBarrierModel>,
    pub images: Seq<ImageBarrierModel>,
}

impl View for BarrierPlan {
    type V = BarrierModel;

    open spec fn view(&self) -> BarrierModel {
        BarrierModel {
            memory: Seq::new(self.memory@.len(), |i: int| self.memory@[i]@),
            buffers: Seq::new(self.buffers@.len(), |i: int| self.buffers@[i]@),
            images: Seq::new(self.images@.len(), |i: int| self.images@[i]@),
        }
    }
}

/// The two sides of a dependency as Vulkan numbers them.
pub open spec fn spec_scopes(
    before_stage: Stage,
    before_access: Access,
    after_stage: Stage,
    after_access: Access,
) -> ScopesModel {
    ScopesModel {
        src_stage: flags::stage_mask(before_stage),
        src_access: flags::access_mask(before_access),
        dst_stage: flags::stage_mask(after_stage),
        dst_access: flags::access_mask(after_access),
    }
}

fn make_scopes(
    before_stage: Stage,
    before_access: Access,
    after_stage: Stage,
    after_access: Access,
) -> (r: Scopes)
    ensures
        r@ == spec_scopes(before_stage, before_access, after_stage, after_access),
{
    Scopes {
        src_stage: vk::PipelineStageFlags2::from(before_stage),
        src_access: vk::AccessFlags2::from(before_access),
        dst_stage: vk::PipelineStageFlags2::from(after_stage),
        dst_access: vk::AccessFlags2::from(after_access),
    }
}

/// All parts, levels and layers of a texture.
pub open spec fn whole_image(texture: TextureModel) -> SubresourceRange {
    SubresourceRange {
        aspect_mask: ImageAspect::of_format(texture.desc.format),
        base_mip_level: 0,
        level_count: texture.desc.mip_levels,
        base_array_layer: 0,
        layer_count: texture.desc.layer_count,
    }
}

/// One more barrier.
pub open spec fn with_barrier(
    command: CommandModel,
    plan: BarrierModel,
    barrier: Barrier<'_>,
) -> Result<BarrierModel, Problem> {
    match barrier {
        Barrier::Memory { before, after } => Ok(
            BarrierModel {
                memory: plan.memory.push(spec_scopes(before.0, before.1, after.0, after.1)),
                ..plan
            },
        ),
        Barrier::Buffer { range, before, after } => match command::spec_same_device(
            command,
            range@.heap.state,
        ) {
            Err(problem) => Err(problem),
            Ok(_) => Ok(
                BarrierModel {
                    buffers: plan.buffers.push(
                        BufferBarrierModel {
                            scopes: spec_scopes(before.0, before.1, after.0, after.1),
                            buffer: range@.heap.buffer,
                            offset: range@.offset,
                            size: range@.size,
                        },
                    ),
                    ..plan
                },
            ),
        },
        Barrier::Texture { texture, before, after } => match command::spec_same_device(
            command,
            texture@.state,
        ) {
            Err(problem) => Err(problem),
            Ok(_) => if after.2 is Undefined {
                error::refused("cannot transition to UNDEFINED")
            } else {
                Ok(
                    BarrierModel {
                        images: plan.images.push(
                            ImageBarrierModel {
                                scopes: spec_scopes(before.0, before.1, after.0, after.1),
                                old_layout: before.2.spec_code(),
                                new_layout: after.2.spec_code(),
                                image: texture@.image,
                                subresources: whole_image(texture@),
                            },
                        ),
                        ..plan
                    },
                )
            },
        },
    }
}

/// The first `count` barriers.
pub open spec fn barriers_upto(
    command: CommandModel,
    barriers: Seq<Barrier<'_>>,
    count: nat,
) -> Result<BarrierModel, Problem>
    decreases count,
{
    if count == 0 {
        Ok(
            BarrierModel {
                memory: Seq::empty(),
                buffers: Seq::empty(),
                images: Seq::empty(),
            },
        )
    } else {
        match barriers_upto(command, barriers, (count - 1) as nat) {
            Err(problem) => Err(problem),
            Ok(plan) => with_barrier(command, plan, barriers[count - 1]),
        }
    }
}

/// The barriers to record.
pub open spec fn spec_barrier(command: CommandModel, barriers: Seq<Barrier<'_>>) -> Result<
    BarrierModel,
    Problem,
> {
    match command::spec_recording(command, true) {
        Err(problem) => Err(problem),
        Ok(_) => barriers_upto(command, barriers, barriers.len()),
    }
}

proof fn barriers_error_stays(
    command: CommandModel,
    barriers: Seq<Barrier<'_>>,
    shorter: nat,
    longer: nat,
)
    requires
        shorter <= longer,
        barriers_upto(command, barriers, shorter) is Err,
    ensures
        barriers_upto(command, barriers, longer) == barriers_upto(command, barriers, shorter),
    decreases longer,
{
    if shorter < longer {
        barriers_error_stays(command, barriers, shorter, (longer - 1) as nat);
    }
}

fn add_barrier(command: &CommandBuffer, plan: &mut BarrierPlan, barrier: &Barrier<'_>) -> (r:
    Result<(), GpuError>)
    ensures
        match (r, with_barrier(command@, old(plan)@, *barrier)) {
            (Ok(_), Ok(expected)) => final(plan)@ == expected,
            (Err(error), Err(problem)) => error@ == problem,
            _ => false,
        },
{
    match barrier {
        Barrier::Memory { before, after } => {
            plan.memory.push(make_scopes(before.0, before.1, after.0, after.1));
        },
        Barrier::Buffer { range, before, after } => {
            command.same_device(range.heap().state())?;
            plan.buffers.push(
                BufferBarrier {
                    scopes: make_scopes(before.0, before.1, after.0, after.1),
                    buffer: range.heap().buffer(),
                    offset: range.offset(),
                    size: range.size(),
                },
            );
        },
        Barrier::Texture { texture, before, after } => {
            command.same_device(texture.state())?;
            if after.2 == TextureLayout::Undefined {
                return Err(GpuError::InvalidArgument("cannot transition to UNDEFINED"));
            }
            let desc = texture.description();
            let info = TextureFormatInfo::get_texture_format_info(desc.format);
            plan.images.push(
                ImageBarrier {
                    scopes: make_scopes(before.0, before.1, after.0, after.1),
                    old_layout: vk::ImageLayout::from(before.2),
                    new_layout: vk::ImageLayout::from(after.2),
                    image: texture.image(),
                    subresources: SubresourceRange {
                        aspect_mask: ImageAspect {
                            color: !info.depth && !info.stencil,
                            depth: info.depth,
                            stencil: info.stencil,
                        },
                        base_mip_level: 0,
                        level_count: desc.mip_levels,
                        base_array_layer: 0,
                        layer_count: desc.layer_count,
                    },
                },
            );
        },
    }
    Ok(())
}

/// Plans batched memory, buffer and whole-image barriers.
pub fn barrier(command: &CommandBuffer, barriers: &[Barrier<'_>]) -> (r: Result<
    BarrierPlan,
    GpuError,
>)
    ensures
        match (r, spec_barrier(command@, barriers@)) {
            (Ok(plan), Ok(expected)) => plan@ == expected,
            (Err(error), Err(problem)) => error@ == problem,
            _ => false,
        },
{
    command.recording(true)?;
    let mut plan = BarrierPlan { memory: Vec::new(), buffers: Vec::new(), images: Vec::new() };
    let mut index: usize = 0;
    assert(barriers_upto(command@, barriers@, 0) == Ok::<_, Problem>(plan@)) by {
        assert(plan@.memory =~= Seq::empty());
        assert(plan@.buffers =~= Seq::empty());
        assert(plan@.images =~= Seq::empty());
    }
    while index < barriers.len()
        invariant
            index <= barriers@.len(),
            barriers_upto(command@, barriers@, index as nat) == Ok::<_, Problem>(plan@),
            spec_barrier(command@, barriers@) == barriers_upto(
                command@,
                barriers@,
                barriers@.len(),
            ),
        decreases barriers@.len() - index,
    {
        proof {
            if barriers_upto(command@, barriers@, index as nat + 1) is Err {
                barriers_error_stays(command@, barriers@, index as nat + 1, barriers@.len());
            }
        }
        add_barrier(command, &mut plan, &barriers[index])?;
        index = index + 1;
    }
    Ok(plan)
}

// ---------------------------------------------------------------------------
// Copies
// ---------------------------------------------------------------------------

/// A copy between buffers.
#[derive(Debug, Clone, Copy, PartialEq, Eq, Structural)]
pub struct BufferCopy {
    pub source: u64,
    pub destination: u64,
    pub source_offset: u64,
    pub destination_offset: u64,
    pub size: u64,
}

/// A copy between two ranges.
pub open spec fn spec_copy_memory(
    command: CommandModel,
    source: RangeModel,
    destination: RangeModel,
) -> Result<BufferCopy, Problem> {
    match command::spec_recording(command, true) {
        Err(problem) => Err(problem),
        Ok(_) => if command.state.id != source.heap.state.id || command.state.id
            != destination.heap.state.id {
            error::refused("resources belong to different devices")
        } else if source.size != destination.size || source.offset % 4 != 0 || destination.offset
            % 4 != 0 || source.size % 4 != 0 {
            error::refused("copy ranges need equal sizes and four-byte alignment")
        } else if source.overlaps(destination) {
            error::refused("buffer copy ranges overlap")
        } else {
            Ok(
                BufferCopy {
                    source: source.heap.buffer,
                    destination: destination.heap.buffer,
                    source_offset: source.offset,
                    destination_offset: destination.offset,
                    size: source.size,
                },
            )
        },
    }
}

/// Plans a copy of equal-sized buffer ranges, with four-byte-aligned offsets and
/// size.
pub fn copy_memory(command: &CommandBuffer, source: GpuRange<'_>, destination: GpuRange<'_>) -> (r:
    Result<BufferCopy, GpuError>)
    ensures
        error::outcome(r) == spec_copy_memory(command@, source@, destination@),
{
    command.recording(true)?;
    command.same_device(source.heap().state())?;
    command.same_device(destination.heap().state())?;
    let from: u64 = source.offset();
    let to: u64 = destination.offset();
    let size: u64 = source.size();
    if size != destination.size() || from % 4 != 0 || to % 4 != 0 || size % 4 != 0 {
        return Err(
            GpuError::InvalidArgument("copy ranges need equal sizes and four-byte alignment"),
        );
    }
    let first = source.heap();
    let second = destination.heap();
    if first.buffer() == second.buffer() && from < to + size && to < from + size {
        return Err(GpuError::InvalidArgument("buffer copy ranges overlap"));
    }
    Ok(
        BufferCopy {
            source: first.buffer(),
            destination: second.buffer(),
            source_offset: from,
            destination_offset: to,
            size,
        },
    )
}

/// A copy between a buffer and an image.
#[derive(Debug, Clone, Copy, PartialEq, Eq, Structural)]
pub struct TextureCopy {
    pub buffer: u64,
    pub image: u64,
    pub region: BufferImageCopy,
}

/// A copy between a range and a texture that has the needed use.
pub open spec fn spec_texture_transfer(
    command: CommandModel,
    range: RangeModel,
    texture: TextureModel,
    desc: TextureCopyDesc,
    aspect: TextureAspect,
    usage: TextureUsage,
    missing: &'static str,
) -> Result<TextureCopy, Problem> {
    match command::spec_recording(command, true) {
        Err(problem) => Err(problem),
        Ok(_) => if command.state.id != range.heap.state.id || command.state.id
            != texture.state.id {
            error::refused("resources belong to different devices")
        } else if !texture.desc.usage.has_all(usage) {
            error::refused(missing)
        } else {
            match texture_copy::spec_copy_region(
                texture.desc,
                desc,
                aspect,
                range.offset,
                range.size,
            ) {
                Err(problem) => Err(problem),
                Ok(region) => Ok(
                    TextureCopy { buffer: range.heap.buffer, image: texture.image, region },
                ),
            }
        },
    }
}

fn plan_texture_transfer(
    command: &CommandBuffer,
    range: &GpuRange<'_>,
    texture: &Texture,
    desc: &TextureCopyDesc,
    aspect: TextureAspect,
    usage: TextureUsage,
    missing: &'static str,
) -> (r: Result<TextureCopy, GpuError>)
    ensures
        error::outcome(r) == spec_texture_transfer(
            command@,
            range@,
            texture@,
            *desc,
            aspect,
            usage,
            missing,
        ),
{
    command.recording(true)?;
    command.same_device(range.heap().state())?;
    command.same_device(texture.state())?;
    let source = texture.description();
    if !source.usage.contains(usage) {
        return Err(GpuError::InvalidArgument(missing));
    }
    let region = texture_copy_region(source, desc, aspect, range.offset(), range.size())?;
    Ok(TextureCopy { buffer: range.heap().buffer(), image: texture.image(), region })
}

/// Plans an upload to a texture in transfer-destination layout. Pitch 0 means
/// tightly packed.
pub fn copy_memory_to_texture(
    command: &CommandBuffer,
    source: GpuRange<'_>,
    texture: &Texture,
    desc: &TextureCopyDesc,
    aspect: TextureAspect,
) -> (r: Result<TextureCopy, GpuError>)
    ensures
        error::outcome(r) == spec_texture_transfer(
            command@,
            source@,
            texture@,
            *desc,
            aspect,
            TextureUsage::TRANSFER_DESTINATION(),
            "texture lacks TRANSFER_DESTINATION usage",
        ),
{
    plan_texture_transfer(
        command,
        &source,
        texture,
        desc,
        aspect,
        TextureUsage::TRANSFER_DESTINATION(),
        "texture lacks TRANSFER_DESTINATION usage",
    )
}

/// Plans a read from a texture in transfer-source layout.
pub fn copy_texture_to_memory(
    command: &CommandBuffer,
    texture: &Texture,
    destination: GpuRange<'_>,
    desc: &TextureCopyDesc,
    aspect: TextureAspect,
) -> (r: Result<TextureCopy, GpuError>)
    ensures
        error::outcome(r) == spec_texture_transfer(
            command@,
            destination@,
            texture@,
            *desc,
            aspect,
            TextureUsage::TRANSFER_SOURCE(),
            "texture lacks TRANSFER_SOURCE usage",
        ),
{
    plan_texture_transfer(
        command,
        &destination,
        texture,
        desc,
        aspect,
        TextureUsage::TRANSFER_SOURCE(),
        "texture lacks TRANSFER_SOURCE usage",
    )
}

// ---------------------------------------------------------------------------
// Rendering
// ---------------------------------------------------------------------------

/// A color target of a render pass.
pub struct ColorAttachment<'a> {
    pub render_view: Option<&'a RenderView>,
    pub load: LoadOp,
    pub store: StoreOp,
    pub clear: ClearColor,
}

impl<'a> Default for ColorAttachment<'a> {
    fn default() -> (r: ColorAttachment<'a>)
        ensures
            r.render_view is None,
            r.load == LoadOp::Load,
            r.store == StoreOp::Store,
            r.clear == ClearColor::spec_default(),
    {
        ColorAttachment {
            render_view: None,
            load: LoadOp::Load,
            store: StoreOp::Store,
            clear: ClearColor::default(),
        }
    }
}

/// The depth target of a render pass.
pub struct DepthAttachment<'a> {
    pub render_view: Option<&'a RenderView>,
    pub load: LoadOp,
    pub store: StoreOp,
    pub clear: F32Bits,
}

impl<'a> Default for DepthAttachment<'a> {
    fn default() -> (r: DepthAttachment<'a>)
        ensures
            r.render_view is None,
            r.load == LoadOp::Load,
            r.store == StoreOp::Store,
            r.clear == F32Bits::ONE(),
    {
        DepthAttachment {
            render_view: None,
            load: LoadOp::Load,
            store: StoreOp::Store,
            clear: F32Bits::ONE(),
        }
    }
}

/// The stencil target of a render pass.
pub struct StencilAttachment<'a> {
    pub render_view: Option<&'a RenderView>,
    pub load: LoadOp,
    pub store: StoreOp,
    pub clear: u8,
}

impl<'a> Default for StencilAttachment<'a> {
    fn default() -> (r: StencilAttachment<'a>)
        ensures
            r.render_view is None,
            r.load == LoadOp::Load,
            r.store == StoreOp::Store,
            r.clear == 0,
    {
        StencilAttachment {
            render_view: None,
            load: LoadOp::Load,
            store: StoreOp::Store,
            clear: 0,
        }
    }
}

/// The targets of a render pass.
pub struct RenderingDesc<'a> {
    pub colors: &'a [ColorAttachment<'a>],
    pub depth: DepthAttachment<'a>,
    pub stencil: StencilAttachment<'a>,
}

impl<'a> Default for RenderingDesc<'a> {
    fn default() -> (r: RenderingDesc<'a>)
        ensures
            r.colors@.len() == 0,
            r.depth.render_view is None,
            r.depth.load == LoadOp::Load,
            r.depth.store == StoreOp::Store,
            r.depth.clear == F32Bits::ONE(),
            r.stencil.render_view is None,
            r.stencil.load == LoadOp::Load,
            r.stencil.store == StoreOp::Store,
            r.stencil.clear == 0,
    {
        RenderingDesc {
            colors: &[],
            depth: DepthAttachment::default(),
            stencil: StencilAttachment::default(),
        }
    }
}

/// The Vulkan number of what happens to an attachment at the start.
pub open spec fn load_code(op: LoadOp) -> i32 {
    match op {
        LoadOp::Load => 0,
        LoadOp::Clear => 1,
        LoadOp::Discard => 2,
    }
}

/// The Vulkan number of what happens to an attachment at the end.
pub open spec fn store_code(op: StoreOp) -> i32 {
    match op {
        StoreOp::Store => 0,
        StoreOp::Discard => 1,
    }
}

fn load_op(op: LoadOp) -> (r: i32)
    ensures
        r == load_code(op),
{
    match op {
        LoadOp::Load => 0,
        LoadOp::Clear => 1,
        LoadOp::Discard => 2,
    }
}

fn store_op(op: StoreOp) -> (r: i32)
    ensures
        r == store_code(op),
{
    match op {
        StoreOp::Store => 0,
        StoreOp::Discard => 1,
    }
}

/// A color attachment to render to.
#[derive(Debug, Clone, Copy, PartialEq, Eq, Structural)]
pub struct ColorPlan {
    pub view: u64,
    pub load: i32,
    pub store: i32,
    pub clear: ClearColor,
}

/// A depth attachment to render to.
#[derive(Debug, Clone, Copy, PartialEq, Eq, Structural)]
pub struct DepthPlan {
    pub view: u64,
    pub load: i32,
    pub store: i32,
    pub clear: F32Bits,
}

/// A stencil attachment to render to.
#[derive(Debug, Clone, Copy, PartialEq, Eq, Structural)]
pub struct StencilPlan {
    pub view: u64,
    pub load: i32,
    pub store: i32,
    pub clear: u32,
}

/// A render pass to begin. Once it has begun, the viewport and then the scissor are
/// set, up to the first that is refused; the pass is open all the same.
pub struct RenderingPlan {
    pub colors: Vec<ColorPlan>,
    pub depth: Option<DepthPlan>,
    pub stencil: Option<StencilPlan>,
    pub extent: U32x2,
    pub viewport: Result<Viewport, GpuError>,
    pub scissor: Result<Scissor, GpuError>,
}

/// A render pass to begin, as a value.
#[verifier::ext_equal]
pub struct RenderingModel {
    pub colors: Seq<ColorPlan>,
    pub depth: Option<DepthPlan>,
    pub stencil: Option<StencilPlan>,
    pub extent: U32x2,
    pub viewport: Result<Viewport, Problem>,
    pub scissor: Result<Scissor, Problem>,
}

impl View for RenderingPlan {
    type V = RenderingModel;

    open spec fn view(&self) -> RenderingModel {
        RenderingModel {
            colors: self.colors@,
            depth: self.depth,
            stencil: self.stencil,
            extent: self.extent,
            viewport: error::outcome(self.viewport),
            scissor: error::outcome(self.scissor),
        }
    }
}

/// The number of an integer size.
pub open spec fn float_size(value: u32) -> F32Bits {
    F32Bits(float_bits::bits_of_integer(value as nat) as u32)
}

/// The size is within the limits of framebuffers and viewports.
pub open spec fn extent_allowed(state: DeviceState, extent: U32x2) -> bool {
    let limits = state.limits;
    &&& extent.x <= limits.max_framebuffer_width
    &&& extent.y <= limits.max_framebuffer_height
    &&& extent.x <= limits.max_viewport_width
    &&& extent.y <= limits.max_viewport_height
    &&& !limits.viewport_bounds_high.below(float_size(extent.x))
    &&& !limits.viewport_bounds_high.below(float_size(extent.y))
}

/// A view can be an attachment of the given use and size.
pub open spec fn spec_attachable(
    command: CommandModel,
    view: ViewModel,
    usage: TextureUsage,
    extent: U32x2,
    mismatch: &'static str,
) -> Result<(), Problem> {
    match command::spec_same_device(command, view.texture.state) {
        Err(problem) => Err(problem),
        Ok(_) => if view.plan.subresources.level_count != 1 || !(view.plan.view_type is TwoD
            || view.plan.view_type is TwoDArray) {
            error::refused("attachments require single-mip 2D/2D-array views")
        } else if !view.texture.desc.usage.has_all(usage) || extent.x > view.plan.extent.x
            || extent.y > view.plan.extent.y {
            error::refused(mismatch)
        } else {
            Ok(())
        },
    }
}

/// The first `count` color attachments.
pub open spec fn colors_upto(
    command: CommandModel,
    colors: Seq<ColorAttachment<'_>>,
    extent: U32x2,
    count: nat,
) -> Result<Seq<ColorPlan>, Problem>
    decreases count,
{
    if count == 0 {
        Ok(Seq::empty())
    } else {
        match colors_upto(command, colors, extent, (count - 1) as nat) {
            Err(problem) => Err(problem),
            Ok(plans) => {
                let attachment = colors[count - 1];
                match attachment.render_view {
                    None => error::refused("color attachment needs a render view"),
                    Some(view) => match spec_attachable(
                        command,
                        view@,
                        TextureUsage::COLOR_ATTACHMENT(),
                        extent,
                        "color attachment usage or extent mismatch",
                    ) {
                        Err(problem) => Err(problem),
                        Ok(_) => Ok(
                            plans.push(
                                ColorPlan {
                                    view: view@.raw,
                                    load: load_code(attachment.load),
                                    store: store_code(attachment.store),
                                    clear: attachment.clear,
                                },
                            ),
                        ),
                    },
                }
            },
        }
    }
}

/// A depth or stencil view, if there is one, can be an attachment.
pub open spec fn spec_depth_attachable(
    command: CommandModel,
    view: Option<&RenderView>,
    extent: U32x2,
) -> Result<(), Problem> {
    match view {
        None => Ok(()),
        Some(view) => spec_attachable(
            command,
            view@,
            TextureUsage::DEPTH_STENCIL_ATTACHMENT(),
            extent,
            "depth/stencil attachment usage or extent mismatch",
        ),
    }
}

/// The views of depth and stencil fit each other and their parts.
pub open spec fn spec_depth_stencil(
    depth: Option<&RenderView>,
    stencil: Option<&RenderView>,
) -> Result<(), Problem> {
    if depth is Some && stencil is Some && depth->Some_0@.raw != stencil->Some_0@.raw {
        error::refused("depth and stencil must use the same image view")
    } else if depth is Some && !depth->Some_0@.plan.subresources.aspect_mask.depth {
        error::refused("depth view lacks depth aspect")
    } else if stencil is Some && !stencil->Some_0@.plan.subresources.aspect_mask.stencil {
        error::refused("stencil view lacks stencil aspect")
    } else {
        Ok(())
    }
}

/// A viewport that covers a size.
pub open spec fn full_viewport(extent: U32x2) -> Viewport {
    Viewport {
        x: F32Bits::ZERO(),
        y: F32Bits::ZERO(),
        width: float_size(extent.x),
        height: float_size(extent.y),
        min_depth: F32Bits::ZERO(),
        max_depth: F32Bits::ONE(),
    }
}

/// The render pass that a description asks for.
pub open spec fn spec_begin_render_pass(
    command: CommandModel,
    desc: RenderingDesc<'_>,
    extent: U32x2,
) -> Result<RenderingModel, Problem> {
    match command::spec_recording(command, true) {
        Err(problem) => Err(problem),
        Ok(_) => if extent.x == 0 || extent.y == 0 || desc.colors@.len()
            > command.state.caps.max_color_attachments {
            error::refused("invalid render extent or color attachment count")
        } else if !extent_allowed(command.state, extent) {
            error::refused("render extent exceeds framebuffer/viewport limits")
        } else if desc.depth.render_view is Some && !desc.depth.clear.in_unit_range() {
            error::refused("depth clear must be in 0..=1")
        } else {
            match colors_upto(command, desc.colors@, extent, desc.colors@.len()) {
                Err(problem) => Err(problem),
                Ok(colors) => match spec_depth_attachable(
                    command,
                    desc.depth.render_view,
                    extent,
                ) {
                    Err(problem) => Err(problem),
                    Ok(_) => match spec_depth_attachable(
                        command,
                        desc.stencil.render_view,
                        extent,
                    ) {
                        Err(problem) => Err(problem),
                        Ok(_) => match spec_depth_stencil(
                            desc.depth.render_view,
                            desc.stencil.render_view,
                        ) {
                            Err(problem) => Err(problem),
                            Ok(_) => Ok(rendering_of(command, desc, extent, colors)),
                        },
                    },
                },
            }
        },
    }
}

/// A scissor that covers a size.
pub open spec fn full_scissor(extent: U32x2) -> Scissor {
    Scissor { x: 0, y: 0, width: extent.x, height: extent.y }
}

/// The render pass of checked targets.
pub open spec fn rendering_of(
    command: CommandModel,
    desc: RenderingDesc<'_>,
    extent: U32x2,
    colors: Seq<ColorPlan>,
) -> RenderingModel {
    RenderingModel {
        colors,
        depth: match desc.depth.render_view {
            None => None,
            Some(view) => Some(
                DepthPlan {
                    view: view@.raw,
                    load: load_code(desc.depth.load),
                    store: store_code(desc.depth.store),
                    clear: desc.depth.clear,
                },
            ),
        },
        stencil: match desc.stencil.render_view {
            None => None,
            Some(view) => Some(
                StencilPlan {
                    view: view@.raw,
                    load: load_code(desc.stencil.load),
                    store: store_code(desc.stencil.store),
                    clear: desc.stencil.clear as u32,
                },
            ),
        },
        extent,
        viewport: match spec_set_viewport(
            command,
            full_viewport(extent),
            float_size(extent.x),
            float_size(extent.y),
        ) {
            Err(problem) => Err(problem),
            Ok(_) => Ok(full_viewport(extent)),
        },
        scissor: match spec_set_scissor(command, full_scissor(extent)) {
            Err(problem) => Err(problem),
            Ok(_) => Ok(full_scissor(extent)),
        },
    }
}

fn check_attachable(
    command: &CommandBuffer,
    view: &RenderView,
    usage: TextureUsage,
    extent: U32x2,
    mismatch: &'static str,
) -> (r: Result<(), GpuError>)
    ensures
        error::outcome(r) == spec_attachable(command@, view@, usage, extent, mismatch),
{
    command.same_device(view.texture().state())?;
    let plan = view.plan();
    if plan.subresources.level_count != 1 || !(plan.view_type == ViewType::TwoD || plan.view_type
        == ViewType::TwoDArray) {
        return Err(
            GpuError::InvalidArgument("attachments require single-mip 2D/2D-array views"),
        );
    }
    if !view.texture().description().usage.contains(usage) || extent.x > view.extent().x || extent.y
        > view.extent().y {
        return Err(GpuError::InvalidArgument(mismatch));
    }
    Ok(())
}

proof fn colors_error_stays(
    command: CommandModel,
    colors: Seq<ColorAttachment<'_>>,
    extent: U32x2,
    shorter: nat,
    longer: nat,
)
    requires
        shorter <= longer,
        colors_upto(command, colors, extent, shorter) is Err,
    ensures
        colors_upto(command, colors, extent, longer) == colors_upto(
            command,
            colors,
            extent,
            shorter,
        ),
    decreases longer,
{
    if shorter < longer {
        colors_error_stays(command, colors, extent, shorter, (longer - 1) as nat);
    }
}

fn plan_colors(command: &CommandBuffer, colors: &[ColorAttachment<'_>], extent: U32x2) -> (r:
    Result<Vec<ColorPlan>, GpuError>)
    ensures
        match (r, colors_upto(command@, colors@, extent, colors@.len())) {
            (Ok(plans), Ok(expected)) => plans@ == expected,
            (Err(error), Err(problem)) => error@ == problem,
            _ => false,
        },
{
    let mut plans: Vec<ColorPlan> = Vec::new();
    let mut index: usize = 0;
    while index < colors.len()
        invariant
            index <= colors@.len(),
            colors_upto(command@, colors@, extent, index as nat) == Ok::<_, Problem>(plans@),
        decreases colors@.len() - index,
    {
        proof {
            if colors_upto(command@, colors@, extent, index as nat + 1) is Err {
                colors_error_stays(command@, colors@, extent, index as nat + 1, colors@.len());
            }
        }
        let attachment = &colors[index];
        let view = match attachment.render_view {
            Some(view) => view,
            None => return Err(GpuError::InvalidArgument("color attachment needs a render view")),
        };
        check_attachable(
            command,
            view,
            TextureUsage::COLOR_ATTACHMENT(),
            extent,
            "color attachment usage or extent mismatch",
        )?;
        plans.push(
            ColorPlan {
                view: view.raw(),
                load: load_op(attachment.load),
                store: store_op(attachment.store),
                clear: attachment.clear,
            },
        );
        index = index + 1;
    }
    Ok(plans)
}

fn check_depth_attachable(command: &CommandBuffer, view: Option<&RenderView>, extent: U32x2) -> (r:
    Result<(), GpuError>)
    ensures
        error::outcome(r) == spec_depth_attachable(command@, view, extent),
{
    match view {
        None => Ok(()),
        Some(view) => check_attachable(
            command,
            view,
            TextureUsage::DEPTH_STENCIL_ATTACHMENT(),
            extent,
            "depth/stencil attachment usage or extent mismatch",
        ),
    }
}

fn check_depth_stencil(depth: Option<&RenderView>, stencil: Option<&RenderView>) -> (r: Result<
    (),
    GpuError,
>)
    ensures
        error::outcome(r) == spec_depth_stencil(depth, stencil),
{
    if let Some(depth) = depth {
        if let Some(stencil) = stencil {
            if depth.raw() != stencil.raw() {
                return Err(
                    GpuError::InvalidArgument("depth and stencil must use the same image view"),
                );
            }
        }
    }
    if let Some(depth) = depth {
        if !depth.plan().subresources.aspect_mask.depth {
            return Err(GpuError::InvalidArgument("depth view lacks depth aspect"));
        }
    }
    if let Some(stencil) = stencil {
        if !stencil.plan().subresources.aspect_mask.stencil {
            return Err(GpuError::InvalidArgument("stencil view lacks stencil aspect"));
        }
    }
    Ok(())
}

fn is_extent_allowed(state: &DeviceState, extent: U32x2) -> (r: bool)
    ensures
        r == extent_allowed(*state, extent),
{
    let limits = state.limits;
    extent.x <= limits.max_framebuffer_width && extent.y <= limits.max_framebuffer_height
        && extent.x <= limits.max_viewport_width && extent.y <= limits.max_viewport_height
        && !limits.viewport_bounds_high.less_than(F32Bits::from_u32(extent.x))
        && !limits.viewport_bounds_high.less_than(F32Bits::from_u32(extent.y))
}

/// Plans a render pass and opens it. The size is explicit, so attachmentless
/// rendering works. The pass starts with a full-size viewport and scissor, where the
/// device allows them.
pub fn begin_render_pass(command: &mut CommandBuffer, desc: &RenderingDesc<'_>, extent: U32x2) -> (r:
    Result<RenderingPlan, GpuError>)
    ensures
        match (r, spec_begin_render_pass(old(command)@, *desc, extent)) {
            (Ok(plan), Ok(expected)) => plan@ == expected && final(command)@ == (CommandModel {
                rendering: true,
                ..old(command)@
            }),
            (Err(error), Err(problem)) => error@ == problem && final(command)@ == old(command)@,
            _ => false,
        },
{
    command.recording(true)?;
    if extent.x == 0 || extent.y == 0 || desc.colors.len()
        > command.state().caps.max_color_attachments as usize {
        return Err(
            GpuError::InvalidArgument("invalid render extent or color attachment count"),
        );
    }
    if !is_extent_allowed(command.state(), extent) {
        return Err(
            GpuError::InvalidArgument("render extent exceeds framebuffer/viewport limits"),
        );
    }
    if desc.depth.render_view.is_some() && !desc.depth.clear.is_in_unit_range() {
        return Err(GpuError::InvalidArgument("depth clear must be in 0..=1"));
    }
    let colors = plan_colors(command, desc.colors, extent)?;
    check_depth_attachable(command, desc.depth.render_view, extent)?;
    check_depth_attachable(command, desc.stencil.render_view, extent)?;
    check_depth_stencil(desc.depth.render_view, desc.stencil.render_view)?;
    let depth = match desc.depth.render_view {
        None => None,
        Some(view) => Some(
            DepthPlan {
                view: view.raw(),
                load: load_op(desc.depth.load),
                store: store_op(desc.depth.store),
                clear: desc.depth.clear,
            },
        ),
    };
    let stencil = match desc.stencil.render_view {
        None => None,
        Some(view) => Some(
            StencilPlan {
                view: view.raw(),
                load: load_op(desc.stencil.load),
                store: store_op(desc.stencil.store),
                clear: desc.stencil.clear as u32,
            },
        ),
    };
    let viewport = Viewport {
        x: F32Bits::ZERO(),
        y: F32Bits::ZERO(),
        width: F32Bits::from_u32(extent.x),
        height: F32Bits::from_u32(extent.y),
        min_depth: F32Bits::ZERO(),
        max_depth: F32Bits::ONE(),
    };
    let scissor = Scissor { x: 0, y: 0, width: extent.x, height: extent.y };
    command.set_rendering(true);
    let viewport = match set_viewport(command, &viewport, viewport.width, viewport.height) {
        Err(error) => Err(error),
        Ok(()) => Ok(viewport),
    };
    let scissor = match set_scissor(command, &scissor) {
        Err(error) => Err(error),
        Ok(()) => Ok(scissor),
    };
    Ok(RenderingPlan { colors, depth, stencil, extent, viewport, scissor })
}

/// Closes the render pass.
pub fn end_render_pass(command: &mut CommandBuffer) -> (r: Result<(), GpuError>)
    ensures
        ({
            let expected = if old(command)@.status != CommandStatus::Recording {
                error::refused("command is not recording; call reset_command")
            } else if !old(command)@.rendering {
                error::refused("no active render pass")
            } else {
                Ok::<(), Problem>(())
            };
            &&& error::outcome(r) == expected
            &&& final(command)@ == (if expected is Ok {
                CommandModel { rendering: false, ..old(command)@ }
            } else {
                old(command)@
            })
        }),
{
    command.recording(false)?;
    if !command.is_rendering() {
        return Err(GpuError::InvalidArgument("no active render pass"));
    }
    command.set_rendering(false);
    Ok(())
}

// ---------------------------------------------------------------------------
// State
// ---------------------------------------------------------------------------

/// Binds a pipeline.
pub fn bind_pso(command: &mut CommandBuffer, pso: &PSO) -> (r: Result<(), GpuError>)
    ensures
        ({
            let expected = match command::spec_recording(old(command)@, false) {
                Err(problem) => Err::<(), Problem>(problem),
                Ok(_) => command::spec_same_device(old(command)@, *pso.state),
            };
            &&& error::outcome(r) == expected
            &&& final(command)@ == (if expected is Ok {
                CommandModel { bound: Some((pso.bind_point, pso.mesh)), ..old(command)@ }
            } else {
                old(command)@
            })
        }),
{
    command.recording(false)?;
    command.same_device(&pso.state)?;
    command.set_bound(pso.bind_point, pso.mesh);
    Ok(())
}

/// Descriptor heaps to bind: for which kind of work, and where they start.
#[derive(Debug, Clone, Copy, PartialEq, Eq, Structural)]
pub struct HeapBindings {
    pub bind_point: BindPoint,
    pub sampled: u64,
    pub storage: u64,
    pub sampler: u64,
}

/// A heap in its place among the bound heaps.
pub open spec fn spec_heap_in_place(command: CommandModel, heap: HeapModel, set: usize) -> Result<
    (),
    Problem,
> {
    match command::spec_same_device(command, heap.state) {
        Err(problem) => Err(problem),
        Ok(_) => if heap.descriptor_set != Some(set) {
            error::refused("expected sampled, storage, sampler heaps in that order")
        } else {
            Ok(())
        },
    }
}

/// The heaps to bind for the current pipeline.
pub open spec fn spec_bind_heaps(
    command: CommandModel,
    sampled: HeapModel,
    storage: HeapModel,
    sampler: HeapModel,
) -> Result<HeapBindings, Problem> {
    match command::spec_recording(command, false) {
        Err(problem) => Err(problem),
        Ok(_) => match command.bound {
            None => error::refused("bind a PSO before descriptor heaps"),
            Some((bind_point, _)) => match spec_heap_in_place(command, sampled, 0) {
                Err(problem) => Err(problem),
                Ok(_) => match spec_heap_in_place(command, storage, 1) {
                    Err(problem) => Err(problem),
                    Ok(_) => match spec_heap_in_place(command, sampler, 2) {
                        Err(problem) => Err(problem),
                        Ok(_) => Ok(
                            HeapBindings {
                                bind_point,
                                sampled: sampled.address,
                                storage: storage.address,
                                sampler: sampler.address,
                            },
                        ),
                    },
                },
            },
        },
    }
}

fn check_heap(command: &CommandBuffer, heap: &GpuHeap, set: usize) -> (r: Result<(), GpuError>)
    ensures
        error::outcome(r) == spec_heap_in_place(command@, heap@, set),
{
    command.same_device(heap.state())?;
    let in_place = match heap.descriptor_set() {
        Some(index) => index == set,
        None => false,
    };
    if !in_place {
        return Err(
            GpuError::InvalidArgument("expected sampled, storage, sampler heaps in that order"),
        );
    }
    Ok(())
}

/// Plans the binding of the sampled-image, storage-image and sampler heaps for the
/// current pipeline.
pub fn bind_descriptor_heaps(command: &CommandBuffer, heaps: [&GpuHeap; 3]) -> (r: Result<
    HeapBindings,
    GpuError,
>)
    ensures
        error::outcome(r) == spec_bind_heaps(command@, heaps@[0]@, heaps@[1]@, heaps@[2]@),
{
    command.recording(false)?;
    let bind_point = match command.bound() {
        Some((bind_point, _)) => bind_point,
        None => return Err(GpuError::InvalidArgument("bind a PSO before descriptor heaps")),
    };
    check_heap(command, heaps[0], 0)?;
    check_heap(command, heaps[1], 1)?;
    check_heap(command, heaps[2], 2)?;
    Ok(
        HeapBindings {
            bind_point,
            sampled: heaps[0].device_address(),
            storage: heaps[1].device_address(),
            sampler: heaps[2].device_address(),
        },
    )
}

/// Checks push constants: four-byte-aligned, not empty and within the limit.
pub fn push_constants(command: &CommandBuffer, offset: u32, bytes: &[u8]) -> (r: Result<
    (),
    GpuError,
>)
    ensures
        error::outcome(r) == (match command::spec_recording(command@, false) {
            Err(problem) => Err::<(), Problem>(problem),
            Ok(_) => if bytes@.len() == 0 || offset % 4 != 0 || bytes@.len() % 4 != 0 || offset
                + bytes@.len() > command@.state.caps.max_push_data_size {
                error::refused("push constants exceed limit or lack four-byte alignment")
            } else {
                Ok(())
            },
        }),
{
    command.recording(false)?;
    let limit: u64 = command.state().caps.max_push_data_size;
    let length: usize = bytes.len();
    if length == 0 || offset % 4 != 0 || length % 4 != 0 || length as u64 > limit || offset as u64
        > limit - length as u64 {
        return Err(
            GpuError::InvalidArgument("push constants exceed limit or lack four-byte alignment"),
        );
    }
    Ok(())
}

/// All values of a viewport are finite.
pub open spec fn viewport_finite(viewport: Viewport) -> bool {
    &&& viewport.x.finite()
    &&& viewport.y.finite()
    &&& viewport.width.finite()
    &&& viewport.height.finite()
    &&& viewport.min_depth.finite()
    &&& viewport.max_depth.finite()
}

/// A viewport lies within the bounds of a device. Its height may be negative, which
/// flips it.
pub open spec fn viewport_allowed(
    state: DeviceState,
    viewport: Viewport,
    right: F32Bits,
    bottom: F32Bits,
) -> bool {
    let low = state.limits.viewport_bounds_low;
    let high = state.limits.viewport_bounds_high;
    &&& F32Bits::ZERO().below(viewport.width)
    &&& viewport.height.order() != 0
    &&& !float_size(state.limits.max_viewport_width).below(viewport.width)
    &&& !float_size(state.limits.max_viewport_height).below(viewport.height.spec_abs())
    &&& viewport.min_depth.in_unit_range()
    &&& viewport.max_depth.in_unit_range()
    &&& !viewport.x.below(low)
    &&& !high.below(right)
    &&& !viewport.y.below(low)
    &&& !bottom.below(low)
    &&& !high.below(viewport.y)
    &&& !high.below(bottom)
}

/// Whether a viewport can be set.
pub open spec fn spec_set_viewport(
    command: CommandModel,
    viewport: Viewport,
    right: F32Bits,
    bottom: F32Bits,
) -> Result<(), Problem> {
    match command::spec_recording(command, false) {
        Err(problem) => Err(problem),
        Ok(_) => if !viewport_finite(viewport) {
            error::refused("viewport values must be finite")
        } else if !viewport_allowed(command.state, viewport, right, bottom) {
            error::refused("viewport exceeds device bounds")
        } else {
            Ok(())
        },
    }
}

/// Whether a scissor can be set.
pub open spec fn spec_set_scissor(command: CommandModel, scissor: Scissor) -> Result<
    (),
    Problem,
> {
    match command::spec_recording(command, false) {
        Err(problem) => Err(problem),
        Ok(_) => if scissor.x < 0 || scissor.y < 0 || scissor.x + scissor.width > i32::MAX
            || scissor.y + scissor.height > i32::MAX {
            error::refused("scissor exceeds signed coordinate bounds")
        } else {
            Ok(())
        },
    }
}

/// Checks a viewport. `right` is the sum of its `x` and `width`, and `bottom` that
/// of its `y` and `height`.
pub fn set_viewport(
    command: &CommandBuffer,
    viewport: &Viewport,
    right: F32Bits,
    bottom: F32Bits,
) -> (r: Result<(), GpuError>)
    ensures
        error::outcome(r) == spec_set_viewport(command@, *viewport, right, bottom),
{
    command.recording(false)?;
    if !viewport.x.is_finite() || !viewport.y.is_finite() || !viewport.width.is_finite()
        || !viewport.height.is_finite() || !viewport.min_depth.is_finite()
        || !viewport.max_depth.is_finite() {
        return Err(GpuError::InvalidArgument("viewport values must be finite"));
    }
    let limits = command.state().limits;
    let low = limits.viewport_bounds_low;
    let high = limits.viewport_bounds_high;
    if !F32Bits::ZERO().less_than(viewport.width) || viewport.height.is_zero()
        || F32Bits::from_u32(limits.max_viewport_width).less_than(viewport.width)
        || F32Bits::from_u32(limits.max_viewport_height).less_than(viewport.height.abs())
        || !viewport.min_depth.is_in_unit_range() || !viewport.max_depth.is_in_unit_range()
        || viewport.x.less_than(low) || high.less_than(right) || viewport.y.less_than(low)
        || bottom.less_than(low) || high.less_than(viewport.y) || high.less_than(bottom) {
        return Err(GpuError::InvalidArgument("viewport exceeds device bounds"));
    }
    Ok(())
}

/// Checks a scissor: it must end within signed coordinates.
pub fn set_scissor(command: &CommandBuffer, scissor: &Scissor) -> (r: Result<(), GpuError>)
    ensures
        error::outcome(r) == spec_set_scissor(command@, *scissor),
{
    command.recording(false)?;
    if scissor.x < 0 || scissor.y < 0 || scissor.x as i64 + scissor.width as i64 > i32::MAX as i64
        || scissor.y as i64 + scissor.height as i64 > i32::MAX as i64 {
        return Err(GpuError::InvalidArgument("scissor exceeds signed coordinate bounds"));
    }
    Ok(())
}

// ---------------------------------------------------------------------------
// Draws and dispatches
// ---------------------------------------------------------------------------

/// The command has an open render pass and a pipeline of the given kind.
pub open spec fn ready_to_draw(command: CommandModel, mesh: bool) -> bool {
    command.rendering && command.bound == Some((BindPoint::Graphics, mesh))
}

fn is_bound(command: &CommandBuffer, wanted: BindPoint, wanted_mesh: bool) -> (r: bool)
    ensures
        r == (command@.bound == Some((wanted, wanted_mesh))),
{
    match command.bound() {
        Some((bind_point, mesh)) => bind_point == wanted && mesh == wanted_mesh,
        None => false,
    }
}

/// A draw to record.
#[derive(Debug, Clone, Copy, PartialEq, Eq, Structural)]
pub struct DrawCall {
    pub vertex_count: u32,
    pub instance_count: u32,
    pub first_vertex: u32,
    pub first_instance: u32,
}

/// Whether a draw may be recorded.
pub open spec fn spec_draw(command: CommandModel) -> Result<(), Problem> {
    match command::spec_recording(command, false) {
        Err(problem) => Err(problem),
        Ok(_) => if !ready_to_draw(command, false) {
            error::refused("draw needs an active render pass and graphics PSO")
        } else {
            Ok(())
        },
    }
}

/// Plans a draw.
pub fn draw(
    command: &CommandBuffer,
    vertex_count: u32,
    instance_count: u32,
    first_vertex: u32,
    first_instance: u32,
) -> (r: Result<DrawCall, GpuError>)
    ensures
        error::outcome(r) == (match spec_draw(command@) {
            Err(problem) => Err::<DrawCall, Problem>(problem),
            Ok(_) => Ok(DrawCall { vertex_count, instance_count, first_vertex, first_instance }),
        }),
{
    command.recording(false)?;
    if !command.is_rendering() || !is_bound(command, BindPoint::Graphics, false) {
        return Err(
            GpuError::InvalidArgument("draw needs an active render pass and graphics PSO"),
        );
    }
    Ok(DrawCall { vertex_count, instance_count, first_vertex, first_instance })
}

/// An indexed draw to record, and the index buffer that it binds.
#[derive(Debug, Clone, Copy, PartialEq, Eq, Structural)]
pub struct IndexedDrawCall {
    pub indices: IndexBinding,
    pub index_count: u32,
    pub instance_count: u32,
    pub first_index: u32,
    pub vertex_offset: i32,
    pub first_instance: u32,
}

/// An index buffer to bind, in Vulkan numbers.
#[derive(Debug, Clone, Copy, PartialEq, Eq, Structural)]
pub struct IndexBinding {
    pub buffer: u64,
    pub offset: u64,
    pub index_type: i32,
}

/// The bytes of an index.
pub open spec fn index_bytes(index_type: IndexType) -> int {
    match index_type {
        IndexType::Uint16 => 2,
        IndexType::Uint32 => 4,
    }
}

/// The index buffer of an indexed draw.
pub open spec fn spec_draw_indexed(
    command: CommandModel,
    indices: RangeModel,
    index_type: IndexType,
    index_count: u32,
    first_index: u32,
) -> Result<IndexBinding, Problem> {
    match command::spec_recording(command, false) {
        Err(problem) => Err(problem),
        Ok(_) => if command.state.id != indices.heap.state.id {
            error::refused("resources belong to different devices")
        } else if !ready_to_draw(command, false) || indices.heap.descriptor_set is Some {
            error::refused("indexed draw needs a render pass, graphics PSO and index buffer")
        } else if indices.offset as int % index_bytes(index_type) != 0 || (first_index
            + index_count) * index_bytes(index_type) > indices.size {
            error::refused("index range out of bounds or misaligned")
        } else {
            Ok(
                IndexBinding {
                    buffer: indices.heap.buffer,
                    offset: indices.offset,
                    index_type: match index_type {
                        IndexType::Uint16 => 0,
                        IndexType::Uint32 => 1,
                    },
                },
            )
        },
    }
}

fn plan_indices(
    command: &CommandBuffer,
    indices: &GpuRange<'_>,
    index_type: IndexType,
    index_count: u32,
    first_index: u32,
) -> (r: Result<IndexBinding, GpuError>)
    ensures
        error::outcome(r) == spec_draw_indexed(
            command@,
            indices@,
            index_type,
            index_count,
            first_index,
        ),
{
    command.recording(false)?;
    command.same_device(indices.heap().state())?;
    if !command.is_rendering() || !is_bound(command, BindPoint::Graphics, false)
        || indices.heap().descriptor_set().is_some() {
        return Err(
            GpuError::InvalidArgument(
                "indexed draw needs a render pass, graphics PSO and index buffer",
            ),
        );
    }
    let (size, kind): (u64, i32) = match index_type {
        IndexType::Uint16 => (2, 0),
        IndexType::Uint32 => (4, 1),
    };
    assert((first_index + index_count) * size <= 4 * (2 * u32::MAX)) by (nonlinear_arith)
        requires
            size == 2 || size == 4,
    ;
    if indices.offset() % size != 0 || (first_index as u64 + index_count as u64) * size
        > indices.size() {
        return Err(GpuError::InvalidArgument("index range out of bounds or misaligned"));
    }
    Ok(
        IndexBinding {
            buffer: indices.heap().buffer(),
            offset: indices.offset(),
            index_type: kind,
        },
    )
}

/// Plans an indexed draw. All indices must lie in the range.
#[allow(clippy::too_many_arguments)]
pub fn draw_indexed(
    command: &CommandBuffer,
    indices: GpuRange<'_>,
    index_type: IndexType,
    index_count: u32,
    instance_count: u32,
    first_index: u32,
    vertex_offset: i32,
    first_instance: u32,
) -> (r: Result<IndexedDrawCall, GpuError>)
    ensures
        error::outcome(r) == (match spec_draw_indexed(
            command@,
            indices@,
            index_type,
            index_count,
            first_index,
        ) {
            Err(problem) => Err::<IndexedDrawCall, Problem>(problem),
            Ok(binding) => Ok(
                IndexedDrawCall {
                    indices: binding,
                    index_count,
                    instance_count,
                    first_index,
                    vertex_offset,
                    first_instance,
                },
            ),
        }),
{
    let binding = plan_indices(command, &indices, index_type, index_count, first_index)?;
    Ok(
        IndexedDrawCall {
            indices: binding,
            index_count,
            instance_count,
            first_index,
            vertex_offset,
            first_instance,
        },
    )
}

/// No count exceeds its limit.
pub open spec fn groups_within(groups: U32x3, limits: U32x3) -> bool {
    groups.x <= limits.x && groups.y <= limits.y && groups.z <= limits.z
}

/// Whether a compute dispatch may be recorded.
pub open spec fn spec_dispatch(command: CommandModel, groups: U32x3) -> Result<(), Problem> {
    match command::spec_recording(command, true) {
        Err(problem) => Err(problem),
        Ok(_) => if command.bound != Some((BindPoint::Compute, false)) {
            error::refused("dispatch needs a compute PSO")
        } else if !groups_within(groups, command.state.limits.max_compute_work_group_count) {
            error::refused("compute group count exceeds device limit")
        } else {
            Ok(())
        },
    }
}

/// Checks a compute dispatch.
pub fn dispatch(command: &CommandBuffer, groups: U32x3) -> (r: Result<(), GpuError>)
    ensures
        error::outcome(r) == spec_dispatch(command@, groups),
{
    command.recording(true)?;
    if !is_bound(command, BindPoint::Compute, false) {
        return Err(GpuError::InvalidArgument("dispatch needs a compute PSO"));
    }
    let limits = command.state().limits.max_compute_work_group_count;
    if groups.x > limits.x || groups.y > limits.y || groups.z > limits.z {
        return Err(GpuError::InvalidArgument("compute group count exceeds device limit"));
    }
    Ok(())
}

/// Whether a mesh draw may be recorded.
pub open spec fn spec_draw_mesh(command: CommandModel, groups: U32x3) -> Result<(), Problem> {
    let limits = command.state.mesh_limits;
    match command::spec_recording(command, false) {
        Err(problem) => Err(problem),
        Ok(_) => if !command.state.caps.mesh_shader {
            error::lacking("VK_EXT_mesh_shader / meshShader"@)
        } else if !ready_to_draw(command, true) {
            error::refused("mesh draw needs a render pass and mesh PSO")
        } else if !groups_within(groups, limits.max_mesh_work_group_count) {
            error::refused("mesh workgroup count exceeds device limit")
        } else if groups.x * groups.y > limits.max_mesh_work_group_total_count || groups.x
            * groups.y * groups.z > limits.max_mesh_work_group_total_count {
            error::refused("mesh total workgroup count exceeds device limit")
        } else {
            Ok(())
        },
    }
}

/// Checks a mesh draw.
pub fn draw_mesh(command: &CommandBuffer, groups: U32x3) -> (r: Result<(), GpuError>)
    ensures
        error::outcome(r) == spec_draw_mesh(command@, groups),
{
    command.recording(false)?;
    if !command.state().caps.mesh_shader {
        return Err(unsupported("VK_EXT_mesh_shader / meshShader"));
    }
    if !command.is_rendering() || !is_bound(command, BindPoint::Graphics, true) {
        return Err(GpuError::InvalidArgument("mesh draw needs a render pass and mesh PSO"));
    }
    let limits = command.state().mesh_limits;
    let counts = limits.max_mesh_work_group_count;
    if groups.x > counts.x || groups.y > counts.y || groups.z > counts.z {
        return Err(GpuError::InvalidArgument("mesh workgroup count exceeds device limit"));
    }
    let total: u64 = limits.max_mesh_work_group_total_count as u64;
    assert(groups.x * groups.y <= u32::MAX * u32::MAX) by (nonlinear_arith)
        requires
            groups.x <= u32::MAX,
            groups.y <= u32::MAX,
    ;
    let layer: u64 = groups.x as u64 * groups.y as u64;
    if layer > total {
        return Err(GpuError::InvalidArgument("mesh total workgroup count exceeds device limit"));
    }
    assert(layer * groups.z <= u32::MAX * u32::MAX) by (nonlinear_arith)
        requires
            layer <= u32::MAX,
            groups.z <= u32::MAX,
    ;
    if layer * groups.z as u64 > total {
        return Err(GpuError::InvalidArgument("mesh total workgroup count exceeds device limit"));
    }
    Ok(())
}

// ---------------------------------------------------------------------------
// Timestamps
// ---------------------------------------------------------------------------

/// Exactly one bit is set.
pub open spec fn single_bit(mask: u64) -> bool {
    exists|shift: u64| shift < 64 && mask == #[trigger] (1u64 << shift)
}

fn is_single_bit(mask: u64) -> (r: bool)
    ensures
        r == single_bit(mask),
{
    let mut shift: u64 = 0;
    while shift < 64
        invariant
            shift <= 64,
            forall|s: u64| s < shift ==> mask != #[trigger] (1u64 << s),
        decreases 64 - shift,
    {
        if mask == 1u64 << shift {
            return true;
        }
        shift = shift + 1;
    }
    false
}

/// The stage is one single stage of the device.
pub open spec fn timestamp_stage(state: DeviceState, stage: Stage) -> bool {
    &&& single_bit(flags::stage_mask(stage))
    &&& !stage.has_any(Stage::HOST())
    &&& stage.has_any(Stage::MESH()) ==> state.caps.mesh_shader
}

/// Whether a timestamp may be written, and the Vulkan bits of its stage.
pub open spec fn spec_write_timestamp(command: CommandModel, index: u32, stage: Stage) -> Result<
    u64,
    Problem,
> {
    match command::spec_recording(command, false) {
        Err(problem) => Err(problem),
        Ok(_) => if !command.queries {
            error::lacking("timestamps are disabled or unsupported by this queue"@)
        } else if !timestamp_stage(command.state, stage) {
            error::refused("timestamp needs one supported device stage")
        } else if index >= command.written.len() {
            error::refused("timestamp index out of bounds")
        } else if command.written[index as int] {
            error::refused("timestamp query already written in this recording")
        } else {
            Ok(flags::stage_mask(stage))
        },
    }
}

/// Plans a timestamp at a stage. Each query is written once per recording.
pub fn write_timestamp(command: &mut CommandBuffer, index: u32, stage: Stage) -> (r: Result<
    vk::PipelineStageFlags2,
    GpuError,
>)
    ensures
        match (r, spec_write_timestamp(old(command)@, index, stage)) {
            (Ok(stages), Ok(bits)) => vulkan::vk_stage_bits(stages) == bits,
            (Err(error), Err(problem)) => error@ == problem,
            _ => false,
        },
        final(command)@ == (if r is Ok {
            CommandModel { written: old(command)@.written.update(index as int, true), ..old(command)@ }
        } else {
            old(command)@
        }),
{
    command.recording(false)?;
    if !command.has_queries() {
        return Err(unsupported("timestamps are disabled or unsupported by this queue"));
    }
    if !is_single_bit(stage_mask_bits(stage)) || stage.intersects(Stage::HOST()) || (
    stage.intersects(Stage::MESH()) && !command.state().caps.mesh_shader) {
        return Err(GpuError::InvalidArgument("timestamp needs one supported device stage"));
    }
    if index as usize >= command.query_total() {
        return Err(GpuError::InvalidArgument("timestamp index out of bounds"));
    }
    if command.is_written(index as usize) {
        return Err(GpuError::InvalidArgument("timestamp query already written in this recording"));
    }
    command.set_written(index as usize);
    Ok(vk::PipelineStageFlags2::from(stage))
}

/// All queries of a range were written.
pub open spec fn all_written(written: Seq<bool>, first: int, end: int) -> bool {
    forall|i: int| first <= i < end ==> written[i]
}

/// Whether timestamps may be read.
pub open spec fn spec_read_timestamps(command: CommandModel, first: u32, count: nat) -> Result<
    (),
    Problem,
> {
    if command.status != CommandStatus::Pending || count == 0 {
        error::refused("timestamp results require a submitted command and nonempty output")
    } else if first + count > usize::MAX {
        error::refused("timestamp range overflow")
    } else if first + count > command.written.len() {
        error::refused("timestamp range out of bounds")
    } else if !all_written(command.written, first as int, first + count) {
        error::refused("timestamp query was not written")
    } else {
        Ok(())
    }
}

/// Checks that the timestamps from `first` on may be read, once the command has
/// completed.
pub fn read_timestamps(command: &CommandBuffer, first: u32, count: usize) -> (r: Result<
    (),
    GpuError,
>)
    ensures
        error::outcome(r) == spec_read_timestamps(command@, first, count as nat),
{
    if command.status() != CommandStatus::Pending || count == 0 {
        return Err(
            GpuError::InvalidArgument(
                "timestamp results require a submitted command and nonempty output",
            ),
        );
    }
    let end: usize = match (first as usize).checked_add(count) {
        Some(end) => end,
        None => return Err(GpuError::InvalidArgument("timestamp range overflow")),
    };
    if end > command.query_total() {
        return Err(GpuError::InvalidArgument("timestamp range out of bounds"));
    }
    let mut index: usize = first as usize;
    while index < end
        invariant
            first <= index <= end,
            end == first + count,
            end <= command@.written.len(),
            count > 0,
            command@.status == CommandStatus::Pending,
            all_written(command@.written, first as int, index as int),
        decreases end - index,
    {
        if !command.is_written(index) {
            return Err(GpuError::InvalidArgument("timestamp query was not written"));
        }
        index = index + 1;
    }
    Ok(())
}

/// The bits in which timestamps of a queue count.
pub fn timestamp_mask(valid_bits: u32) -> (r: u64)
    requires
        valid_bits <= 64,
    ensures
        r == float_bits::power_of_two(valid_bits as nat) - 1,
{
    proof {
        assert(float_bits::power_of_two(64) == 0x1_0000_0000_0000_0000) by {
            assert(float_bits::power_of_two(32) == 0x1_0000_0000) by {
                reveal_with_fuel(float_bits::power_of_two, 33);
            }
            reveal_with_fuel(float_bits::power_of_two, 33);
        }
    }
    let mut mask: u64 = 0;
    let mut bits: u32 = 0;
    while bits < valid_bits
        invariant
            bits <= valid_bits <= 64,
            mask == float_bits::power_of_two(bits as nat) - 1,
            float_bits::power_of_two(64) == 0x1_0000_0000_0000_0000,
        decreases valid_bits - bits,
    {
        proof {
            powers_grow(bits as nat + 1, 64);
        }
        mask = mask * 2 + 1;
        bits = bits + 1;
    }
    mask
}

proof fn powers_grow(shorter: nat, longer: nat)
    requires
        shorter <= longer,
    ensures
        float_bits::power_of_two(shorter) <= float_bits::power_of_two(longer),
        float_bits::power_of_two(shorter) > 0,
    decreases longer,
{
    if shorter < longer {
        powers_grow(shorter, (longer - 1) as nat);
    } else if shorter > 0 {
        powers_grow((shorter - 1) as nat, (shorter - 1) as nat);
    }
}

/// Clears the bits of timestamps that a queue does not count in.
pub fn mask_timestamps(values: &mut Vec<u64>, mask: u64)
    ensures
        final(values)@ == old(values)@.map_values(|value: u64| value & mask),
{
    let ghost before = values@;
    let mut index: usize = 0;
    while index < values.len()
        invariant
            index <= values@.len(),
            values@.len() == before.len(),
            forall|i: int| 0 <= i < index ==> values@[i] == before[i] & mask,
            forall|i: int| index <= i < before.len() ==> values@[i] == before[i],
        decreases values@.len() - index,
    {
        let value: u64 = values[index];
        values.set(index, value & mask);
        index = index + 1;
    }
    assert(values@ =~= before.map_values(|value: u64| value & mask));
}

// ---------------------------------------------------------------------------
// Laws
// ---------------------------------------------------------------------------

/// An image barrier covers every level, every layer and every part of its texture,
/// and never discards into the undefined layout.
pub proof fn image_barriers_cover_the_texture(
    command: CommandModel,
    plan: BarrierModel,
    texture: &Texture,
    before: (Stage, Access, TextureLayout),
    after: (Stage, Access, TextureLayout),
    planned: BarrierModel,
)
    requires
        with_barrier(command, plan, Barrier::Texture { texture, before, after }) == Ok::<
            _,
            Problem,
        >(planned),
    ensures
        planned.images.len() == plan.images.len() + 1,
        planned.images.last().image == texture@.image,
        planned.images.last().subresources.base_mip_level == 0,
        planned.images.last().subresources.level_count == texture@.desc.mip_levels,
        planned.images.last().subresources.base_array_layer == 0,
        planned.images.last().subresources.layer_count == texture@.desc.layer_count,
        planned.images.last().subresources.aspect_mask == ImageAspect::of_format(
            texture@.desc.format,
        ),
        !(after.2 is Undefined),
{
}

/// Every barrier of a batch is recorded, none is lost.
pub proof fn every_barrier_is_planned(
    command: CommandModel,
    barriers: Seq<Barrier<'_>>,
    count: nat,
    plan: BarrierModel,
)
    requires
        barriers_upto(command, barriers, count) == Ok::<_, Problem>(plan),
    ensures
        plan.memory.len() + plan.buffers.len() + plan.images.len() == count,
    decreases count,
{
    if count > 0 {
        every_barrier_is_planned(
            command,
            barriers,
            (count - 1) as nat,
            barriers_upto(command, barriers, (count - 1) as nat)->Ok_0,
        );
    }
}

/// Copies, barriers and dispatches are refused inside a render pass, and draws
/// outside of one.
pub proof fn render_passes_separate_commands(
    command: CommandModel,
    source: RangeModel,
    destination: RangeModel,
    barriers: Seq<Barrier<'_>>,
    texture: TextureModel,
    desc: TextureCopyDesc,
    aspect: TextureAspect,
    usage: TextureUsage,
    missing: &'static str,
    groups: U32x3,
    index_type: IndexType,
    index_count: u32,
    first_index: u32,
)
    ensures
        command.rendering ==> {
            &&& spec_copy_memory(command, source, destination) is Err
            &&& spec_texture_transfer(
                command,
                source,
                texture,
                desc,
                aspect,
                usage,
                missing,
            ) is Err
            &&& spec_barrier(command, barriers) is Err
            &&& spec_dispatch(command, groups) is Err
        },
        !command.rendering ==> {
            &&& spec_draw(command) is Err
            &&& spec_draw_indexed(command, source, index_type, index_count, first_index) is Err
            &&& spec_draw_mesh(command, groups) is Err
        },
{
}

/// A range is never copied onto itself, in whole or in part.
pub proof fn copies_never_overlap(
    command: CommandModel,
    source: RangeModel,
    destination: RangeModel,
    copy: BufferCopy,
)
    requires
        spec_copy_memory(command, source, destination) == Ok::<_, Problem>(copy),
    ensures
        copy.source == copy.destination ==> copy.source_offset + copy.size
            <= copy.destination_offset || copy.destination_offset + copy.size
            <= copy.source_offset,
        copy.size == source.size,
        copy.size == destination.size,
{
}

/// A timestamp can be written once per recording, and only what was written can be
/// read.
pub proof fn timestamps_are_written_once(command: CommandModel, index: u32, stage: Stage)
    requires
        spec_write_timestamp(command, index, stage) is Ok,
    ensures
        ({
            let after = CommandModel {
                written: command.written.update(index as int, true),
                ..command
            };
            &&& spec_write_timestamp(after, index, stage) is Err
            &&& spec_read_timestamps(
                CommandModel { status: CommandStatus::Pending, ..command },
                index,
                1,
            ) is Err
            &&& spec_read_timestamps(
                CommandModel { status: CommandStatus::Pending, ..after },
                index,
                1,
            ) is Ok || index + 1 > usize::MAX
        }),
{
    assert(!command.written[index as int]);
    assert(!all_written(command.written, index as int, index + 1));
}

} // verus!
