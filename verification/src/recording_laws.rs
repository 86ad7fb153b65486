//! What recorded commands do with what they are given.

use crate::command::{BindPoint, CommandBuffer, CommandModel, CommandStatus};
use crate::error::{GpuError, Problem};
use crate::flags;
use crate::flags::{Access, Stage, TextureUsage};
use crate::float_bits::F32Bits;
use crate::heap::{GpuHeap, GpuRange};
use crate::recording;
use crate::recording::{
    Barrier, BarrierModel, BarrierPlan, BufferCopy, ColorAttachment, ColorPlan, DrawCall,
    HeapBindings, IndexedDrawCall, RenderingDesc, RenderingModel, ScopesModel, TextureCopy,
};
use crate::texture::{RenderView, Texture, ViewModel};
use crate::texture_copy;
use crate::types::{
    IndexType, LoadOp, Scissor, StoreOp, TextureAspect, TextureCopyDesc, TextureLayout, U32x2,
    U32x3, Viewport,
};
use vstd::prelude::*;

verus! {

// ---------------------------------------------------------------------------
// Barriers
// ---------------------------------------------------------------------------

/// What comes before the barrier is its source and what comes after is its destination.
pub open spec fn orders(
    scopes: ScopesModel,
    before_stage: Stage,
    before_access: Access,
    after_stage: Stage,
    after_access: Access,
) -> bool {
    &&& scopes.src_stage == flags::stage_mask(before_stage)
    &&& scopes.src_access == flags::access_mask(before_access)
    &&& scopes.dst_stage == flags::stage_mask(after_stage)
    &&& scopes.dst_access == flags::access_mask(after_access)
}

/// The three kinds of barriers.
pub enum BarrierKind {
    Memory,
    Buffer,
    Texture,
}

/// The kind of a barrier.
pub open spec fn kind_of(barrier: Barrier<'_>) -> BarrierKind {
    match barrier {
        Barrier::Memory { .. } => BarrierKind::Memory,
        Barrier::Buffer { .. } => BarrierKind::Buffer,
        Barrier::Texture { .. } => BarrierKind::Texture,
    }
}

/// How many of the first `count` barriers are of a kind.
pub open spec fn kind_before(barriers: Seq<Barrier<'_>>, kind: BarrierKind, count: nat) -> nat
    decreases count,
{
    if count == 0 {
        0
    } else {
        kind_before(barriers, kind, (count - 1) as nat) + if kind_of(barriers[count - 1]) == kind {
            1nat
        } else {
            0
        }
    }
}

/// The barrier stands in the plan, at its place among those of its kind. It orders what
/// came before against what comes after. On a buffer it covers the range; on a texture it
/// covers all of it and moves it from the layout before to the layout after.
pub open spec fn planned_as(plan: BarrierModel, barrier: Barrier<'_>, place: int) -> bool {
    match barrier {
        Barrier::Memory { before, after } => {
            &&& 0 <= place < plan.memory.len()
            &&& orders(plan.memory[place], before.0, before.1, after.0, after.1)
        },
        Barrier::Buffer { range, before, after } => {
            &&& 0 <= place < plan.buffers.len()
            &&& orders(plan.buffers[place].scopes, before.0, before.1, after.0, after.1)
            &&& plan.buffers[place].buffer == range@.heap.buffer
            &&& plan.buffers[place].offset == range@.offset
            &&& plan.buffers[place].size == range@.size
        },
        Barrier::Texture { texture, before, after } => {
            let image = plan.images[place];
            let format = texture@.desc.format;
            &&& 0 <= place < plan.images.len()
            &&& orders(image.scopes, before.0, before.1, after.0, after.1)
            &&& image.old_layout == before.2.spec_code()
            &&& image.new_layout == after.2.spec_code()
            &&& image.image == texture@.image
            &&& image.subresources.base_mip_level == 0
            &&& image.subresources.level_count == texture@.desc.mip_levels
            &&& image.subresources.base_array_layer == 0
            &&& image.subresources.layer_count == texture@.desc.layer_count
            &&& image.subresources.aspect_mask.depth == format.has_depth()
            &&& image.subresources.aspect_mask.stencil == format.has_stencil()
            &&& image.subresources.aspect_mask.color == (!format.has_depth()
                && !format.has_stencil())
        },
    }
}

/// The parts of a barrier are of the device, and no texture goes to the undefined layout.
pub open spec fn barrier_allowed(command: CommandModel, barrier: Barrier<'_>) -> bool {
    match barrier {
        Barrier::Memory { before, after } => true,
        Barrier::Buffer { range, before, after } => range@.heap.state.id == command.state.id,
        Barrier::Texture { texture, before, after } => texture@.state.id == command.state.id
            && after.2 != TextureLayout::Undefined,
    }
}

proof fn kinds_add_up(
    command: CommandModel,
    barriers: Seq<Barrier<'_>>,
    count: nat,
    plan: BarrierModel,
)
    requires
        recording::barriers_upto(command, barriers, count) == Ok::<_, Problem>(plan),
    ensures
        plan.memory.len() == kind_before(barriers, BarrierKind::Memory, count),
        plan.buffers.len() == kind_before(barriers, BarrierKind::Buffer, count),
        plan.images.len() == kind_before(barriers, BarrierKind::Texture, count),
    decreases count,
{
    if count > 0 {
        let earlier = recording::barriers_upto(command, barriers, (count - 1) as nat)->Ok_0;
        kinds_add_up(command, barriers, (count - 1) as nat, earlier);
    }
}

proof fn one_more_is_planned(
    command: CommandModel,
    earlier: BarrierModel,
    barrier: Barrier<'_>,
    plan: BarrierModel,
)
    requires
        recording::with_barrier(command, earlier, barrier) == Ok::<_, Problem>(plan),
    ensures
        planned_as(
            plan,
            barrier,
            match kind_of(barrier) {
                BarrierKind::Memory => earlier.memory.len() as int,
                BarrierKind::Buffer => earlier.buffers.len() as int,
                BarrierKind::Texture => earlier.images.len() as int,
            },
        ),
{
}

proof fn planned_stays(
    command: CommandModel,
    earlier: BarrierModel,
    barrier: Barrier<'_>,
    plan: BarrierModel,
    other: Barrier<'_>,
    place: int,
)
    requires
        recording::with_barrier(command, earlier, barrier) == Ok::<_, Problem>(plan),
        planned_as(earlier, other, place),
    ensures
        planned_as(plan, other, place),
{
}

proof fn all_are_planned(
    command: CommandModel,
    barriers: Seq<Barrier<'_>>,
    count: nat,
    plan: BarrierModel,
    index: int,
)
    requires
        recording::barriers_upto(command, barriers, count) == Ok::<_, Problem>(plan),
        0 <= index < count,
    ensures
        planned_as(
            plan,
            barriers[index],
            kind_before(barriers, kind_of(barriers[index]), index as nat) as int,
        ),
    decreases count,
{
    let last = (count - 1) as nat;
    let earlier = recording::barriers_upto(command, barriers, last)->Ok_0;
    if index < last {
        all_are_planned(command, barriers, last, earlier, index);
        planned_stays(
            command,
            earlier,
            barriers[last as int],
            plan,
            barriers[index],
            kind_before(barriers, kind_of(barriers[index]), index as nat) as int,
        );
    } else {
        kinds_add_up(command, barriers, last, earlier);
        one_more_is_planned(command, earlier, barriers[last as int], plan);
    }
}

proof fn barriers_are_judged(command: CommandModel, barriers: Seq<Barrier<'_>>, count: nat)
    ensures
        recording::barriers_upto(command, barriers, count) is Ok <==> forall|i: int|
            0 <= i < count ==> barrier_allowed(command, #[trigger] barriers[i]),
    decreases count,
{
    if count > 0 {
        barriers_are_judged(command, barriers, (count - 1) as nat);
        if recording::barriers_upto(command, barriers, count) is Ok {
            assert(barrier_allowed(command, barriers[count - 1]));
        }
        if forall|i: int| 0 <= i < count ==> barrier_allowed(command, #[trigger] barriers[i]) {
            assert(barrier_allowed(command, barriers[count - 1]));
        }
    }
}

/// Every barrier of a batch is recorded as its caller gave it, and in the order of its kind;
/// none is added. A batch is refused only outside of a recording, inside a render pass, or if
/// one of its barriers is not allowed.
pub proof fn barriers_order_before_and_after(
    recorded: &CommandBuffer,
    barriers: &[Barrier<'_>],
    r: Result<BarrierPlan, GpuError>,
)
    requires
        call_ensures(recording::barrier, (recorded, barriers), r),
    ensures
        r is Ok <==> recorded@.status == CommandStatus::Recording && !recorded@.rendering && (
        forall|i: int|
            0 <= i < barriers@.len() ==> barrier_allowed(recorded@, #[trigger] barriers@[i])),
        r matches Ok(plan) ==> {
            &&& plan.memory@.len() + plan.buffers@.len() + plan.images@.len() == barriers@.len()
            &&& forall|i: int|
                0 <= i < barriers@.len() ==> planned_as(
                    plan@,
                    #[trigger] barriers@[i],
                    kind_before(barriers@, kind_of(barriers@[i]), i as nat) as int,
                )
        },
{
    barriers_are_judged(recorded@, barriers@, barriers@.len());
    if let Ok(plan) = r {
        assert forall|i: int| 0 <= i < barriers@.len() implies planned_as(
            plan@,
            #[trigger] barriers@[i],
            kind_before(barriers@, kind_of(barriers@[i]), i as nat) as int,
        ) by {
            all_are_planned(recorded@, barriers@, barriers@.len(), plan@, i);
        }
        recording::every_barrier_is_planned(recorded@, barriers@, barriers@.len(), plan@);
    }
}

// ---------------------------------------------------------------------------
// Copies
// ---------------------------------------------------------------------------

/// A copy reads its source and writes its destination, all of both. The ranges are of the
/// device, equally large, aligned to four bytes and apart.
pub proof fn copies_go_from_source_to_destination(
    recorded: &CommandBuffer,
    source: GpuRange<'_>,
    destination: GpuRange<'_>,
    r: Result<BufferCopy, GpuError>,
)
    requires
        call_ensures(recording::copy_memory, (recorded, source, destination), r),
    ensures
        r is Ok <==> {
            &&& recorded@.status == CommandStatus::Recording && !recorded@.rendering
            &&& source@.heap.state.id == recorded@.state.id
            &&& destination@.heap.state.id == recorded@.state.id
            &&& source@.size == destination@.size
            &&& source@.offset % 4 == 0 && destination@.offset % 4 == 0 && source@.size % 4 == 0
            &&& !source@.overlaps(destination@)
        },
        r matches Ok(copy) ==> {
            &&& copy.source == source@.heap.buffer
            &&& copy.source_offset == source@.offset
            &&& copy.destination == destination@.heap.buffer
            &&& copy.destination_offset == destination@.offset
            &&& copy.size == source@.size
        },
{
}

/// An upload goes from the range to the texture, into the region that its description names.
/// The texture must be meant to be copied to.
pub proof fn uploads_go_to_the_texture(
    recorded: &CommandBuffer,
    source: GpuRange<'_>,
    texture: &Texture,
    desc: &TextureCopyDesc,
    aspect: TextureAspect,
    r: Result<TextureCopy, GpuError>,
)
    requires
        call_ensures(
            recording::copy_memory_to_texture,
            (recorded, source, texture, desc, aspect),
            r,
        ),
    ensures
        ({
            let region = texture_copy::spec_copy_region(
                texture@.desc,
                *desc,
                aspect,
                source@.offset,
                source@.size,
            );
            &&& r is Ok <==> {
                &&& recorded@.status == CommandStatus::Recording && !recorded@.rendering
                &&& source@.heap.state.id == recorded@.state.id
                &&& texture@.state.id == recorded@.state.id
                &&& texture@.desc.usage.has_all(TextureUsage::TRANSFER_DESTINATION())
                &&& region is Ok
            }
            &&& r matches Ok(copy) ==> {
                &&& copy.buffer == source@.heap.buffer
                &&& copy.image == texture@.image
                &&& Ok::<_, Problem>(copy.region) == region
            }
        }),
{
}

/// A read goes from the region of the texture that its description names to the range. The
/// texture must be meant to be copied from.
pub proof fn reads_come_from_the_texture(
    recorded: &CommandBuffer,
    texture: &Texture,
    destination: GpuRange<'_>,
    desc: &TextureCopyDesc,
    aspect: TextureAspect,
    r: Result<TextureCopy, GpuError>,
)
    requires
        call_ensures(
            recording::copy_texture_to_memory,
            (recorded, texture, destination, desc, aspect),
            r,
        ),
    ensures
        ({
            let region = texture_copy::spec_copy_region(
                texture@.desc,
                *desc,
                aspect,
                destination@.offset,
                destination@.size,
            );
            &&& r is Ok <==> {
                &&& recorded@.status == CommandStatus::Recording && !recorded@.rendering
                &&& destination@.heap.state.id == recorded@.state.id
                &&& texture@.state.id == recorded@.state.id
                &&& texture@.desc.usage.has_all(TextureUsage::TRANSFER_SOURCE())
                &&& region is Ok
            }
            &&& r matches Ok(copy) ==> {
                &&& copy.buffer == destination@.heap.buffer
                &&& copy.image == texture@.image
                &&& Ok::<_, Problem>(copy.region) == region
            }
        }),
{
}

// ---------------------------------------------------------------------------
// Rendering
// ---------------------------------------------------------------------------

/// What happens to an attachment at the start of a pass: it is kept, cleared or left open.
pub open spec fn load_number(op: LoadOp) -> int {
    if op == LoadOp::Load {
        0
    } else if op == LoadOp::Clear {
        1
    } else {
        2
    }
}

/// What happens to an attachment at the end of a pass: it is kept or left open.
pub open spec fn store_number(op: StoreOp) -> int {
    if op == StoreOp::Store {
        0
    } else {
        1
    }
}

/// A view can be rendered to: it is of the device, flat and of one level, has the use and is
/// large enough.
pub open spec fn renderable(
    command: CommandModel,
    view: ViewModel,
    usage: TextureUsage,
    extent: U32x2,
) -> bool {
    &&& view.texture.state.id == command.state.id
    &&& view.plan.subresources.level_count == 1
    &&& view.plan.view_type is TwoD || view.plan.view_type is TwoDArray
    &&& view.texture.desc.usage.has_all(usage)
    &&& extent.x <= view.plan.extent.x
    &&& extent.y <= view.plan.extent.y
}

proof fn colors_are_planned(
    command: CommandModel,
    colors: Seq<ColorAttachment<'_>>,
    extent: U32x2,
    count: nat,
)
    ensures
        recording::colors_upto(command, colors, extent, count) is Ok <==> forall|i: int|
            0 <= i < count ==> (#[trigger] colors[i]).render_view is Some && renderable(
                command,
                colors[i].render_view->Some_0@,
                TextureUsage::COLOR_ATTACHMENT(),
                extent,
            ),
        recording::colors_upto(command, colors, extent, count) matches Ok(plans) ==> plans.len()
            == count && forall|i: int|
            0 <= i < count ==> color_is_planned(#[trigger] plans[i], colors[i]),
    decreases count,
{
    if count > 0 {
        let last = (count - 1) as nat;
        colors_are_planned(command, colors, extent, last);
        if recording::colors_upto(command, colors, extent, count) is Ok {
            assert(colors[last as int].render_view is Some);
        }
        if forall|i: int|
            0 <= i < count ==> (#[trigger] colors[i]).render_view is Some && renderable(
                command,
                colors[i].render_view->Some_0@,
                TextureUsage::COLOR_ATTACHMENT(),
                extent,
            ) {
            assert(colors[last as int].render_view is Some);
        }
    }
}

/// A color target is rendered to as it was given.
pub open spec fn color_is_planned(plan: ColorPlan, attachment: ColorAttachment<'_>) -> bool {
    &&& attachment.render_view matches Some(view) && plan.view == view@.raw
    &&& plan.load == load_number(attachment.load)
    &&& plan.store == store_number(attachment.store)
    &&& plan.clear == attachment.clear
}

/// A depth or stencil target can be rendered to.
pub open spec fn depth_renderable(
    command: CommandModel,
    view: Option<&RenderView>,
    extent: U32x2,
) -> bool {
    view matches Some(view) ==> renderable(
        command,
        view@,
        TextureUsage::DEPTH_STENCIL_ATTACHMENT(),
        extent,
    )
}

/// A render pass draws to the targets that were given, color targets in their order, each
/// with its own view, clear value and what happens to it. It covers the given size, and so do
/// its first viewport and scissor.
pub proof fn passes_render_to_their_targets(
    command: CommandModel,
    desc: RenderingDesc<'_>,
    extent: U32x2,
    plan: RenderingModel,
)
    requires
        recording::spec_begin_render_pass(command, desc, extent) == Ok::<_, Problem>(plan),
    ensures
        plan.colors.len() == desc.colors@.len(),
        forall|i: int|
            0 <= i < plan.colors.len() ==> color_is_planned(
                #[trigger] plan.colors[i],
                desc.colors@[i],
            ),
        match (plan.depth, desc.depth.render_view) {
            (Some(depth), Some(view)) => {
                &&& depth.view == view@.raw
                &&& depth.load == load_number(desc.depth.load)
                &&& depth.store == store_number(desc.depth.store)
                &&& depth.clear == desc.depth.clear
            },
            (None, None) => true,
            _ => false,
        },
        match (plan.stencil, desc.stencil.render_view) {
            (Some(stencil), Some(view)) => {
                &&& stencil.view == view@.raw
                &&& stencil.load == load_number(desc.stencil.load)
                &&& stencil.store == store_number(desc.stencil.store)
                &&& stencil.clear == desc.stencil.clear
            },
            (None, None) => true,
            _ => false,
        },
        plan.extent == extent,
        plan.viewport matches Ok(viewport) ==> {
            &&& viewport.x == F32Bits::ZERO() && viewport.y == F32Bits::ZERO()
            &&& viewport.width == recording::float_size(extent.x)
            &&& viewport.height == recording::float_size(extent.y)
            &&& viewport.min_depth == F32Bits::ZERO() && viewport.max_depth == F32Bits::ONE()
        },
        plan.scissor matches Ok(scissor) ==> {
            &&& scissor.x == 0 && scissor.y == 0
            &&& scissor.width == extent.x && scissor.height == extent.y
        },
        extent.x <= i32::MAX && extent.y <= i32::MAX ==> plan.scissor is Ok,
{
    colors_are_planned(command, desc.colors@, extent, desc.colors@.len());
}

/// A render pass is begun exactly in a recording without one, with a size that the device
/// allows, targets that can be rendered to, a depth between zero and one, and one view for
/// depth and stencil that has both parts.
pub proof fn passes_are_judged(command: CommandModel, desc: RenderingDesc<'_>, extent: U32x2)
    ensures
        ({
            let limits = command.state.limits;
            let depth = desc.depth.render_view;
            let stencil = desc.stencil.render_view;
            recording::spec_begin_render_pass(command, desc, extent) is Ok <==> {
                &&& command.status == CommandStatus::Recording && !command.rendering
                &&& 0 < extent.x && 0 < extent.y
                &&& desc.colors@.len() <= command.state.caps.max_color_attachments
                &&& extent.x <= limits.max_framebuffer_width && extent.x
                    <= limits.max_viewport_width
                &&& extent.y <= limits.max_framebuffer_height && extent.y
                    <= limits.max_viewport_height
                &&& !limits.viewport_bounds_high.below(recording::float_size(extent.x))
                &&& !limits.viewport_bounds_high.below(recording::float_size(extent.y))
                &&& depth is Some ==> desc.depth.clear.in_unit_range()
                &&& forall|i: int|
                    0 <= i < desc.colors@.len() ==> (#[trigger] desc.colors@[i]).render_view is Some
                        && renderable(
                        command,
                        desc.colors@[i].render_view->Some_0@,
                        TextureUsage::COLOR_ATTACHMENT(),
                        extent,
                    )
                &&& depth_renderable(command, depth, extent)
                &&& depth_renderable(command, stencil, extent)
                &&& depth is Some && stencil is Some ==> depth->Some_0@.raw == stencil->Some_0@.raw
                &&& depth matches Some(view) ==> view@.plan.subresources.aspect_mask.depth
                &&& stencil matches Some(view) ==> view@.plan.subresources.aspect_mask.stencil
            }
        }),
{
    colors_are_planned(command, desc.colors@, extent, desc.colors@.len());
}

// ---------------------------------------------------------------------------
// State
// ---------------------------------------------------------------------------

/// The three heaps are bound in their order, sampled images, storage images and samplers,
/// each by its own address, for the kind of work that the bound pipeline does.
pub proof fn heaps_are_bound_in_order(
    recorded: &CommandBuffer,
    heaps: [&GpuHeap; 3],
    r: Result<HeapBindings, GpuError>,
)
    requires
        call_ensures(recording::bind_descriptor_heaps, (recorded, heaps), r),
    ensures
        r is Ok <==> {
            &&& recorded@.status == CommandStatus::Recording
            &&& recorded@.bound is Some
            &&& forall|i: int|
                0 <= i < 3 ==> (#[trigger] heaps@[i])@.state.id == recorded@.state.id && (
                heaps@[i]@.descriptor_set matches Some(set) && set == i)
        },
        r matches Ok(bindings) ==> {
            &&& recorded@.bound matches Some((point, _)) && bindings.bind_point == point
            &&& bindings.sampled == heaps@[0]@.address
            &&& bindings.storage == heaps@[1]@.address
            &&& bindings.sampler == heaps@[2]@.address
        },
{
    if r is Ok {
        assert forall|i: int| 0 <= i < 3 implies (#[trigger] heaps@[i])@.state.id
            == recorded@.state.id && (heaps@[i]@.descriptor_set matches Some(set) && set == i) by {
            assert(i == 0 || i == 1 || i == 2);
        }
    } else if forall|i: int|
        0 <= i < 3 ==> (#[trigger] heaps@[i])@.state.id == recorded@.state.id && (
        heaps@[i]@.descriptor_set matches Some(set) && set == i) {
        assert(heaps@[0]@.state.id == recorded@.state.id);
        assert(heaps@[1]@.state.id == recorded@.state.id);
        assert(heaps@[2]@.state.id == recorded@.state.id);
    }
}

/// Push constants are accepted exactly if there are any, in whole words from a whole word on,
/// and they end within the limit.
pub proof fn push_constants_are_judged(
    recorded: &CommandBuffer,
    offset: u32,
    bytes: &[u8],
    r: Result<(), GpuError>,
)
    requires
        call_ensures(recording::push_constants, (recorded, offset, bytes), r),
    ensures
        r is Ok <==> {
            &&& recorded@.status == CommandStatus::Recording
            &&& bytes@.len() > 0 && bytes@.len() % 4 == 0 && offset % 4 == 0
            &&& offset + bytes@.len() <= recorded@.state.caps.max_push_data_size
        },
{
}

/// A viewport is accepted exactly if all of its numbers are finite, it has a width and a
/// height within the limits, its depths lie between zero and one, and all of its corners lie
/// within the bounds of the device.
pub proof fn viewports_are_judged(
    recorded: &CommandBuffer,
    viewport: &Viewport,
    right: F32Bits,
    bottom: F32Bits,
    r: Result<(), GpuError>,
)
    requires
        call_ensures(recording::set_viewport, (recorded, viewport, right, bottom), r),
    ensures
        ({
            let limits = recorded@.state.limits;
            let low = limits.viewport_bounds_low;
            let high = limits.viewport_bounds_high;
            r is Ok <==> {
                &&& recorded@.status == CommandStatus::Recording
                &&& viewport.x.finite() && viewport.y.finite()
                &&& viewport.width.finite() && viewport.height.finite()
                &&& viewport.min_depth.finite() && viewport.max_depth.finite()
                &&& F32Bits::ZERO().below(viewport.width)
                &&& viewport.height.order() != 0
                &&& !recording::float_size(limits.max_viewport_width).below(viewport.width)
                &&& !recording::float_size(limits.max_viewport_height).below(
                    viewport.height.spec_abs(),
                )
                &&& viewport.min_depth.in_unit_range() && viewport.max_depth.in_unit_range()
                &&& !viewport.x.below(low) && !high.below(right)
                &&& !viewport.y.below(low) && !high.below(viewport.y)
                &&& !bottom.below(low) && !high.below(bottom)
            }
        }),
{
}

/// A scissor is accepted exactly if it starts at no negative place and ends within signed
/// numbers.
pub proof fn scissors_are_judged(
    recorded: &CommandBuffer,
    scissor: &Scissor,
    r: Result<(), GpuError>,
)
    requires
        call_ensures(recording::set_scissor, (recorded, scissor), r),
    ensures
        r is Ok <==> {
            &&& recorded@.status == CommandStatus::Recording
            &&& 0 <= scissor.x && scissor.x + scissor.width <= i32::MAX
            &&& 0 <= scissor.y && scissor.y + scissor.height <= i32::MAX
        },
{
}

// ---------------------------------------------------------------------------
// Draws and dispatches
// ---------------------------------------------------------------------------

/// A draw draws what was asked for, inside a render pass with a graphics pipeline.
pub proof fn draws_draw_what_was_asked(
    recorded: &CommandBuffer,
    vertex_count: u32,
    instance_count: u32,
    first_vertex: u32,
    first_instance: u32,
    r: Result<DrawCall, GpuError>,
)
    requires
        call_ensures(
            recording::draw,
            (recorded, vertex_count, instance_count, first_vertex, first_instance),
            r,
        ),
    ensures
        r is Ok <==> {
            &&& recorded@.status == CommandStatus::Recording && recorded@.rendering
            &&& recorded@.bound matches Some((point, mesh)) && point == BindPoint::Graphics && !mesh
        },
        r matches Ok(call) ==> {
            &&& call.vertex_count == vertex_count
            &&& call.instance_count == instance_count
            &&& call.first_vertex == first_vertex
            &&& call.first_instance == first_instance
        },
{
}

/// The bytes of an index.
pub open spec fn index_size(index_type: IndexType) -> int {
    if index_type == IndexType::Uint16 {
        2
    } else {
        4
    }
}

/// An indexed draw draws what was asked for from the given range, all of whose indices lie in
/// it. Indices are aligned to their size.
pub proof fn indexed_draws_draw_what_was_asked(
    recorded: &CommandBuffer,
    indices: GpuRange<'_>,
    index_type: IndexType,
    index_count: u32,
    instance_count: u32,
    first_index: u32,
    vertex_offset: i32,
    first_instance: u32,
    r: Result<IndexedDrawCall, GpuError>,
)
    requires
        call_ensures(
            recording::draw_indexed,
            (
                recorded,
                indices,
                index_type,
                index_count,
                instance_count,
                first_index,
                vertex_offset,
                first_instance,
            ),
            r,
        ),
    ensures
        r is Ok <==> {
            &&& recorded@.status == CommandStatus::Recording && recorded@.rendering
            &&& indices@.heap.state.id == recorded@.state.id
            &&& indices@.heap.descriptor_set is None
            &&& recorded@.bound matches Some((point, mesh)) && point == BindPoint::Graphics && !mesh
            &&& indices@.offset as int % index_size(index_type) == 0
            &&& (first_index + index_count) * index_size(index_type) <= indices@.size
        },
        r matches Ok(call) ==> {
            &&& call.indices.buffer == indices@.heap.buffer
            &&& call.indices.offset == indices@.offset
            &&& call.indices.index_type == if index_type == IndexType::Uint16 {
                0int
            } else {
                1
            }
            &&& call.index_count == index_count
            &&& call.instance_count == instance_count
            &&& call.first_index == first_index
            &&& call.vertex_offset == vertex_offset
            &&& call.first_instance == first_instance
        },
{
}

/// A dispatch needs a compute pipeline, no render pass, and counts within the limits.
pub proof fn dispatches_are_judged(recorded: &CommandBuffer, groups: U32x3, r: Result<(), GpuError>)
    requires
        call_ensures(recording::dispatch, (recorded, groups), r),
    ensures
        ({
            let limits = recorded@.state.limits.max_compute_work_group_count;
            r is Ok <==> {
                &&& recorded@.status == CommandStatus::Recording && !recorded@.rendering
                &&& recorded@.bound matches Some((point, mesh)) && point == BindPoint::Compute
                    && !mesh
                &&& groups.x <= limits.x && groups.y <= limits.y && groups.z <= limits.z
            }
        }),
{
}

/// A mesh draw needs a device with mesh shaders, a render pass, a mesh pipeline, and counts
/// within the limits, each and all together.
pub proof fn mesh_draws_are_judged(recorded: &CommandBuffer, groups: U32x3, r: Result<(), GpuError>)
    requires
        call_ensures(recording::draw_mesh, (recorded, groups), r),
    ensures
        ({
            let limits = recorded@.state.mesh_limits.max_mesh_work_group_count;
            let total = recorded@.state.mesh_limits.max_mesh_work_group_total_count;
            r is Ok <==> {
                &&& recorded@.status == CommandStatus::Recording && recorded@.rendering
                &&& recorded@.state.caps.mesh_shader
                &&& recorded@.bound matches Some((point, mesh)) && point == BindPoint::Graphics
                    && mesh
                &&& groups.x <= limits.x && groups.y <= limits.y && groups.z <= limits.z
                &&& groups.x * groups.y <= total && groups.x * groups.y * groups.z <= total
            }
        }),
{
}

// ---------------------------------------------------------------------------
// Timestamps
// ---------------------------------------------------------------------------

/// A timestamp is taken at the stage that was asked for, one single stage of the device, in a
/// query that exists and was not yet written.
pub proof fn timestamps_are_taken_at_their_stage(
    command: CommandModel,
    index: u32,
    stage: Stage,
)
    ensures
        recording::spec_write_timestamp(command, index, stage) is Ok <==> {
            &&& command.status == CommandStatus::Recording
            &&& command.queries
            &&& recording::single_bit(flags::stage_mask(stage))
            &&& stage.0 & Stage::HOST().0 == 0
            &&& stage.0 & Stage::MESH().0 != 0 ==> command.state.caps.mesh_shader
            &&& index < command.written.len() && !command.written[index as int]
        },
        recording::spec_write_timestamp(command, index, stage) matches Ok(bits) ==> bits
            == flags::stage_mask(stage),
{
}

/// Timestamps are read of a submitted command, if there are any to read and all of them were
/// written.
pub proof fn timestamp_reads_are_judged(
    recorded: &CommandBuffer,
    first: u32,
    count: usize,
    r: Result<(), GpuError>,
)
    requires
        call_ensures(recording::read_timestamps, (recorded, first, count), r),
    ensures
        r is Ok <==> {
            &&& recorded@.status == CommandStatus::Pending
            &&& 0 < count && first + count <= usize::MAX
            &&& first + count <= recorded@.written.len()
            &&& forall|i: int| first <= i < first + count ==> #[trigger] recorded@.written[i]
        },
{
}

} // verus!
