//! What calls change, and what they leave as it was.

use crate::command;
use crate::command::{
    CommandBuffer, CommandModel, CommandStatus, PresentPlan, ResetAction, SubmitAction,
};
use crate::error::GpuError;
use crate::flags::Stage;
use crate::pipeline::PSO;
use crate::recording;
use crate::recording::{RenderingDesc, RenderingPlan};
use crate::state::{DescriptorProperties, DeviceState};
use crate::swapchain;
use crate::swapchain::{AcquirePlan, DeviceModel, GpuDevice, SwapchainFrame, SwapchainPlan};
use crate::texture::RenderView;
use crate::types::U32x2;
use ash::vk;
use std::rc::Rc;
use vstd::prelude::*;

verus! {

// ---------------------------------------------------------------------------
// Commands
// ---------------------------------------------------------------------------

/// Nothing but the open render pass, the bound pipeline and the written queries differs.
pub open spec fn same_recording(before: CommandModel, after: CommandModel) -> bool {
    &&& after.state == before.state
    &&& after.status == before.status
    &&& after.queries == before.queries
    &&& after.written.len() == before.written.len()
}

/// A render pass is open from its beginning to its end. A refused call changes nothing, and
/// neither does an accepted one to anything else.
pub proof fn passes_are_opened_and_closed(
    command: &mut CommandBuffer,
    desc: &RenderingDesc<'_>,
    extent: U32x2,
    begun: Result<RenderingPlan, GpuError>,
    other: &mut CommandBuffer,
    ended: Result<(), GpuError>,
)
    requires
        call_ensures(recording::begin_render_pass, (command, desc, extent), begun),
        call_ensures(recording::end_render_pass, (other,), ended),
    ensures
        begun is Ok ==> !old(command)@.rendering && final(command)@.rendering,
        begun is Ok ==> old(command)@.status == CommandStatus::Recording,
        begun is Err ==> final(command)@ == old(command)@,
        same_recording(old(command)@, final(command)@),
        final(command)@.bound == old(command)@.bound,
        final(command)@.written == old(command)@.written,
        ended is Ok <==> old(other)@.status == CommandStatus::Recording && old(other)@.rendering,
        ended is Ok ==> !final(other)@.rendering,
        ended is Err ==> final(other)@ == old(other)@,
        same_recording(old(other)@, final(other)@),
        final(other)@.bound == old(other)@.bound,
        final(other)@.written == old(other)@.written,
{
}

/// The pipeline that was bound last is bound, in a recording of its own device only. Nothing
/// else changes.
pub proof fn pipelines_are_bound(command: &mut CommandBuffer, pso: &PSO, r: Result<(), GpuError>)
    requires
        call_ensures(recording::bind_pso, (command, pso), r),
    ensures
        r is Ok <==> old(command)@.status == CommandStatus::Recording && old(command)@.state.id
            == pso.state.id,
        r is Ok ==> final(command)@.bound == Some((pso.bind_point, pso.mesh)),
        r is Err ==> final(command)@ == old(command)@,
        same_recording(old(command)@, final(command)@),
        final(command)@.rendering == old(command)@.rendering,
        final(command)@.written == old(command)@.written,
{
}

/// A timestamp marks its own query as written and no other, and only if it was not before.
pub proof fn timestamps_mark_their_query(
    command: &mut CommandBuffer,
    index: u32,
    stage: Stage,
    r: Result<vk::PipelineStageFlags2, GpuError>,
    other: int,
)
    requires
        call_ensures(recording::write_timestamp, (command, index, stage), r),
        0 <= other < old(command)@.written.len(),
    ensures
        r is Ok ==> index < old(command)@.written.len() && !old(command)@.written[index as int]
            && final(command)@.written[index as int],
        r is Err ==> final(command)@ == old(command)@,
        other != index ==> final(command)@.written[other] == old(command)@.written[other],
        same_recording(old(command)@, final(command)@),
        final(command)@.rendering == old(command)@.rendering,
        final(command)@.bound == old(command)@.bound,
{
}

/// A submission ends the recording, resets the fence and hands the command over, in this
/// order. A failure changes nothing.
pub proof fn submissions_go_on(
    command: &mut CommandBuffer,
    done: SubmitAction,
    reply: Result<(), vk::Result>,
    r: Result<SubmitAction, GpuError>,
)
    requires
        call_ensures(command::submit_continue, (command, done, reply), r),
    ensures
        r is Ok <==> reply is Ok,
        r is Err ==> final(command)@ == old(command)@,
        r is Ok && done is EndRecording ==> r->Ok_0 is ResetFence && final(command)@.status
            == CommandStatus::Executable,
        r is Ok && done is ResetFence ==> r->Ok_0 is Submit && final(command)@ == old(command)@,
        r is Ok && done is Submit ==> r->Ok_0 is Done && final(command)@.status
            == CommandStatus::Pending,
        r is Ok && done is Done ==> r->Ok_0 is Done && final(command)@ == old(command)@,
        final(command)@.state == old(command)@.state,
        final(command)@.rendering == old(command)@.rendering,
        final(command)@.bound == old(command)@.bound,
        final(command)@.queries == old(command)@.queries,
        final(command)@.written == old(command)@.written,
{
}

/// A reset waits for the fence, resets the pool, begins to record and resets the queries if
/// there are any, in this order. Once it records, nothing of the last recording is left. A
/// failure changes nothing.
pub proof fn resets_go_on(
    command: &mut CommandBuffer,
    done: ResetAction,
    reply: Result<(), vk::Result>,
    r: Result<ResetAction, GpuError>,
    index: int,
)
    requires
        call_ensures(command::reset_continue, (command, done, reply), r),
        0 <= index < old(command)@.written.len(),
        old(command)@.written.len() <= u32::MAX,
    ensures
        r is Ok <==> reply is Ok,
        r is Err ==> final(command)@ == old(command)@,
        r is Ok && done is WaitForFence ==> r->Ok_0 is ResetPool,
        r is Ok && done is WaitForFence ==> final(command)@ == old(command)@,
        r is Ok && done is ResetPool ==> r->Ok_0 is Begin && final(command)@.status
            == CommandStatus::Initial && final(command)@.written == old(command)@.written,
        r is Ok && done is Begin ==> {
            &&& final(command)@.status == CommandStatus::Recording
            &&& !final(command)@.rendering
            &&& final(command)@.bound is None
            &&& !final(command)@.written[index]
        },
        r is Ok && done is Begin && old(command)@.queries ==> r->Ok_0 == ResetAction::ResetQueries(
            old(command)@.written.len() as u32,
        ),
        r is Ok && done is Begin && !old(command)@.queries ==> r->Ok_0 is Done,
        r is Ok && (done is ResetQueries || done is Done) ==> r->Ok_0 is Done && final(command)@
            == old(command)@,
        final(command)@.state == old(command)@.state,
        final(command)@.queries == old(command)@.queries,
        final(command)@.written.len() == old(command)@.written.len(),
{
}

/// The bits that a queue does not count in are cleared, and all others kept.
pub proof fn uncounted_bits_are_cleared(values: &mut Vec<u64>, mask: u64, index: int)
    requires
        call_ensures(recording::mask_timestamps, (values, mask), ()),
        0 <= index < old(values)@.len(),
    ensures
        final(values)@.len() == old(values)@.len(),
        final(values)@[index] == old(values)@[index] & mask,
{
}

/// A queue that counts in one bit more has twice the mask and one.
pub proof fn timestamp_masks_double(bits: u32, r: u64, more: u64)
    requires
        bits < 64,
        call_ensures(recording::timestamp_mask, (bits,), r),
        call_ensures(recording::timestamp_mask, ((bits + 1) as u32,), more),
    ensures
        more == 2 * r + 1,
        bits == 0 ==> r == 0,
{
}

// ---------------------------------------------------------------------------
// Devices
// ---------------------------------------------------------------------------

/// The fixed parts of a device, its semaphores for acquisition and its timeline.
pub open spec fn same_device(before: DeviceModel, after: DeviceModel) -> bool {
    &&& after.state == before.state
    &&& after.acquire_ready == before.acquire_ready
    &&& after.retirement == before.retirement
    &&& after.image_count == before.image_count
}

/// The swapchain of a device and its images.
pub open spec fn same_swapchain(before: DeviceModel, after: DeviceModel) -> bool {
    &&& after.has_swapchain == before.has_swapchain
    &&& after.views == before.views
    &&& after.present_ready == before.present_ready
    &&& after.extent == before.extent
    &&& after.format == before.format
}

/// The frames of a device.
pub open spec fn same_frames(before: DeviceModel, after: DeviceModel) -> bool {
    &&& after.acquire_pending == before.acquire_pending
    &&& after.serial == before.serial
    &&& after.slot_values == before.slot_values
    &&& after.active == before.active
}

/// The number that follows a generation; the largest is followed by zero.
pub open spec fn following(generation: u64) -> int {
    (generation + 1) % 0x1_0000_0000_0000_0000
}

/// An old swapchain, and one that could not be presented, must be rebuilt; a complete one
/// need not. Nothing else changes.
pub proof fn swapchains_become_stale_and_fresh(
    retired: &mut GpuDevice,
    failed: &mut GpuDevice,
    complete: &mut GpuDevice,
)
    requires
        call_ensures(swapchain::retire_swapchain, (retired,), ()),
        call_ensures(swapchain::present_failed, (failed,), ()),
        call_ensures(swapchain::complete_swapchain, (complete,), ()),
    ensures
        final(retired)@.present_failed,
        final(failed)@.present_failed,
        !final(complete)@.present_failed,
        same_device(old(retired)@, final(retired)@),
        same_swapchain(old(retired)@, final(retired)@),
        same_frames(old(retired)@, final(retired)@),
        final(retired)@.generation == old(retired)@.generation,
        same_device(old(failed)@, final(failed)@),
        same_swapchain(old(failed)@, final(failed)@),
        same_frames(old(failed)@, final(failed)@),
        final(failed)@.generation == old(failed)@.generation,
        same_device(old(complete)@, final(complete)@),
        same_swapchain(old(complete)@, final(complete)@),
        same_frames(old(complete)@, final(complete)@),
        final(complete)@.generation == old(complete)@.generation,
{
}

/// A new swapchain has the planned size and format and the given images in their order, no
/// semaphores yet, and a new generation. Frames and staleness stay as they were.
pub proof fn new_images_are_installed(
    device: &mut GpuDevice,
    plan: &SwapchainPlan,
    views: Vec<Rc<RenderView>>,
    index: int,
)
    requires
        call_ensures(swapchain::install_swapchain, (device, plan, views), ()),
        0 <= index < views@.len(),
    ensures
        final(device)@.has_swapchain,
        final(device)@.views.len() == views@.len(),
        final(device)@.views[index] == views@[index]@,
        final(device)@.present_ready.len() == 0,
        final(device)@.extent == plan.extent,
        final(device)@.format == plan.format,
        final(device)@.generation == following(old(device)@.generation),
        final(device)@.present_failed == old(device)@.present_failed,
        same_device(old(device)@, final(device)@),
        same_frames(old(device)@, final(device)@),
{
}

/// One more semaphore comes behind the others. Nothing else changes.
pub proof fn semaphores_come_behind(device: &mut GpuDevice, semaphore: u64, index: int)
    requires
        call_ensures(swapchain::add_present_semaphore, (device, semaphore), ()),
        0 <= index <= old(device)@.present_ready.len(),
    ensures
        final(device)@.present_ready.len() == old(device)@.present_ready.len() + 1,
        final(device)@.present_ready[index] == (if index < old(device)@.present_ready.len() {
            old(device)@.present_ready[index]
        } else {
            semaphore
        }),
        final(device)@.views == old(device)@.views,
        final(device)@.extent == old(device)@.extent,
        final(device)@.format == old(device)@.format,
        final(device)@.has_swapchain == old(device)@.has_swapchain,
        final(device)@.generation == old(device)@.generation,
        final(device)@.present_failed == old(device)@.present_failed,
        same_device(old(device)@, final(device)@),
        same_frames(old(device)@, final(device)@),
{
}

/// The fence of the planned slot is no longer waited for; that of the other slot stays as it
/// was, and so does everything else.
pub proof fn reset_fences_are_not_waited_for(
    device: &mut GpuDevice,
    plan: &AcquirePlan,
    other: int,
)
    requires
        call_ensures(swapchain::fence_reset, (device, plan), ()),
        old(device)@.acquire_pending.len() == 2,
        plan.slot < 2,
        0 <= other < 2,
        other != plan.slot,
    ensures
        !final(device)@.acquire_pending[plan.slot as int],
        final(device)@.acquire_pending[other] == old(device)@.acquire_pending[other],
        final(device)@.serial == old(device)@.serial,
        final(device)@.slot_values == old(device)@.slot_values,
        final(device)@.active == old(device)@.active,
        final(device)@.generation == old(device)@.generation,
        final(device)@.present_failed == old(device)@.present_failed,
        same_device(old(device)@, final(device)@),
        same_swapchain(old(device)@, final(device)@),
{
}

/// An acquired frame has the image with its number, the size of the swapchain and a new
/// generation, and is the active one in its slot, whose fence is now waited for.
pub proof fn acquired_frames_are_active(
    device: &mut GpuDevice,
    plan: &AcquirePlan,
    index: u32,
    suboptimal: bool,
    r: SwapchainFrame,
    other: int,
)
    requires
        call_ensures(swapchain::image_acquired, (device, plan, index, suboptimal), r),
        old(device)@.acquire_pending.len() == 2,
        plan.slot < 2,
        0 <= other < 2,
        other != plan.slot,
    ensures
        r@.view == old(device)@.views[index as int],
        r@.extent == old(device)@.extent,
        r@.image_index == index,
        r@.suboptimal == suboptimal,
        r@.generation == following(old(device)@.generation),
        final(device)@.generation == r@.generation,
        final(device)@.active == Some((index, plan.slot)),
        final(device)@.acquire_pending[plan.slot as int],
        final(device)@.acquire_pending[other] == old(device)@.acquire_pending[other],
        final(device)@.serial == old(device)@.serial,
        final(device)@.slot_values == old(device)@.slot_values,
        final(device)@.present_failed == old(device)@.present_failed,
        same_device(old(device)@, final(device)@),
        same_swapchain(old(device)@, final(device)@),
{
}

/// Once a frame is submitted none is active, its number is the last one, and its slot
/// remembers it; the other slot stays as it was, and so does everything else.
pub proof fn submitted_frames_are_remembered(
    device: &mut GpuDevice,
    slot: usize,
    serial: u64,
    presenting: &mut GpuDevice,
    plan: &PresentPlan,
    other: int,
)
    requires
        call_ensures(swapchain::frame_submitted, (device, slot, serial), ()),
        call_ensures(command::submitted, (presenting, plan), ()),
        old(device)@.slot_values.len() == 2,
        old(presenting)@.slot_values.len() == 2,
        slot < 2,
        plan.slot == slot,
        0 <= other < 2,
        other != slot,
    ensures
        final(device)@.active is None && final(presenting)@.active is None,
        final(device)@.serial == serial && final(presenting)@.serial == plan.serial,
        final(device)@.slot_values[slot as int] == serial,
        final(presenting)@.slot_values[slot as int] == plan.serial,
        final(device)@.slot_values[other] == old(device)@.slot_values[other],
        final(presenting)@.slot_values[other] == old(presenting)@.slot_values[other],
        final(device)@.acquire_pending == old(device)@.acquire_pending,
        final(presenting)@.acquire_pending == old(presenting)@.acquire_pending,
        final(device)@.generation == old(device)@.generation,
        final(presenting)@.generation == old(presenting)@.generation,
        final(device)@.present_failed == old(device)@.present_failed,
        final(presenting)@.present_failed == old(presenting)@.present_failed,
        same_device(old(device)@, final(device)@),
        same_device(old(presenting)@, final(presenting)@),
        same_swapchain(old(device)@, final(device)@),
        same_swapchain(old(presenting)@, final(presenting)@),
{
}

/// A presentation recommends a new swapchain if the driver does, or if the frame did not fit
/// when it was acquired. Only a failed one makes the swapchain stale.
pub proof fn presentations_are_answered(
    device: &mut GpuDevice,
    frame: &SwapchainFrame,
    reply: Result<bool, vk::Result>,
    r: Result<bool, GpuError>,
)
    requires
        call_ensures(command::presented, (device, frame, reply), r),
    ensures
        r is Ok <==> reply is Ok,
        reply is Ok ==> r->Ok_0 == (reply->Ok_0 || frame@.suboptimal),
        reply is Ok ==> final(device)@ == old(device)@,
        reply is Err ==> final(device)@.present_failed,
        same_device(old(device)@, final(device)@),
        same_swapchain(old(device)@, final(device)@),
        same_frames(old(device)@, final(device)@),
        final(device)@.generation == old(device)@.generation,
{
}

/// The size and the start of one descriptor array are kept under the number of its set; the
/// others stay as they were. Sampler heaps have a limit of their own.
pub proof fn heap_layouts_are_kept(
    state: &mut DeviceState,
    properties: &DescriptorProperties,
    set: usize,
    size: u64,
    offset: u64,
    r: Result<(), GpuError>,
    other: int,
)
    requires
        call_ensures(DeviceState::set_heap_layout, (state, properties, set, size, offset), r),
        set < 3,
        0 <= other < 3,
        other != set,
    ensures
        r is Ok <==> size <= if set == 2 {
            properties.max_sampler_descriptor_buffer_range
        } else {
            properties.max_resource_descriptor_buffer_range
        },
        final(state).heap_sizes@[set as int] == size,
        final(state).descriptor_offsets@[set as int] == offset,
        final(state).heap_sizes@[other] == old(state).heap_sizes@[other],
        final(state).descriptor_offsets@[other] == old(state).descriptor_offsets@[other],
        final(state).descriptor_sizes == old(state).descriptor_sizes,
        final(state).id == old(state).id,
        final(state).caps == old(state).caps,
        final(state).limits == old(state).limits,
        final(state).queue_family == old(state).queue_family,
{
}

} // verus!
