//! The life of a command buffer: recording, submission, presentation and reuse.
//!
//! Where the driver has to act between two decisions, a function names the next
//! action and another takes in the driver's reply.

use crate::error;
use crate::error::{GpuError, Problem, driver_result};
use crate::flags;
use crate::flags::Stage;
use crate::state::{DeviceState, same_device};
use crate::swapchain;
use crate::swapchain::{
    DeviceModel, DeviceStep, FrameModel, GpuDevice, SwapchainFrame, frame_submitted, present_failed,
};
use crate::vulkan;
use ash::vk;
use std::rc::Rc;
use vstd::prelude::*;

verus! {

/// Where a command buffer is in its life.
#[derive(Debug, Clone, Copy, PartialEq, Eq, Structural)]
pub enum CommandStatus {
    Initial,
    Recording,
    Executable,
    Pending,
}

/// The kind of work that a pipeline is bound for.
#[derive(Debug, Clone, Copy, PartialEq, Eq, Structural)]
pub enum BindPoint {
    Graphics,
    Compute,
}

/// Reusable command allocation.
pub struct CommandBuffer {
    state: Rc<DeviceState>,
    status: CommandStatus,
    rendering: bool,
    bound: Option<(BindPoint, bool)>,
    queries: bool,
    written_queries: Vec<bool>,
}

/// A command buffer as a value.
#[verifier::ext_equal]
pub struct CommandModel {
    pub state: DeviceState,
    pub status: CommandStatus,
    /// A render pass is open.
    pub rendering: bool,
    /// The kind of the bound pipeline, and whether it is a mesh pipeline.
    pub bound: Option<(BindPoint, bool)>,
    /// There is a pool of timestamp queries.
    pub queries: bool,
    /// The queries written in this recording.
    pub written: Seq<bool>,
}

impl CommandModel {
    /// A render pass is open only in a recording, or in one that was being reset
    /// when the driver failed.
    pub open spec fn valid(self) -> bool {
        &&& self.rendering ==> self.status == CommandStatus::Recording || self.status
            == CommandStatus::Initial
        &&& self.written.len() <= u32::MAX
    }
}

impl View for CommandBuffer {
    type V = CommandModel;

    closed spec fn view(&self) -> CommandModel {
        CommandModel {
            state: *self.state,
            status: self.status,
            rendering: self.rendering,
            bound: self.bound,
            queries: self.queries,
            written: self.written_queries@,
        }
    }
}

/// Whether commands may be recorded.
pub open spec fn spec_recording(command: CommandModel, outside_rendering: bool) -> Result<
    (),
    Problem,
> {
    if command.status != CommandStatus::Recording {
        error::refused("command is not recording; call reset_command")
    } else if outside_rendering && command.rendering {
        error::refused("command is not allowed inside rendering")
    } else {
        Ok(())
    }
}

/// Whether a part belongs to the device of the command.
pub open spec fn spec_same_device(command: CommandModel, state: DeviceState) -> Result<
    (),
    Problem,
> {
    if command.state.id != state.id {
        error::refused("resources belong to different devices")
    } else {
        Ok(())
    }
}

impl CommandBuffer {
    #[verifier::type_invariant]
    spec fn inv(self) -> bool {
        &&& self.rendering ==> self.status == CommandStatus::Recording || self.status
            == CommandStatus::Initial
        &&& self.written_queries@.len() <= u32::MAX
    }

    /// Where the command is in its life.
    pub fn status(&self) -> (r: CommandStatus)
        ensures
            r == self@.status,
            self@.valid(),
    {
        proof {
            use_type_invariant(self);
        }
        self.status
    }

    /// Whether a render pass is open.
    pub fn is_rendering(&self) -> (r: bool)
        ensures
            r == self@.rendering,
    {
        self.rendering
    }

    /// The bound pipeline.
    pub fn bound(&self) -> (r: Option<(BindPoint, bool)>)
        ensures
            r == self@.bound,
    {
        self.bound
    }

    /// The device of the command.
    pub fn state(&self) -> (r: &DeviceState)
        ensures
            *r == self@.state,
    {
        &self.state
    }

    /// Whether there is a pool of timestamp queries.
    pub fn has_queries(&self) -> (r: bool)
        ensures
            r == self@.queries,
    {
        self.queries
    }

    /// The number of timestamp queries.
    pub fn query_total(&self) -> (r: usize)
        ensures
            r == self@.written.len(),
            r <= u32::MAX,
    {
        proof {
            use_type_invariant(self);
        }
        self.written_queries.len()
    }

    /// Whether a query was written in this recording.
    pub fn is_written(&self, index: usize) -> (r: bool)
        requires
            index < self@.written.len(),
        ensures
            r == self@.written[index as int],
    {
        self.written_queries[index]
    }

    /// Checks that commands may be recorded, outside a render pass where asked.
    pub fn recording(&self, outside_rendering: bool) -> (r: Result<(), GpuError>)
        ensures
            error::outcome(r) == spec_recording(self@, outside_rendering),
    {
        if self.status != CommandStatus::Recording {
            return Err(
                GpuError::InvalidArgument("command is not recording; call reset_command"),
            );
        }
        if outside_rendering && self.rendering {
            return Err(GpuError::InvalidArgument("command is not allowed inside rendering"));
        }
        Ok(())
    }

    /// Checks that a part belongs to the device of the command.
    pub fn same_device(&self, state: &DeviceState) -> (r: Result<(), GpuError>)
        ensures
            error::outcome(r) == spec_same_device(self@, *state),
    {
        if !same_device(&self.state, state) {
            return Err(GpuError::InvalidArgument("resources belong to different devices"));
        }
        Ok(())
    }

    /// Notes that a render pass was opened or closed.
    pub(crate) fn set_rendering(&mut self, rendering: bool)
        requires
            rendering ==> old(self)@.status == CommandStatus::Recording,
        ensures
            final(self)@ == (CommandModel { rendering, ..old(self)@ }),
    {
        proof {
            use_type_invariant(&*self);
        }
        self.rendering = rendering;
    }

    /// Notes that a pipeline was bound.
    pub(crate) fn set_bound(&mut self, bind_point: BindPoint, mesh: bool)
        ensures
            final(self)@ == (CommandModel { bound: Some((bind_point, mesh)), ..old(self)@ }),
    {
        proof {
            use_type_invariant(&*self);
        }
        self.bound = Some((bind_point, mesh));
    }

    /// Notes that a query was written.
    pub(crate) fn set_written(&mut self, index: usize)
        requires
            index < old(self)@.written.len(),
        ensures
            final(self)@ == (CommandModel {
                written: old(self)@.written.update(index as int, true),
                ..old(self)@
            }),
    {
        proof {
            use_type_invariant(&*self);
        }
        let mut written: Vec<bool> = Vec::new();
        std::mem::swap(&mut written, &mut self.written_queries);
        written.set(index, true);
        self.written_queries = written;
    }
}

/// So many unwritten queries.
pub open spec fn unwritten(count: nat) -> Seq<bool> {
    Seq::new(count, |i: int| false)
}

fn fresh_queries(count: usize) -> (r: Vec<bool>)
    ensures
        r@ == unwritten(count as nat),
{
    let mut written: Vec<bool> = Vec::with_capacity(count);
    let mut index: usize = 0;
    while index < count
        invariant
            index <= count,
            written@ == unwritten(index as nat),
        decreases count - index,
    {
        written.push(false);
        index = index + 1;
        assert(written@ =~= unwritten(index as nat));
    }
    assert(written@ =~= unwritten(count as nat));
    written
}

/// A command buffer that has yet to be begun. It has timestamp queries where they
/// are wanted and the queue has them.
pub fn begin_command(state: Rc<DeviceState>) -> (r: CommandBuffer)
    ensures
        ({
            let queries = state.timestamp_query_count > 0 && state.timestamp_valid_bits > 0;
            r@ == (CommandModel {
                state: *state,
                status: CommandStatus::Initial,
                rendering: false,
                bound: None,
                queries,
                written: unwritten(
                    if queries {
                        state.timestamp_query_count as nat
                    } else {
                        0
                    },
                ),
            })
        }),
{
    let queries = state.timestamp_query_count > 0 && state.timestamp_valid_bits > 0;
    let count: usize = if queries {
        state.timestamp_query_count as usize
    } else {
        0
    };
    let written_queries = fresh_queries(count);
    CommandBuffer {
        state,
        status: CommandStatus::Initial,
        rendering: false,
        bound: None,
        queries,
        written_queries,
    }
}

// ---------------------------------------------------------------------------
// Reuse
// ---------------------------------------------------------------------------

/// What the driver has to do next to reset a command.
#[derive(Debug, Clone, Copy, PartialEq, Eq, Structural)]
pub enum ResetAction {
    /// Wait for the fence of the last submission.
    WaitForFence,
    /// Reset the command pool.
    ResetPool,
    /// Begin recording.
    Begin,
    /// Record a reset of so many queries; this cannot fail.
    ResetQueries(u32),
    Done,
}

/// The first step of a reset: a submitted command is waited for.
pub open spec fn spec_reset_start(command: CommandModel) -> ResetAction {
    if command.status == CommandStatus::Pending {
        ResetAction::WaitForFence
    } else {
        ResetAction::ResetPool
    }
}

/// Starts to reset a command. Also cancels an unsubmitted recording.
pub fn reset_command(command: &CommandBuffer) -> (r: ResetAction)
    ensures
        r == spec_reset_start(command@),
{
    if command.status == CommandStatus::Pending {
        ResetAction::WaitForFence
    } else {
        ResetAction::ResetPool
    }
}

/// The command after the driver has done an action.
pub open spec fn after_reset(command: CommandModel, done: ResetAction) -> CommandModel {
    match done {
        ResetAction::ResetPool => CommandModel { status: CommandStatus::Initial, ..command },
        ResetAction::Begin => CommandModel {
            status: CommandStatus::Recording,
            rendering: false,
            bound: None,
            written: unwritten(command.written.len()),
            ..command
        },
        _ => command,
    }
}

/// The action that follows another.
pub open spec fn next_reset(command: CommandModel, done: ResetAction) -> ResetAction {
    match done {
        ResetAction::WaitForFence => ResetAction::ResetPool,
        ResetAction::ResetPool => ResetAction::Begin,
        ResetAction::Begin => if command.queries {
            ResetAction::ResetQueries(command.written.len() as u32)
        } else {
            ResetAction::Done
        },
        ResetAction::ResetQueries(_) => ResetAction::Done,
        ResetAction::Done => ResetAction::Done,
    }
}

/// Takes in what the driver said to an action of a reset. A failure, a timeout
/// among them, leaves the command as it was before the action.
pub fn reset_continue(
    command: &mut CommandBuffer,
    done: ResetAction,
    reply: Result<(), vk::Result>,
) -> (r: Result<ResetAction, GpuError>)
    ensures
        match error::driver_outcome(reply) {
            Ok(_) => r == Ok::<ResetAction, GpuError>(next_reset(old(command)@, done)) && final(
                command)@ == after_reset(old(command)@, done),
            Err(problem) => r matches Err(error) && error@ == problem && final(command)@ == old(
                command,
            )@,
        },
{
    proof {
        use_type_invariant(&*command);
    }
    driver_result(reply)?;
    match done {
        ResetAction::WaitForFence => Ok(ResetAction::ResetPool),
        ResetAction::ResetPool => {
            command.status = CommandStatus::Initial;
            Ok(ResetAction::Begin)
        },
        ResetAction::Begin => {
            let count: usize = command.written_queries.len();
            command.rendering = false;
            command.status = CommandStatus::Recording;
            command.bound = None;
            command.written_queries = fresh_queries(count);
            if command.queries {
                Ok(ResetAction::ResetQueries(count as u32))
            } else {
                Ok(ResetAction::Done)
            }
        },
        ResetAction::ResetQueries(_) => Ok(ResetAction::Done),
        ResetAction::Done => Ok(ResetAction::Done),
    }
}

/// Whether there is a submission to wait for.
pub fn wait_command(command: &CommandBuffer) -> (r: bool)
    ensures
        r == (command@.status == CommandStatus::Pending),
{
    command.status == CommandStatus::Pending
}

// ---------------------------------------------------------------------------
// Submission
// ---------------------------------------------------------------------------

/// A timeline semaphore of a device.
pub struct TimelineSemaphore {
    pub state: Rc<DeviceState>,
    /// The driver's handle of the semaphore.
    pub raw: u64,
}

/// A semaphore in a submission.
pub struct SemaphoreInfo {
    pub semaphore: u64,
    /// The timeline value; zero for a semaphore without one.
    pub value: u64,
    pub stage: vk::PipelineStageFlags2,
}

/// A semaphore in a submission, with its stages as Vulkan bits.
pub struct SemaphoreModel {
    pub semaphore: u64,
    pub value: u64,
    pub stage: u64,
}

impl View for SemaphoreInfo {
    type V = SemaphoreModel;

    open spec fn view(&self) -> SemaphoreModel {
        SemaphoreModel {
            semaphore: self.semaphore,
            value: self.value,
            stage: vulkan::vk_stage_bits(self.stage),
        }
    }
}

/// The semaphores of a list, in order.
pub open spec fn info_models(infos: Seq<SemaphoreInfo>) -> Seq<SemaphoreModel> {
    Seq::new(infos.len(), |i: int| infos[i]@)
}

/// A stage at which a queue can wait or signal on a device.
pub open spec fn semaphore_stage(state: DeviceState, stage: Stage) -> bool {
    &&& stage != Stage::NONE()
    &&& !stage.has_any(Stage::HOST())
    &&& stage.has_any(Stage::MESH()) ==> state.caps.mesh_shader
}

/// A semaphore entry of a submission: timeline, value and stage.
pub open spec fn entry_info(entry: (&TimelineSemaphore, u64, Stage)) -> SemaphoreModel {
    SemaphoreModel {
        semaphore: entry.0.raw,
        value: entry.1,
        stage: flags::stage_mask(entry.2),
    }
}

/// Some of the first `count` entries names the semaphore.
pub open spec fn named_before(
    entries: Seq<(&TimelineSemaphore, u64, Stage)>,
    count: int,
    raw: u64,
) -> bool {
    exists|i: int| 0 <= i < count && (#[trigger] entries[i]).0.raw == raw
}

/// The first `count` entries as semaphores of a submission. The first entry that is
/// not in order decides the error.
pub open spec fn infos_upto(
    state: DeviceState,
    entries: Seq<(&TimelineSemaphore, u64, Stage)>,
    count: nat,
) -> Result<Seq<SemaphoreModel>, Problem>
    decreases count,
{
    if count == 0 {
        Ok(Seq::empty())
    } else {
        match infos_upto(state, entries, (count - 1) as nat) {
            Err(problem) => Err(problem),
            Ok(infos) => {
                let entry = entries[count - 1];
                if entry.0.state.id != state.id {
                    error::refused("timeline belongs to a different device")
                } else if !semaphore_stage(state, entry.2) {
                    error::refused("invalid semaphore pipeline stage")
                } else if named_before(entries, count - 1, entry.0.raw) {
                    error::refused("duplicate semaphore in wait/signal list")
                } else {
                    Ok(infos.push(entry_info(entry)))
                }
            },
        }
    }
}

proof fn infos_error_stays(
    state: DeviceState,
    entries: Seq<(&TimelineSemaphore, u64, Stage)>,
    shorter: nat,
    longer: nat,
)
    requires
        shorter <= longer,
        infos_upto(state, entries, shorter) is Err,
    ensures
        infos_upto(state, entries, longer) == infos_upto(state, entries, shorter),
    decreases longer,
{
    if shorter < longer {
        infos_error_stays(state, entries, shorter, (longer - 1) as nat);
    }
}

fn is_named(entries: &[(&TimelineSemaphore, u64, Stage)], count: usize, raw: u64) -> (r: bool)
    requires
        count <= entries@.len(),
    ensures
        r == named_before(entries@, count as int, raw),
{
    let mut index: usize = 0;
    while index < count
        invariant
            index <= count <= entries@.len(),
            forall|i: int| 0 <= i < index ==> (#[trigger] entries@[i]).0.raw != raw,
        decreases count - index,
    {
        if entries[index].0.raw == raw {
            return true;
        }
        index = index + 1;
    }
    false
}

/// Turns wait or signal entries into semaphores of a submission.
fn semaphore_infos(state: &DeviceState, entries: &[(&TimelineSemaphore, u64, Stage)]) -> (r: Result<
    Vec<SemaphoreInfo>,
    GpuError,
>)
    ensures
        match (r, infos_upto(*state, entries@, entries@.len())) {
            (Ok(infos), Ok(expected)) => info_models(infos@) == expected,
            (Err(error), Err(problem)) => error@ == problem,
            _ => false,
        },
{
    let mut infos: Vec<SemaphoreInfo> = Vec::with_capacity(entries.len());
    let mut index: usize = 0;
    assert(info_models(infos@) =~= Seq::empty());
    while index < entries.len()
        invariant
            index <= entries@.len(),
            infos_upto(*state, entries@, index as nat) == Ok::<_, Problem>(info_models(infos@)),
        decreases entries@.len() - index,
    {
        proof {
            if infos_upto(*state, entries@, index as nat + 1) is Err {
                infos_error_stays(*state, entries@, index as nat + 1, entries@.len());
            }
        }
        let semaphore = entries[index].0;
        let value: u64 = entries[index].1;
        let stage = entries[index].2;
        if !same_device(state, &semaphore.state) {
            return Err(GpuError::InvalidArgument("timeline belongs to a different device"));
        }
        if stage == Stage::NONE() || stage.intersects(Stage::HOST()) || (stage.intersects(
            Stage::MESH(),
        ) && !state.caps.mesh_shader) {
            return Err(GpuError::InvalidArgument("invalid semaphore pipeline stage"));
        }
        if is_named(entries, index, semaphore.raw) {
            return Err(GpuError::InvalidArgument("duplicate semaphore in wait/signal list"));
        }
        let ghost before = infos@;
        infos.push(
            SemaphoreInfo {
                semaphore: semaphore.raw,
                value,
                stage: vk::PipelineStageFlags2::from(stage),
            },
        );
        assert(info_models(infos@) =~= info_models(before).push(entry_info(entries@[index as int])));
        index = index + 1;
    }
    Ok(infos)
}

/// What the driver has to do next to submit a command.
#[derive(Debug, Clone, Copy, PartialEq, Eq, Structural)]
pub enum SubmitAction {
    EndRecording,
    ResetFence,
    Submit,
    Done,
}

/// The first step of a submission. A command can be submitted once per recording.
pub open spec fn spec_prepare_submit(command: CommandModel) -> Result<SubmitAction, Problem> {
    if command.rendering {
        error::refused("end_render_pass before submitting")
    } else if command.status == CommandStatus::Recording {
        Ok(SubmitAction::EndRecording)
    } else if command.status == CommandStatus::Executable {
        Ok(SubmitAction::ResetFence)
    } else {
        error::refused("command must be recorded before submission")
    }
}

fn prepare_submit(command: &CommandBuffer) -> (r: Result<SubmitAction, GpuError>)
    ensures
        error::outcome(r) == spec_prepare_submit(command@),
{
    if command.rendering {
        return Err(GpuError::InvalidArgument("end_render_pass before submitting"));
    }
    match command.status {
        CommandStatus::Recording => Ok(SubmitAction::EndRecording),
        CommandStatus::Executable => Ok(SubmitAction::ResetFence),
        _ => Err(GpuError::InvalidArgument("command must be recorded before submission")),
    }
}

/// A submission: its semaphores and its first step.
pub struct SubmitPlan {
    pub waits: Vec<SemaphoreInfo>,
    pub signals: Vec<SemaphoreInfo>,
    pub first: SubmitAction,
}

/// A submission as a value.
pub struct SubmitModel {
    pub waits: Seq<SemaphoreModel>,
    pub signals: Seq<SemaphoreModel>,
    pub first: SubmitAction,
}

impl View for SubmitPlan {
    type V = SubmitModel;

    open spec fn view(&self) -> SubmitModel {
        SubmitModel {
            waits: info_models(self.waits@),
            signals: info_models(self.signals@),
            first: self.first,
        }
    }
}

/// A submission without presentation.
pub open spec fn spec_submit(
    state: DeviceState,
    command: CommandModel,
    waits: Seq<(&TimelineSemaphore, u64, Stage)>,
    signals: Seq<(&TimelineSemaphore, u64, Stage)>,
) -> Result<SubmitModel, Problem> {
    match spec_same_device(command, state) {
        Err(problem) => Err(problem),
        Ok(_) => match infos_upto(state, waits, waits.len()) {
            Err(problem) => Err(problem),
            Ok(wait_infos) => match infos_upto(state, signals, signals.len()) {
                Err(problem) => Err(problem),
                Ok(signal_infos) => match spec_prepare_submit(command) {
                    Err(problem) => Err(problem),
                    Ok(first) => Ok(
                        SubmitModel { waits: wait_infos, signals: signal_infos, first },
                    ),
                },
            },
        },
    }
}

/// Plans a submission without presenting. Wait and signal tuples are
/// `(timeline, value, stage)`; use `ALL_COMMANDS` for resource-retirement signals.
pub fn submit(
    device: &GpuDevice,
    command: &CommandBuffer,
    waits: &[(&TimelineSemaphore, u64, Stage)],
    signals: &[(&TimelineSemaphore, u64, Stage)],
) -> (r: Result<SubmitPlan, GpuError>)
    ensures
        match (r, spec_submit(device@.state, command@, waits@, signals@)) {
            (Ok(plan), Ok(expected)) => plan@ == expected,
            (Err(error), Err(problem)) => error@ == problem,
            _ => false,
        },
{
    let state = device.state();
    command.same_device(state)?;
    let waits = semaphore_infos(state, waits)?;
    let signals = semaphore_infos(state, signals)?;
    let first = prepare_submit(command)?;
    Ok(SubmitPlan { waits, signals, first })
}

/// The command after the driver has done an action.
pub open spec fn after_submit(command: CommandModel, done: SubmitAction) -> CommandModel {
    match done {
        SubmitAction::EndRecording => CommandModel { status: CommandStatus::Executable, ..command },
        SubmitAction::Submit => CommandModel { status: CommandStatus::Pending, ..command },
        _ => command,
    }
}

/// The action that follows another.
pub open spec fn next_submit(done: SubmitAction) -> SubmitAction {
    match done {
        SubmitAction::EndRecording => SubmitAction::ResetFence,
        SubmitAction::ResetFence => SubmitAction::Submit,
        SubmitAction::Submit => SubmitAction::Done,
        SubmitAction::Done => SubmitAction::Done,
    }
}

/// Takes in what the driver said to an action of a submission. A failure leaves the
/// command as it was before the action.
pub fn submit_continue(
    command: &mut CommandBuffer,
    done: SubmitAction,
    reply: Result<(), vk::Result>,
) -> (r: Result<SubmitAction, GpuError>)
    requires
        !old(command)@.rendering,
    ensures
        match error::driver_outcome(reply) {
            Ok(_) => r == Ok::<SubmitAction, GpuError>(next_submit(done)) && final(command)@
                == after_submit(old(command)@, done),
            Err(problem) => r matches Err(error) && error@ == problem && final(command)@ == old(
                command,
            )@,
        },
{
    proof {
        use_type_invariant(&*command);
    }
    driver_result(reply)?;
    match done {
        SubmitAction::EndRecording => {
            command.status = CommandStatus::Executable;
            Ok(SubmitAction::ResetFence)
        },
        SubmitAction::ResetFence => Ok(SubmitAction::Submit),
        SubmitAction::Submit => {
            command.status = CommandStatus::Pending;
            Ok(SubmitAction::Done)
        },
        SubmitAction::Done => Ok(SubmitAction::Done),
    }
}

// ---------------------------------------------------------------------------
// Presentation
// ---------------------------------------------------------------------------

/// A submission that presents.
pub struct PresentPlan {
    pub submission: SubmitPlan,
    pub image_index: u32,
    pub slot: usize,
    /// The number of the frame on the retirement timeline.
    pub serial: u64,
    /// The semaphore that presentation waits for.
    pub present_ready: u64,
}

/// A submission that presents, as a value.
pub struct PresentModel {
    pub submission: SubmitModel,
    pub image_index: u32,
    pub slot: usize,
    pub serial: u64,
    pub present_ready: u64,
}

impl View for PresentPlan {
    type V = PresentModel;

    open spec fn view(&self) -> PresentModel {
        PresentModel {
            submission: self.submission@,
            image_index: self.image_index,
            slot: self.slot,
            serial: self.serial,
            present_ready: self.present_ready,
        }
    }
}

/// A semaphore that the library adds to a submission, at all stages.
pub open spec fn own_info(semaphore: u64, value: u64) -> SemaphoreModel {
    SemaphoreModel {
        semaphore,
        value,
        stage: flags::stage_mask(Stage::ALL_COMMANDS()),
    }
}

/// A submission that presents the acquired frame. It also waits for the image to be
/// acquired, and signals that it may be presented and that the frame has retired.
pub open spec fn spec_present(
    device: DeviceModel,
    command: CommandModel,
    frame: FrameModel,
    waits: Seq<(&TimelineSemaphore, u64, Stage)>,
    signals: Seq<(&TimelineSemaphore, u64, Stage)>,
) -> Result<PresentModel, Problem> {
    match spec_same_device(command, device.state) {
        Err(problem) => Err(problem),
        Ok(_) => match device.active {
            None => error::refused("no acquired frame"),
            Some((index, slot)) => if !swapchain::frame_current(device, frame) {
                error::refused("stale or foreign swapchain frame")
            } else {
                match infos_upto(device.state, waits, waits.len()) {
                    Err(problem) => Err(problem),
                    Ok(wait_infos) => match infos_upto(device.state, signals, signals.len()) {
                        Err(problem) => Err(problem),
                        Ok(signal_infos) => if device.serial == u64::MAX {
                            error::refused("frame timeline exhausted")
                        } else {
                            match spec_prepare_submit(command) {
                                Err(problem) => Err(problem),
                                Ok(first) => {
                                    let serial = (device.serial + 1) as u64;
                                    let ready = device.present_ready[index as int];
                                    Ok(
                                        PresentModel {
                                            submission: SubmitModel {
                                                waits: wait_infos.push(
                                                    own_info(
                                                        device.acquire_ready[slot as int],
                                                        0,
                                                    ),
                                                ),
                                                signals: signal_infos.push(
                                                    own_info(ready, 0),
                                                ).push(own_info(device.retirement, serial)),
                                                first,
                                            },
                                            image_index: index,
                                            slot,
                                            serial,
                                            present_ready: ready,
                                        },
                                    )
                                },
                            }
                        },
                    },
                }
            },
        },
    }
}

fn own_semaphore(semaphore: u64, value: u64) -> (r: SemaphoreInfo)
    ensures
        r@ == own_info(semaphore, value),
{
    SemaphoreInfo {
        semaphore,
        value,
        stage: vk::PipelineStageFlags2::from(Stage::ALL_COMMANDS()),
    }
}

/// Plans the submission and presentation of an acquired frame. Errors here allow
/// the same frame to be tried again.
pub fn submit_and_present(
    device: &GpuDevice,
    command: &CommandBuffer,
    frame: &SwapchainFrame,
    waits: &[(&TimelineSemaphore, u64, Stage)],
    signals: &[(&TimelineSemaphore, u64, Stage)],
) -> (r: Result<PresentPlan, GpuError>)
    ensures
        match (r, spec_present(device@, command@, frame@, waits@, signals@)) {
            (Ok(plan), Ok(expected)) => plan@ == expected && plan.slot < 2,
            (Err(error), Err(problem)) => error@ == problem,
            _ => false,
        },
{
    let state = device.state();
    command.same_device(state)?;
    let (index, slot): (u32, usize) = match device.active() {
        Some((index, slot)) => (index, slot),
        None => return Err(GpuError::InvalidArgument("no acquired frame")),
    };
    if index != frame.image_index() || device.generation() != frame.generation()
        || frame.view_id() != device.image_view(index as usize).id() {
        return Err(GpuError::InvalidArgument("stale or foreign swapchain frame"));
    }
    let mut waits = semaphore_infos(state, waits)?;
    let mut signals = semaphore_infos(state, signals)?;
    let serial: u64 = match device.serial().checked_add(1) {
        Some(serial) => serial,
        None => return Err(GpuError::InvalidArgument("frame timeline exhausted")),
    };
    let present_ready = device.present_semaphore(index as usize);
    let ghost wait_models = info_models(waits@);
    let ghost signal_models = info_models(signals@);
    waits.push(own_semaphore(device.acquire_semaphore(slot), 0));
    signals.push(own_semaphore(present_ready, 0));
    signals.push(own_semaphore(device.retirement(), serial));
    assert(info_models(waits@) =~= wait_models.push(
        own_info(device@.acquire_ready[slot as int], 0),
    ));
    assert(info_models(signals@) =~= signal_models.push(own_info(present_ready, 0)).push(
        own_info(device@.retirement, serial),
    ));
    let first = prepare_submit(command)?;
    Ok(
        PresentPlan {
            submission: SubmitPlan { waits, signals, first },
            image_index: index,
            slot,
            serial,
            present_ready,
        },
    )
}

/// Notes that the driver took the submission of a frame: from here on the frame is
/// no longer valid.
pub fn submitted(device: &mut GpuDevice, plan: &PresentPlan)
    requires
        plan.slot < 2,
    ensures
        final(device)@ == swapchain::with_submission(old(device)@, plan.slot, plan.serial),
{
    frame_submitted(device, plan.slot, plan.serial);
}

/// Takes in what the driver said to a presentation: whether the image no longer
/// fits the surface, or an error. Yields whether rebuilding is recommended.
pub fn presented(device: &mut GpuDevice, frame: &SwapchainFrame, reply: Result<bool, vk::Result>) -> (
    r: Result<bool, GpuError>)
    ensures
        match error::driver_outcome(reply) {
            Ok(suboptimal) => r == Ok::<bool, GpuError>(suboptimal || frame@.suboptimal) && final(
                device)@ == old(device)@,
            Err(problem) => r matches Err(error) && error@ == problem && final(device)@
                == swapchain::out_of_date(old(device)@),
        },
{
    match driver_result(reply) {
        Ok(suboptimal) => Ok(suboptimal || frame.is_suboptimal()),
        Err(error) => {
            present_failed(device);
            Err(error)
        },
    }
}

// ---------------------------------------------------------------------------
// Laws
// ---------------------------------------------------------------------------

/// A submitted command can be neither recorded nor submitted again until it has
/// been reset, and a reset waits for it first.
pub proof fn submitted_commands_need_a_reset(command: CommandModel)
    requires
        command.status == CommandStatus::Pending,
    ensures
        spec_recording(command, false) is Err,
        spec_prepare_submit(command) is Err,
        spec_reset_start(command) == ResetAction::WaitForFence,
        after_reset(command, ResetAction::WaitForFence) == command,
{
}

/// The actions of a complete reset leave a fresh recording, whatever the command
/// was before.
pub proof fn resets_start_afresh(command: CommandModel)
    ensures
        ({
            let begun = after_reset(
                after_reset(command, ResetAction::ResetPool),
                ResetAction::Begin,
            );
            &&& begun.status == CommandStatus::Recording
            &&& !begun.rendering
            &&& begun.bound is None
            &&& forall|i: int| 0 <= i < begun.written.len() ==> !begun.written[i]
            &&& begun.written.len() == command.written.len()
            &&& spec_recording(begun, true) is Ok
            &&& spec_prepare_submit(begun) == Ok::<_, Problem>(SubmitAction::EndRecording)
        }),
{
}

/// No semaphore occurs twice among the waits, or twice among the signals, of a
/// submission, and every entry is of the submitting device.
pub proof fn semaphores_are_distinct(
    state: DeviceState,
    entries: Seq<(&TimelineSemaphore, u64, Stage)>,
    count: nat,
    infos: Seq<SemaphoreModel>,
    i: int,
    j: int,
)
    requires
        infos_upto(state, entries, count) == Ok::<_, Problem>(infos),
        count <= entries.len(),
        0 <= i < j < count,
    ensures
        infos.len() == count,
        infos[i].semaphore != infos[j].semaphore,
        infos[i] == entry_info(entries[i]),
        infos[j] == entry_info(entries[j]),
        entries[j].0.state.id == state.id,
    decreases count,
{
    infos_are_entries(state, entries, count, infos);
    infos_in_order(state, entries, count, j);
    if entries[i].0.raw == entries[j].0.raw {
        assert(named_before(entries, j, entries[j].0.raw));
    }
}

proof fn infos_in_order(
    state: DeviceState,
    entries: Seq<(&TimelineSemaphore, u64, Stage)>,
    count: nat,
    j: int,
)
    requires
        infos_upto(state, entries, count) is Ok,
        0 <= j < count,
    ensures
        entries[j].0.state.id == state.id,
        !named_before(entries, j, entries[j].0.raw),
    decreases count,
{
    if j < count - 1 {
        infos_in_order(state, entries, (count - 1) as nat, j);
    }
}

proof fn infos_are_entries(
    state: DeviceState,
    entries: Seq<(&TimelineSemaphore, u64, Stage)>,
    count: nat,
    infos: Seq<SemaphoreModel>,
)
    requires
        infos_upto(state, entries, count) == Ok::<_, Problem>(infos),
        count <= entries.len(),
    ensures
        infos.len() == count,
        forall|i: int| 0 <= i < count ==> (#[trigger] infos[i]) == entry_info(entries[i]),
    decreases count,
{
    if count > 0 {
        infos_are_entries(
            state,
            entries,
            (count - 1) as nat,
            infos_upto(state, entries, (count - 1) as nat)->Ok_0,
        );
    }
}

/// Once its submission has been taken a frame is never presented again, by whatever
/// command: not while no image is acquired, nor after any later acquisitions,
/// submissions, failures and rebuilds, until the generation wraps around.
pub proof fn submitted_frames_are_invalid(
    device: DeviceModel,
    command: CommandModel,
    frame: FrameModel,
    waits: Seq<(&TimelineSemaphore, u64, Stage)>,
    signals: Seq<(&TimelineSemaphore, u64, Stage)>,
    plan: PresentModel,
    steps: Seq<DeviceStep>,
    other: CommandModel,
    other_waits: Seq<(&TimelineSemaphore, u64, Stage)>,
    other_signals: Seq<(&TimelineSemaphore, u64, Stage)>,
)
    requires
        spec_present(device, command, frame, waits, signals) == Ok::<_, Problem>(plan),
        device.generation + swapchain::generations(steps) <= u64::MAX,
    ensures
        ({
            let submitted = swapchain::with_submission(device, plan.slot, plan.serial);
            let later = swapchain::after_steps(submitted, steps);
            let again = spec_present(later, other, frame, other_waits, other_signals);
            &&& !swapchain::frame_current(later, frame)
            &&& again is Err
            &&& spec_same_device(other, device.state) is Ok ==> again == error::refused::<
                PresentModel,
            >(
                if later.active is None {
                    "no acquired frame"
                } else {
                    "stale or foreign swapchain frame"
                },
            )
        }),
{
    let submitted = swapchain::with_submission(device, plan.slot, plan.serial);
    swapchain::overtaken_frames_stay_overtaken(submitted, frame, steps);
}

/// A frame of an earlier acquisition, of an earlier swapchain or of another device
/// is refused.
pub proof fn stale_frames_are_refused(
    device: DeviceModel,
    command: CommandModel,
    frame: FrameModel,
    waits: Seq<(&TimelineSemaphore, u64, Stage)>,
    signals: Seq<(&TimelineSemaphore, u64, Stage)>,
)
    requires
        device.active matches Some((index, _)) && (frame.generation != device.generation
            || frame.image_index != index || frame.view.id != device.views[index as int].id),
    ensures
        spec_present(device, command, frame, waits, signals) is Err,
{
}

/// The number of each frame on the retirement timeline is one above the last, so
/// the timeline only grows.
pub proof fn retirement_grows(
    device: DeviceModel,
    command: CommandModel,
    frame: FrameModel,
    waits: Seq<(&TimelineSemaphore, u64, Stage)>,
    signals: Seq<(&TimelineSemaphore, u64, Stage)>,
    plan: PresentModel,
)
    requires
        spec_present(device, command, frame, waits, signals) == Ok::<_, Problem>(plan),
    ensures
        plan.serial == device.serial + 1,
        plan.submission.signals.last() == own_info(device.retirement, plan.serial),
        plan.submission.waits.last().semaphore == device.acquire_ready[plan.slot as int],
        Some((plan.image_index, plan.slot)) == device.active,
{
}

/// A semaphore of a submission is that of an entry: the same timeline, the same value, and
/// the Vulkan bits of the same stages.
pub open spec fn is_entry(info: SemaphoreInfo, entry: (&TimelineSemaphore, u64, Stage)) -> bool {
    &&& info.semaphore == entry.0.raw
    &&& info.value == entry.1
    &&& vulkan::vk_stage_bits(info.stage) == flags::stage_mask(entry.2)
}

/// Every entry is of the device, at stages that a queue of it has, and of a timeline that no
/// other entry names.
pub open spec fn entries_in_order(
    state: DeviceState,
    entries: Seq<(&TimelineSemaphore, u64, Stage)>,
) -> bool {
    &&& forall|i: int|
        0 <= i < entries.len() ==> {
            let entry = #[trigger] entries[i];
            &&& entry.0.state.id == state.id
            &&& entry.2.0 != 0
            &&& entry.2.0 & Stage::HOST().0 == 0
            &&& entry.2.0 & Stage::MESH().0 != 0 ==> state.caps.mesh_shader
        }
    &&& forall|i: int, j: int|
        0 <= i < j < entries.len() ==> (#[trigger] entries[i]).0.raw != (#[trigger] entries[j]).0.raw
}

proof fn entries_are_judged(
    state: DeviceState,
    entries: Seq<(&TimelineSemaphore, u64, Stage)>,
    count: nat,
)
    requires
        count <= entries.len(),
    ensures
        infos_upto(state, entries, count) is Ok <==> entries_in_order(
            state,
            entries.take(count as int),
        ),
    decreases count,
{
    let now = entries.take(count as int);
    if count > 0 {
        let earlier = entries.take(count - 1);
        entries_are_judged(state, entries, (count - 1) as nat);
        assert forall|i: int| 0 <= i < count - 1 implies earlier[i] == #[trigger] now[i] by {}
        assert(now[count - 1] == entries[count - 1]);
        if infos_upto(state, entries, count) is Ok {
            assert forall|i: int, j: int| 0 <= i < j < now.len() implies (#[trigger] now[i]).0.raw
                != (#[trigger] now[j]).0.raw by {
                if j == count - 1 {
                    if now[i].0.raw == now[j].0.raw {
                        assert(entries[i].0.raw == entries[j].0.raw);
                        assert(named_before(entries, j, entries[j].0.raw));
                    }
                } else {
                    assert(earlier[i] == now[i] && earlier[j] == now[j]);
                }
            }
            assert forall|i: int| 0 <= i < now.len() implies {
                let entry = #[trigger] now[i];
                &&& entry.0.state.id == state.id
                &&& entry.2.0 != 0
                &&& entry.2.0 & Stage::HOST().0 == 0
                &&& entry.2.0 & Stage::MESH().0 != 0 ==> state.caps.mesh_shader
            } by {
                if i < count - 1 {
                    assert(earlier[i] == now[i]);
                }
            }
        }
        if entries_in_order(state, now) {
            assert forall|i: int, j: int|
                0 <= i < j < earlier.len() implies (#[trigger] earlier[i]).0.raw != (
            #[trigger] earlier[j]).0.raw by {
                assert(now[i].0.raw != now[j].0.raw);
            }
            assert forall|i: int| 0 <= i < earlier.len() implies {
                let entry = #[trigger] earlier[i];
                &&& entry.0.state.id == state.id
                &&& entry.2.0 != 0
                &&& entry.2.0 & Stage::HOST().0 == 0
                &&& entry.2.0 & Stage::MESH().0 != 0 ==> state.caps.mesh_shader
            } by {
                assert(earlier[i] == now[i]);
            }
            assert(!named_before(entries, count - 1, entries[count - 1].0.raw)) by {
                assert forall|i: int| 0 <= i < count - 1 implies (#[trigger] entries[i]).0.raw
                    != entries[count - 1].0.raw by {
                    assert(now[i].0.raw != now[count - 1].0.raw);
                }
            }
        }
    }
}

/// A submission waits for everything that its caller asked for and signals everything, in
/// the order of the entries, and does nothing else.
pub proof fn submissions_keep_their_semaphores(
    device: &GpuDevice,
    command: &CommandBuffer,
    waits: &[(&TimelineSemaphore, u64, Stage)],
    signals: &[(&TimelineSemaphore, u64, Stage)],
    r: Result<SubmitPlan, GpuError>,
)
    requires
        call_ensures(submit, (device, command, waits, signals), r),
    ensures
        r is Ok <==> {
            &&& command@.state.id == device@.state.id
            &&& entries_in_order(device@.state, waits@)
            &&& entries_in_order(device@.state, signals@)
            &&& !command@.rendering
            &&& command@.status == CommandStatus::Recording || command@.status
                == CommandStatus::Executable
        },
        r matches Ok(plan) ==> {
            &&& plan.waits@.len() == waits@.len()
            &&& plan.signals@.len() == signals@.len()
            &&& forall|i: int|
                0 <= i < waits@.len() ==> is_entry(#[trigger] plan.waits@[i], waits@[i])
            &&& forall|i: int|
                0 <= i < signals@.len() ==> is_entry(#[trigger] plan.signals@[i], signals@[i])
            &&& plan.first == if command@.status == CommandStatus::Recording {
                SubmitAction::EndRecording
            } else {
                SubmitAction::ResetFence
            }
        },
{
    let state = device@.state;
    entries_are_judged(state, waits@, waits@.len());
    entries_are_judged(state, signals@, signals@.len());
    assert(waits@.take(waits@.len() as int) =~= waits@);
    assert(signals@.take(signals@.len() as int) =~= signals@);
    if let Ok(plan) = r {
        let wait_infos = infos_upto(state, waits@, waits@.len())->Ok_0;
        let signal_infos = infos_upto(state, signals@, signals@.len())->Ok_0;
        infos_are_entries(state, waits@, waits@.len(), wait_infos);
        infos_are_entries(state, signals@, signals@.len(), signal_infos);
        assert(info_models(plan.waits@).len() == plan.waits@.len());
        assert(info_models(plan.signals@).len() == plan.signals@.len());
        assert forall|i: int| 0 <= i < waits@.len() implies is_entry(
            #[trigger] plan.waits@[i],
            waits@[i],
        ) by {
            assert(info_models(plan.waits@)[i] == plan.waits@[i]@);
            assert(wait_infos[i] == entry_info(waits@[i]));
        }
        assert forall|i: int| 0 <= i < signals@.len() implies is_entry(
            #[trigger] plan.signals@[i],
            signals@[i],
        ) by {
            assert(info_models(plan.signals@)[i] == plan.signals@[i]@);
            assert(signal_infos[i] == entry_info(signals@[i]));
        }
    }
}

/// A semaphore that the library adds, at all stages.
pub open spec fn is_own(info: SemaphoreInfo, semaphore: u64, value: u64) -> bool {
    &&& info.semaphore == semaphore
    &&& info.value == value
    &&& vulkan::vk_stage_bits(info.stage) == flags::stage_mask(Stage::ALL_COMMANDS())
}

/// A presentation waits for everything that its caller asked for, and last for the image to
/// be acquired. It signals everything that its caller asked for, then that the image may be
/// presented, and last the number of the frame, one above the number before, on the
/// retirement timeline. It presents the acquired image from its own slot.
pub proof fn presentations_keep_their_semaphores(
    device: &GpuDevice,
    command: &CommandBuffer,
    frame: &SwapchainFrame,
    waits: &[(&TimelineSemaphore, u64, Stage)],
    signals: &[(&TimelineSemaphore, u64, Stage)],
    r: Result<PresentPlan, GpuError>,
)
    requires
        call_ensures(submit_and_present, (device, command, frame, waits, signals), r),
    ensures
        r is Ok <==> {
            &&& command@.state.id == device@.state.id
            &&& device@.active matches Some((index, _))
            &&& frame@.image_index == index
            &&& frame@.generation == device@.generation
            &&& frame@.view.id == device@.views[index as int].id
            &&& entries_in_order(device@.state, waits@)
            &&& entries_in_order(device@.state, signals@)
            &&& device@.serial < u64::MAX
            &&& !command@.rendering
            &&& command@.status == CommandStatus::Recording || command@.status
                == CommandStatus::Executable
        },
        r matches Ok(plan) ==> {
            let planned_waits = plan.submission.waits@;
            let planned_signals = plan.submission.signals@;
            &&& planned_waits.len() == waits@.len() + 1
            &&& forall|i: int|
                0 <= i < waits@.len() ==> is_entry(#[trigger] planned_waits[i], waits@[i])
            &&& is_own(
                planned_waits[waits@.len() as int],
                device@.acquire_ready[plan.slot as int],
                0,
            )
            &&& planned_signals.len() == signals@.len() + 2
            &&& forall|i: int|
                0 <= i < signals@.len() ==> is_entry(#[trigger] planned_signals[i], signals@[i])
            &&& is_own(planned_signals[signals@.len() as int], plan.present_ready, 0)
            &&& is_own(
                planned_signals[signals@.len() as int + 1],
                device@.retirement,
                plan.serial,
            )
            &&& plan.serial == device@.serial + 1
            &&& device@.active == Some((plan.image_index, plan.slot))
            &&& plan.present_ready == device@.present_ready[plan.image_index as int]
            &&& plan.submission.first == if command@.status == CommandStatus::Recording {
                SubmitAction::EndRecording
            } else {
                SubmitAction::ResetFence
            }
        },
{
    let state = device@.state;
    entries_are_judged(state, waits@, waits@.len());
    entries_are_judged(state, signals@, signals@.len());
    assert(waits@.take(waits@.len() as int) =~= waits@);
    assert(signals@.take(signals@.len() as int) =~= signals@);
    if let Ok(plan) = r {
        planned_semaphores(device@, command@, frame@, waits@, signals@, plan);
    }
}

proof fn planned_semaphores(
    device: DeviceModel,
    command: CommandModel,
    frame: FrameModel,
    waits: Seq<(&TimelineSemaphore, u64, Stage)>,
    signals: Seq<(&TimelineSemaphore, u64, Stage)>,
    plan: PresentPlan,
)
    requires
        spec_present(device, command, frame, waits, signals) == Ok::<_, Problem>(plan@),
    ensures
        ({
            let planned_waits = plan.submission.waits@;
            let planned_signals = plan.submission.signals@;
            &&& planned_waits.len() == waits.len() + 1
            &&& forall|i: int|
                0 <= i < waits.len() ==> is_entry(#[trigger] planned_waits[i], waits[i])
            &&& is_own(
                planned_waits[waits.len() as int],
                device.acquire_ready[plan.slot as int],
                0,
            )
            &&& planned_signals.len() == signals.len() + 2
            &&& forall|i: int|
                0 <= i < signals.len() ==> is_entry(#[trigger] planned_signals[i], signals[i])
            &&& is_own(planned_signals[signals.len() as int], plan.present_ready, 0)
            &&& is_own(planned_signals[signals.len() as int + 1], device.retirement, plan.serial)
        }),
{
    let state = device.state;
    let wait_infos = infos_upto(state, waits, waits.len())->Ok_0;
    let signal_infos = infos_upto(state, signals, signals.len())->Ok_0;
    infos_are_entries(state, waits, waits.len(), wait_infos);
    infos_are_entries(state, signals, signals.len(), signal_infos);
    let wait_models = info_models(plan.submission.waits@);
    let signal_models = info_models(plan.submission.signals@);
    assert(wait_models.len() == waits.len() + 1);
    assert(signal_models.len() == signals.len() + 2);
    assert forall|i: int| 0 <= i < waits.len() implies is_entry(
        #[trigger] plan.submission.waits@[i],
        waits[i],
    ) by {
        assert(wait_models[i] == plan.submission.waits@[i]@);
        assert(wait_infos[i] == entry_info(waits[i]));
    }
    assert forall|i: int| 0 <= i < signals.len() implies is_entry(
        #[trigger] plan.submission.signals@[i],
        signals[i],
    ) by {
        assert(signal_models[i] == plan.submission.signals@[i]@);
        assert(signal_infos[i] == entry_info(signals[i]));
    }
    assert(wait_models[waits.len() as int] == plan.submission.waits@[waits.len() as int]@);
    assert(signal_models[signals.len() as int] == plan.submission.signals@[signals.len() as int]@);
    assert(signal_models[signals.len() as int + 1] == plan.submission.signals@[signals.len() as int
        + 1]@);
}

/// A submission ends the recording, resets the fence and submits, in this order. Only then is
/// the command pending; nothing else about it changes.
pub proof fn submissions_take_their_steps(command: CommandModel)
    ensures
        next_submit(SubmitAction::EndRecording) == SubmitAction::ResetFence,
        next_submit(SubmitAction::ResetFence) == SubmitAction::Submit,
        next_submit(SubmitAction::Submit) == SubmitAction::Done,
        ({
            let ended = after_submit(command, SubmitAction::EndRecording);
            let reset = after_submit(ended, SubmitAction::ResetFence);
            let submitted = after_submit(reset, SubmitAction::Submit);
            &&& ended == (CommandModel { status: CommandStatus::Executable, ..command })
            &&& reset == ended
            &&& submitted == (CommandModel { status: CommandStatus::Pending, ..command })
        }),
{
}

/// A reset waits if the command is pending, then resets the pool, begins, and resets as many
/// queries as there are, in this order.
pub proof fn resets_take_their_steps(command: CommandModel)
    requires
        command.valid(),
    ensures
        spec_reset_start(command) == if command.status == CommandStatus::Pending {
            ResetAction::WaitForFence
        } else {
            ResetAction::ResetPool
        },
        next_reset(command, ResetAction::WaitForFence) == ResetAction::ResetPool,
        next_reset(command, ResetAction::ResetPool) == ResetAction::Begin,
        command.queries ==> (next_reset(command, ResetAction::Begin) matches
            ResetAction::ResetQueries(count) && count == command.written.len()),
        !command.queries ==> next_reset(command, ResetAction::Begin) == ResetAction::Done,
        forall|count: u32|
            (#[trigger] next_reset(command, ResetAction::ResetQueries(count)))
                == ResetAction::Done,
        after_reset(command, ResetAction::ResetPool) == (CommandModel {
            status: CommandStatus::Initial,
            ..command
        }),
{
}

/// A new command is yet to be begun, outside of rendering and with nothing bound. It has as
/// many queries as were asked for, none of them written, if the queue counts time at all.
pub proof fn new_commands_are_blank(state: Rc<DeviceState>, r: CommandBuffer)
    requires
        call_ensures(begin_command, (state,), r),
    ensures
        r@.state == *state,
        r@.status == CommandStatus::Initial,
        !r@.rendering,
        r@.bound is None,
        r@.queries <==> state.timestamp_query_count > 0 && state.timestamp_valid_bits > 0,
        r@.written.len() == if state.timestamp_valid_bits > 0 {
            state.timestamp_query_count as nat
        } else {
            0
        },
        forall|i: int| 0 <= i < r@.written.len() ==> !#[trigger] r@.written[i],
{
}

/// Commands are recorded while recording, and outside of a render pass where that is asked.
/// They take parts of their own device only.
pub proof fn recordings_are_judged(command: CommandModel, outside: bool, state: DeviceState)
    ensures
        spec_recording(command, outside) is Ok <==> command.status == CommandStatus::Recording && !(
        outside && command.rendering),
        spec_same_device(command, state) is Ok <==> command.state.id == state.id,
{
}

} // verus!
