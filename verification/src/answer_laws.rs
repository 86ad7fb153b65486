//! What calls answer without changing anything.

use crate::command;
use crate::command::{CommandBuffer, CommandStatus, ResetAction};
use crate::device;
use crate::device::{BaseFeatures, Vulkan12Features, Vulkan13Features};
use crate::error::GpuError;
use crate::flags::{Access, Stage, TextureUsage};
use crate::glyph_raster;
use crate::glyph_raster::{CurveSegment, InvalidInput};
use crate::heap::{BufferPlan, GpuHeap};
use crate::simple_ttf::{Glyph, PathCommand};
use crate::state::DeviceState;
use crate::swapchain;
use crate::swapchain::GpuDevice;
use crate::texture::{RenderView, Texture, ViewPlan};
use crate::types::{ImageAspect, TextureDesc, U32x2};
use std::rc::Rc;
use vstd::prelude::*;

verus! {

// ---------------------------------------------------------------------------
// Resources give out what they were made of
// ---------------------------------------------------------------------------

/// An allocated heap has the size and the set of its plan, and the buffer, the address and
/// the mapping that the driver gave.
pub proof fn heaps_give_out_what_was_allocated(
    state: Rc<DeviceState>,
    plan: &BufferPlan,
    buffer: u64,
    address: u64,
    mapped: bool,
    made: GpuHeap,
    size: u64,
    start: u64,
    handle: u64,
    reachable: bool,
    set: Option<usize>,
)
    requires
        call_ensures(GpuHeap::allocated, (state, plan, buffer, address, mapped), made),
        call_ensures(GpuHeap::size, (&made,), size),
        call_ensures(GpuHeap::device_address, (&made,), start),
        call_ensures(GpuHeap::buffer, (&made,), handle),
        call_ensures(GpuHeap::is_mapped, (&made,), reachable),
        call_ensures(GpuHeap::descriptor_set, (&made,), set),
    ensures
        size == plan.size,
        start == address,
        handle == buffer,
        reachable == mapped,
        set == plan.descriptor_set,
        made@.state == *state,
{
}

/// A created texture has the image and the description that it was created with.
pub proof fn textures_give_out_what_was_created(
    state: Rc<DeviceState>,
    image: u64,
    desc: TextureDesc,
    made: Texture,
    handle: u64,
    description: &TextureDesc,
)
    requires
        call_ensures(Texture::created, (state, image, desc), made),
        call_ensures(Texture::image, (&made,), handle),
        call_ensures(Texture::description, (&made,), description),
    ensures
        handle == image,
        *description == desc,
        made@.state == *state,
{
}

/// A created view has the plan, the number and the handle that it was created with, and the
/// size of its plan.
pub proof fn views_give_out_what_was_created(
    texture: &Texture,
    plan: ViewPlan,
    id: u64,
    raw: u64,
    made: RenderView,
    kept: ViewPlan,
    number: u64,
    handle: u64,
    extent: U32x2,
)
    requires
        call_ensures(RenderView::created, (texture, plan, id, raw), made),
        call_ensures(RenderView::plan, (&made,), kept),
        call_ensures(RenderView::id, (&made,), number),
        call_ensures(RenderView::raw, (&made,), handle),
        call_ensures(RenderView::extent, (&made,), extent),
    ensures
        kept == plan,
        number == id,
        handle == raw,
        extent == plan.extent,
        made@.texture == texture@,
{
}

// ---------------------------------------------------------------------------
// Commands and devices
// ---------------------------------------------------------------------------

/// A command records only between its reset and its submission, and outside of render passes
/// where that is asked for. It is waited for only once it was submitted.
pub proof fn commands_know_their_state(
    command: &CommandBuffer,
    outside: bool,
    state: &DeviceState,
    recording: Result<(), GpuError>,
    own: Result<(), GpuError>,
    waits: bool,
    reset: ResetAction,
)
    requires
        call_ensures(CommandBuffer::recording, (command, outside), recording),
        call_ensures(CommandBuffer::same_device, (command, state), own),
        call_ensures(command::wait_command, (command,), waits),
        call_ensures(command::reset_command, (command,), reset),
    ensures
        recording is Ok <==> command@.status == CommandStatus::Recording && !(outside
            && command@.rendering),
        own is Ok <==> command@.state.id == state.id,
        waits <==> command@.status == CommandStatus::Pending,
        waits ==> reset is WaitForFence,
        !waits ==> reset is ResetPool,
{
}

/// A frame is acquired only while none is, from a swapchain that is not stale. A swapchain is
/// rebuilt only for a window and while no frame is acquired.
pub proof fn devices_know_their_state(
    device: &GpuDevice,
    acquired: Result<(), GpuError>,
    rebuilt: Result<(), GpuError>,
)
    requires
        call_ensures(swapchain::acquire, (device,), acquired),
        call_ensures(swapchain::recreate_swapchain, (device,), rebuilt),
    ensures
        acquired is Ok <==> device@.active is None && !device@.present_failed,
        device@.active is None && device@.present_failed ==> acquired->Err_0 is OutOfDate,
        rebuilt is Ok <==> device@.state.windowed && device@.active is None,
{
}

/// A window without area is minimized. A minimized window is no reason to refuse a new
/// device; any other error is.
pub proof fn minimized_windows_are_told_apart(
    extent: U32x2,
    checked: Result<(), GpuError>,
    result: Result<(), GpuError>,
    accepted: Result<(), GpuError>,
)
    requires
        call_ensures(swapchain::check_extent, (extent,), checked),
        call_ensures(swapchain::accept_first_swapchain, (result,), accepted),
    ensures
        checked is Ok <==> extent.x > 0 && extent.y > 0,
        checked is Err ==> checked->Err_0 is WindowMinimized,
        accepted is Ok <==> result is Ok || result->Err_0 is WindowMinimized,
        accepted is Err ==> accepted->Err_0@ == result->Err_0@,
{
}

/// Nothing is missing exactly if the version and all features are there.
pub proof fn missing_features_are_listed(
    version: u32,
    base: &BaseFeatures,
    features12: &Vulkan12Features,
    features13: &Vulkan13Features,
    descriptors: bool,
    r: Vec<&'static str>,
    index: int,
)
    requires
        call_ensures(
            device::required_features,
            (version, base, features12, features13, descriptors),
            r,
        ),
        0 <= index < 17,
    ensures
        ({
            let all = device::requirements(version, *base, *features12, *features13, descriptors);
            &&& all.len() == 17
            &&& !all[index].0 ==> r@.contains(all[index].1)
            &&& r@.len() == 0 ==> all[index].0
        }),
{
    let all = device::requirements(version, *base, *features12, *features13, descriptors);
    device::unmet_contains(all, index);
}

// ---------------------------------------------------------------------------
// Sets
// ---------------------------------------------------------------------------

/// A set contains another if no member of that is missing, and meets it if they share one.
pub proof fn sets_contain_and_meet(
    usage: TextureUsage,
    other_usage: TextureUsage,
    stage: Stage,
    other_stage: Stage,
    access: Access,
    other_access: Access,
    contained: (bool, bool, bool),
    met: (bool, bool, bool),
)
    requires
        call_ensures(TextureUsage::contains, (usage, other_usage), contained.0),
        call_ensures(Stage::contains, (stage, other_stage), contained.1),
        call_ensures(Access::contains, (access, other_access), contained.2),
        call_ensures(TextureUsage::intersects, (usage, other_usage), met.0),
        call_ensures(Stage::intersects, (stage, other_stage), met.1),
        call_ensures(Access::intersects, (access, other_access), met.2),
    ensures
        contained.0 <==> usage.0 | other_usage.0 == usage.0,
        contained.1 <==> stage.0 | other_stage.0 == stage.0,
        contained.2 <==> access.0 | other_access.0 == access.0,
        met.0 <==> usage.0 & other_usage.0 != 0,
        met.1 <==> stage.0 & other_stage.0 != 0,
        met.2 <==> access.0 & other_access.0 != 0,
{
    let (a, b) = (usage.0, other_usage.0);
    let (c, d) = (stage.0, other_stage.0);
    let (e, f) = (access.0, other_access.0);
    assert((a & b == b) == (a | b == a) && (c & d == d) == (c | d == c) && (e & f == f) == (e | f
        == e)) by (bit_vector);
}

/// The parts of an image have the Vulkan bits one, two and four, and a single part has a
/// single bit.
pub proof fn aspects_have_their_bits(aspect: ImageAspect, bits: u32, single: bool)
    requires
        call_ensures(ImageAspect::bits, (aspect,), bits),
        call_ensures(ImageAspect::is_single, (aspect,), single),
    ensures
        bits < 8,
        bits % 2 == 1 <==> aspect.color,
        bits / 2 % 2 == 1 <==> aspect.depth,
        bits / 4 % 2 == 1 <==> aspect.stencil,
        single <==> bits == 1 || bits == 2 || bits == 4,
{
}

// ---------------------------------------------------------------------------
// Curves
// ---------------------------------------------------------------------------

/// A prepared glyph has the curves of its path.
pub proof fn glyphs_become_their_curves(
    glyph: &Glyph,
    commands: Vec<PathCommand>,
    curves: Result<Vec<CurveSegment>, InvalidInput>,
    prepared: Result<Vec<CurveSegment>, InvalidInput>,
)
    requires
        call_ensures(Glyph::path_commands, (glyph,), commands),
        call_ensures(glyph_raster::plan_curves, (&commands,), curves),
        call_ensures(glyph_raster::prepare_glyph, (glyph,), prepared),
    ensures
        prepared is Ok,
        curves is Ok,
        prepared->Ok_0@ == curves->Ok_0@,
{
}

} // verus!
