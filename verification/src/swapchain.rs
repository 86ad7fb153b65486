//! The device owner: swapchain images and the frames in flight.

use crate::device::{DeviceCaps, DeviceDesc};
use crate::error;
use crate::error::{GpuError, Problem, unsupported};
use crate::flags::TextureUsage;
use crate::format::Format;
use crate::state::DeviceState;
use crate::text::concat;
use crate::texture::{RenderView, ViewModel};
use crate::types::{TextureDesc, TextureType, U32x2, U32x3};
use std::rc::Rc;
use vstd::prelude::*;
use vstd::string::StringExecFns;

verus! {

/// Single-queue graphics/compute device.
pub struct GpuDevice {
    state: Rc<DeviceState>,
    has_swapchain: bool,
    views: Vec<Rc<RenderView>>,
    present_ready: Vec<u64>,
    acquire_ready: [u64; 2],
    acquire_pending: [bool; 2],
    retirement: u64,
    serial: u64,
    slot_values: [u64; 2],
    active: Option<(u32, usize)>,
    generation: u64,
    extent: U32x2,
    format: Format,
    present_failed: bool,
    image_count: u32,
}

/// A device owner as a value.
#[verifier::ext_equal]
pub struct DeviceModel {
    pub state: DeviceState,
    pub has_swapchain: bool,
    /// The images of the swapchain.
    pub views: Seq<ViewModel>,
    /// One semaphore per image, signalled when it may be presented.
    pub present_ready: Seq<u64>,
    /// One semaphore per slot, signalled when an image has been acquired.
    pub acquire_ready: Seq<u64>,
    /// Slots whose fence has to be waited for.
    pub acquire_pending: Seq<bool>,
    /// The timeline on which frames retire.
    pub retirement: u64,
    /// Frames submitted so far.
    pub serial: u64,
    /// The frame that last used each slot.
    pub slot_values: Seq<u64>,
    /// The acquired image and its slot.
    pub active: Option<(u32, usize)>,
    /// Grows with every acquisition and every rebuilt swapchain.
    pub generation: u64,
    pub extent: U32x2,
    pub format: Format,
    pub present_failed: bool,
    pub image_count: u32,
}

impl DeviceModel {
    /// There are two slots, and an acquired image exists.
    pub open spec fn valid(self) -> bool {
        &&& self.acquire_ready.len() == 2
        &&& self.acquire_pending.len() == 2
        &&& self.slot_values.len() == 2
        &&& self.active matches Some((index, slot)) ==> index < self.views.len() && slot < 2
            && self.present_ready.len() == self.views.len()
    }

    /// The slot of the next frame. Two slots take turns.
    pub open spec fn next_slot(self) -> int {
        self.serial as int % 2
    }
}

/// The views as values.
pub open spec fn view_models(views: Seq<Rc<RenderView>>) -> Seq<ViewModel> {
    views.map_values(|view: Rc<RenderView>| view@)
}

impl View for GpuDevice {
    type V = DeviceModel;

    closed spec fn view(&self) -> DeviceModel {
        DeviceModel {
            state: *self.state,
            has_swapchain: self.has_swapchain,
            views: view_models(self.views@),
            present_ready: self.present_ready@,
            acquire_ready: self.acquire_ready@,
            acquire_pending: self.acquire_pending@,
            retirement: self.retirement,
            serial: self.serial,
            slot_values: self.slot_values@,
            active: self.active,
            generation: self.generation,
            extent: self.extent,
            format: self.format,
            present_failed: self.present_failed,
            image_count: self.image_count,
        }
    }
}

impl GpuDevice {
    #[verifier::type_invariant]
    spec fn inv(self) -> bool {
        self.active matches Some((index, slot)) ==> index < self.views@.len() && slot < 2
            && self.present_ready@.len() == self.views@.len()
    }

    /// A device without a swapchain yet, with the semaphores that frames use.
    pub fn new(
        state: Rc<DeviceState>,
        desc: &DeviceDesc,
        acquire_ready: [u64; 2],
        retirement: u64,
    ) -> (r: GpuDevice)
        ensures
            r@ == (DeviceModel {
                state: *state,
                has_swapchain: false,
                views: Seq::empty(),
                present_ready: Seq::empty(),
                acquire_ready: acquire_ready@,
                acquire_pending: seq![false, false],
                retirement,
                serial: 0,
                slot_values: seq![0u64, 0u64],
                active: None,
                generation: 0,
                extent: U32x2 { x: 0, y: 0 },
                format: desc.swapchain_format,
                present_failed: false,
                image_count: desc.desired_swapchain_image_count,
            }),
            r@.valid(),
    {
        let device = GpuDevice {
            state,
            has_swapchain: false,
            views: Vec::new(),
            present_ready: Vec::new(),
            acquire_ready,
            acquire_pending: [false, false],
            retirement,
            serial: 0,
            slot_values: [0, 0],
            active: None,
            generation: 0,
            extent: U32x2 { x: 0, y: 0 },
            format: desc.swapchain_format,
            present_failed: false,
            image_count: desc.desired_swapchain_image_count,
        };
        assert(device@.views =~= Seq::empty());
        assert(device@.present_ready =~= Seq::empty());
        assert(device@.acquire_pending =~= seq![false, false]);
        assert(device@.slot_values =~= seq![0u64, 0u64]);
        device
    }

    /// The shared part of the device.
    pub fn state(&self) -> (r: &Rc<DeviceState>)
        ensures
            **r == self@.state,
    {
        &self.state
    }

    /// The acquired image and its slot.
    pub fn active(&self) -> (r: Option<(u32, usize)>)
        ensures
            r == self@.active,
            self@.valid(),
    {
        proof {
            use_type_invariant(self);
        }
        self.active
    }

    /// The size of the swapchain images.
    pub fn extent(&self) -> (r: U32x2)
        ensures
            r == self@.extent,
    {
        self.extent
    }

    /// The frames submitted so far.
    pub fn serial(&self) -> (r: u64)
        ensures
            r == self@.serial,
    {
        self.serial
    }

    /// The number of the latest acquisition or rebuild.
    pub fn generation(&self) -> (r: u64)
        ensures
            r == self@.generation,
    {
        self.generation
    }

    /// The number of swapchain images.
    pub fn image_total(&self) -> (r: usize)
        ensures
            r == self@.views.len(),
    {
        self.views.len()
    }

    /// The view of a swapchain image.
    pub fn image_view(&self, index: usize) -> (r: &Rc<RenderView>)
        requires
            index < self@.views.len(),
        ensures
            r@ == self@.views[index as int],
    {
        &self.views[index]
    }

    /// The semaphore that says that an image may be presented.
    pub fn present_semaphore(&self, index: usize) -> (r: u64)
        requires
            index < self@.present_ready.len(),
        ensures
            r == self@.present_ready[index as int],
    {
        self.present_ready[index]
    }

    /// The semaphore that says that the image of a slot has been acquired.
    pub fn acquire_semaphore(&self, slot: usize) -> (r: u64)
        requires
            slot < 2,
        ensures
            r == self@.acquire_ready[slot as int],
    {
        self.acquire_ready[slot]
    }

    /// Whether the fence of a slot has to be waited for.
    pub fn is_acquire_pending(&self, slot: usize) -> (r: bool)
        requires
            slot < 2,
        ensures
            r == self@.acquire_pending[slot as int],
    {
        self.acquire_pending[slot]
    }

    /// The timeline on which frames retire.
    pub fn retirement(&self) -> (r: u64)
        ensures
            r == self@.retirement,
    {
        self.retirement
    }
}

/// The enabled capabilities, not just hardware-advertised feature bits.
pub fn get_device_caps(device: &GpuDevice) -> (r: &DeviceCaps)
    ensures
        *r == device@.state.caps,
{
    &device.state.caps
}

// ---------------------------------------------------------------------------
// Drawable size
// ---------------------------------------------------------------------------

/// What a surface allows.
#[derive(Debug, Clone, Copy, PartialEq, Eq, Structural)]
pub struct SurfaceCaps {
    pub current_extent: U32x2,
    pub min_extent: U32x2,
    pub max_extent: U32x2,
    pub min_image_count: u32,
    /// Zero means no maximum.
    pub max_image_count: u32,
    /// Vulkan image usage bits.
    pub supported_usage: u32,
    /// Vulkan composite alpha bits.
    pub supported_alpha: u32,
}

/// The drawable size, or where to learn it.
#[derive(Debug, Clone, Copy, PartialEq, Eq, Structural)]
pub enum DrawableExtent {
    Known(U32x2),
    /// The surface has to be asked; the size of the window is given back.
    AskSurface(U32x2),
}

/// The drawable size in physical pixels, as far as the window tells it. Zero means
/// headless or minimized.
pub fn get_drawable_extent(window: Option<U32x2>) -> (r: DrawableExtent)
    ensures
        r == (match window {
            Some(size) if size.x != 0 && size.y != 0 => DrawableExtent::AskSurface(size),
            _ => DrawableExtent::Known(U32x2 { x: 0, y: 0 }),
        }),
{
    match window {
        Some(size) => if size.x == 0 || size.y == 0 {
            DrawableExtent::Known(U32x2 { x: 0, y: 0 })
        } else {
            DrawableExtent::AskSurface(size)
        },
        None => DrawableExtent::Known(U32x2 { x: 0, y: 0 }),
    }
}

/// The number nearest to `value` between two bounds.
pub open spec fn clamped(value: u32, low: u32, high: u32) -> u32 {
    if value < low {
        low
    } else if value > high {
        high
    } else {
        value
    }
}

fn clamp(value: u32, low: u32, high: u32) -> (r: u32)
    ensures
        r == clamped(value, low, high),
{
    if value < low {
        low
    } else if value > high {
        high
    } else {
        value
    }
}

/// The drawable size that a surface gives to a window. A surface without a size of
/// its own takes the window's, within its bounds.
pub fn surface_extent(window: U32x2, caps: &SurfaceCaps) -> (r: U32x2)
    requires
        caps.current_extent.x == u32::MAX ==> caps.min_extent.x <= caps.max_extent.x
            && caps.min_extent.y <= caps.max_extent.y,
    ensures
        r == (if caps.current_extent.x != u32::MAX {
            caps.current_extent
        } else {
            U32x2 {
                x: clamped(window.x, caps.min_extent.x, caps.max_extent.x),
                y: clamped(window.y, caps.min_extent.y, caps.max_extent.y),
            }
        }),
{
    if caps.current_extent.x != u32::MAX {
        return caps.current_extent;
    }
    U32x2 {
        x: clamp(window.x, caps.min_extent.x, caps.max_extent.x),
        y: clamp(window.y, caps.min_extent.y, caps.max_extent.y),
    }
}

// ---------------------------------------------------------------------------
// Rebuilding the swapchain
// ---------------------------------------------------------------------------

/// Whether the swapchain may be rebuilt: not while a frame is outstanding, and not
/// on a headless device.
pub open spec fn spec_may_rebuild(device: DeviceModel) -> Result<(), Problem> {
    if device.active is Some {
        error::refused("present the acquired frame before resizing")
    } else if !device.state.windowed {
        error::lacking("headless device has no swapchain"@)
    } else {
        Ok(())
    }
}

/// Checks that the swapchain may be rebuilt.
pub fn recreate_swapchain(device: &GpuDevice) -> (r: Result<(), GpuError>)
    ensures
        error::outcome(r) == spec_may_rebuild(device@),
{
    if device.active.is_some() {
        return Err(GpuError::InvalidArgument("present the acquired frame before resizing"));
    }
    if !device.state.windowed {
        return Err(unsupported("headless device has no swapchain"));
    }
    Ok(())
}

/// Takes in how the first swapchain of a new device was built. A minimized window has
/// no swapchain yet, which is no reason to fail.
pub fn accept_first_swapchain(result: Result<(), GpuError>) -> (r: Result<(), GpuError>)
    ensures
        error::outcome(r) == (if error::outcome(result) == Err::<(), Problem>(
            Problem::WindowMinimized,
        ) {
            Ok(())
        } else {
            error::outcome(result)
        }),
{
    match result {
        Ok(()) | Err(GpuError::WindowMinimized) => Ok(()),
        Err(error) => Err(error),
    }
}

/// A format and color space that a surface offers, in Vulkan numbers.
#[derive(Debug, Clone, Copy, PartialEq, Eq, Structural)]
pub struct SurfaceFormat {
    pub format: i32,
    pub color_space: i32,
}

/// A swapchain to create.
#[derive(Debug, Clone, Copy, PartialEq, Eq, Structural)]
pub struct SwapchainPlan {
    pub extent: U32x2,
    pub format: Format,
    /// The Vulkan number of the color space; zero is nonlinear sRGB.
    pub color_space: i32,
    pub image_count: u32,
    /// The Vulkan bit of the composite alpha mode.
    pub alpha: u32,
}

/// The format that a swapchain is asked for.
pub open spec fn requested_format(format: Format) -> Format {
    if format is Undefined {
        Format::Bgra8Srgb
    } else {
        format
    }
}

/// The surface offers the format in nonlinear sRGB, or leaves the format open.
pub open spec fn offers(formats: Seq<SurfaceFormat>, wanted: Format) -> bool {
    exists|i: int|
        0 <= i < formats.len() && ((#[trigger] formats[i]).format == wanted.spec_code()
            || formats[i].format == 0) && formats[i].color_space == 0
}

/// The composite alpha mode: opaque, else premultiplied, else postmultiplied, else
/// inherited, else opaque after all.
pub open spec fn composite_alpha(supported: u32) -> u32 {
    if supported & 1 == 1 {
        1
    } else if supported & 2 == 2 {
        2
    } else if supported & 4 == 4 {
        4
    } else if supported & 8 == 8 {
        8
    } else {
        1
    }
}

/// The number of images to ask for.
pub open spec fn image_count_of(wanted: u32, low: u32, high: u32) -> u32 {
    let enough = if wanted < low {
        low
    } else {
        wanted
    };
    if high > 0 && enough > high {
        high
    } else {
        enough
    }
}

/// The swapchain that a surface allows.
pub open spec fn spec_swapchain(
    device: DeviceModel,
    extent: U32x2,
    caps: SurfaceCaps,
    formats: Seq<SurfaceFormat>,
) -> Result<SwapchainPlan, Problem> {
    let format = requested_format(device.format);
    if !offers(formats, format) {
        error::lacking(
            "surface does not support "@ + format.spec_name()@ + " / SRGB_NONLINEAR"@,
        )
    } else if caps.supported_usage & 0x10 != 0x10 {
        error::lacking("swapchain color attachments"@)
    } else {
        Ok(
            SwapchainPlan {
                extent,
                format,
                color_space: 0,
                image_count: image_count_of(
                    device.image_count,
                    caps.min_image_count,
                    caps.max_image_count,
                ),
                alpha: composite_alpha(caps.supported_alpha),
            },
        )
    }
}

/// Refuses to rebuild for a minimized window.
pub fn check_extent(extent: U32x2) -> (r: Result<(), GpuError>)
    ensures
        error::outcome(r) == (if extent.x == 0 || extent.y == 0 {
            Err::<(), Problem>(Problem::WindowMinimized)
        } else {
            Ok(())
        }),
{
    if extent.x == 0 || extent.y == 0 {
        return Err(GpuError::WindowMinimized);
    }
    Ok(())
}

fn find_offer(formats: &Vec<SurfaceFormat>, wanted: Format) -> (r: bool)
    ensures
        r == offers(formats@, wanted),
{
    let code = wanted.code();
    let mut index: usize = 0;
    while index < formats.len()
        invariant
            index <= formats@.len(),
            code == wanted.spec_code(),
            forall|i: int|
                0 <= i < index ==> !(((#[trigger] formats@[i]).format == wanted.spec_code()
                    || formats@[i].format == 0) && formats@[i].color_space == 0),
        decreases formats@.len() - index,
    {
        if (formats[index].format == code || formats[index].format == 0)
            && formats[index].color_space == 0 {
            assert(offers(formats@, wanted));
            return true;
        }
        index = index + 1;
    }
    false
}

fn pick_alpha(supported: u32) -> (r: u32)
    ensures
        r == composite_alpha(supported),
{
    if supported & 1 == 1 {
        1
    } else if supported & 2 == 2 {
        2
    } else if supported & 4 == 4 {
        4
    } else if supported & 8 == 8 {
        8
    } else {
        1
    }
}

/// Plans a swapchain for what a surface allows.
pub fn plan_swapchain(
    device: &GpuDevice,
    extent: U32x2,
    caps: &SurfaceCaps,
    formats: &Vec<SurfaceFormat>,
) -> (r: Result<SwapchainPlan, GpuError>)
    ensures
        error::outcome(r) == spec_swapchain(device@, extent, *caps, formats@),
{
    let format = if device.format == Format::Undefined {
        Format::Bgra8Srgb
    } else {
        device.format
    };
    if !find_offer(formats, format) {
        let mut message = concat("surface does not support ", format.name());
        message.append(" / SRGB_NONLINEAR");
        return Err(GpuError::Unsupported(message));
    }
    if caps.supported_usage & 0x10 != 0x10 {
        return Err(unsupported("swapchain color attachments"));
    }
    let enough: u32 = if device.image_count < caps.min_image_count {
        caps.min_image_count
    } else {
        device.image_count
    };
    let image_count: u32 = if caps.max_image_count > 0 && enough > caps.max_image_count {
        caps.max_image_count
    } else {
        enough
    };
    Ok(
        SwapchainPlan {
            extent,
            format,
            color_space: 0,
            image_count,
            alpha: pick_alpha(caps.supported_alpha),
        },
    )
}

/// The description of a swapchain image.
pub fn image_desc(plan: &SwapchainPlan) -> (r: TextureDesc)
    ensures
        r == (TextureDesc {
            extent: U32x3 { x: plan.extent.x, y: plan.extent.y, z: 1 },
            format: plan.format,
            usage: TextureUsage::COLOR_ATTACHMENT(),
            ..TextureDesc::spec_default()
        }),
{
    TextureDesc {
        texture_type: TextureType::TwoD,
        extent: U32x3 { x: plan.extent.x, y: plan.extent.y, z: 1 },
        mip_levels: 1,
        layer_count: 1,
        format: plan.format,
        mutable_format: false,
        usage: TextureUsage::COLOR_ATTACHMENT(),
    }
}

/// The device while its swapchain is being rebuilt, or after a failed presentation.
pub open spec fn out_of_date(device: DeviceModel) -> DeviceModel {
    DeviceModel { present_failed: true, ..device }
}

/// The device with the images of a new swapchain.
pub open spec fn with_images(
    device: DeviceModel,
    plan: SwapchainPlan,
    views: Seq<ViewModel>,
) -> DeviceModel {
    DeviceModel {
        has_swapchain: true,
        views,
        present_ready: Seq::empty(),
        extent: plan.extent,
        format: plan.format,
        generation: device.generation.wrapping_add(1),
        ..device
    }
}

/// The device with one more semaphore for presentation.
pub open spec fn with_semaphore(device: DeviceModel, semaphore: u64) -> DeviceModel {
    DeviceModel { present_ready: device.present_ready.push(semaphore), ..device }
}

/// The device with a complete swapchain.
pub open spec fn completed(device: DeviceModel) -> DeviceModel {
    DeviceModel { present_failed: false, ..device }
}

/// Notes that the old swapchain is about to be retired. Creation retires it even
/// when it fails, so that a successful rebuild is needed before another acquisition.
pub fn retire_swapchain(device: &mut GpuDevice)
    ensures
        final(device)@ == out_of_date(old(device)@),
{
    proof {
        use_type_invariant(&*device);
    }
    device.present_failed = true;
    assert(device@.views =~= old(device)@.views);
}

/// Takes in the images of a new swapchain. Their semaphores are still to come.
pub fn install_swapchain(device: &mut GpuDevice, plan: &SwapchainPlan, views: Vec<Rc<RenderView>>)
    requires
        old(device)@.active is None,
    ensures
        final(device)@ == with_images(old(device)@, *plan, view_models(views@)),
{
    let none: Vec<u64> = Vec::new();
    device.present_ready = none;
    device.views = views;
    device.has_swapchain = true;
    device.extent = plan.extent;
    device.format = plan.format;
    device.generation = device.generation.wrapping_add(1);
    assert(device@.present_ready =~= Seq::empty());
}

/// Takes in the semaphore of the next swapchain image.
pub fn add_present_semaphore(device: &mut GpuDevice, semaphore: u64)
    requires
        old(device)@.active is None,
    ensures
        final(device)@ == with_semaphore(old(device)@, semaphore),
{
    let mut semaphores: Vec<u64> = Vec::new();
    std::mem::swap(&mut semaphores, &mut device.present_ready);
    semaphores.push(semaphore);
    device.present_ready = semaphores;
}

/// Notes that the swapchain is complete.
pub fn complete_swapchain(device: &mut GpuDevice)
    ensures
        final(device)@ == completed(old(device)@),
{
    proof {
        use_type_invariant(&*device);
    }
    device.present_failed = false;
    assert(device@.views =~= old(device)@.views);
}

// ---------------------------------------------------------------------------
// Acquiring frames
// ---------------------------------------------------------------------------

/// An acquired image. Present it before acquiring again.
pub struct SwapchainFrame {
    pub render_view: Rc<RenderView>,
    pub extent: U32x2,
    pub suboptimal: bool,
    image_index: u32,
    generation: u64,
}

/// A frame as a value.
pub struct FrameModel {
    pub view: ViewModel,
    pub extent: U32x2,
    pub suboptimal: bool,
    pub image_index: u32,
    pub generation: u64,
}

impl View for SwapchainFrame {
    type V = FrameModel;

    closed spec fn view(&self) -> FrameModel {
        FrameModel {
            view: self.render_view@,
            extent: self.extent,
            suboptimal: self.suboptimal,
            image_index: self.image_index,
            generation: self.generation,
        }
    }
}

impl SwapchainFrame {
    /// The number of the image.
    pub fn image_index(&self) -> (r: u32)
        ensures
            r == self@.image_index,
    {
        self.image_index
    }

    /// The acquisition that the frame came of.
    pub fn generation(&self) -> (r: u64)
        ensures
            r == self@.generation,
    {
        self.generation
    }

    /// Whether the image no longer fits the surface exactly.
    pub fn is_suboptimal(&self) -> (r: bool)
        ensures
            r == self@.suboptimal,
    {
        self.suboptimal
    }

    /// The number of the frame's view.
    pub fn view_id(&self) -> (r: u64)
        ensures
            r == self@.view.id,
    {
        self.render_view.id()
    }
}

/// Whether a frame may be acquired, before the window is asked for its size.
pub open spec fn spec_may_acquire(device: DeviceModel) -> Result<(), Problem> {
    if device.active is Some {
        error::refused("a frame is already acquired")
    } else if device.present_failed {
        Err(Problem::OutOfDate)
    } else {
        Ok(())
    }
}

/// Checks that a frame may be acquired. At most one may be outstanding.
pub fn acquire(device: &GpuDevice) -> (r: Result<(), GpuError>)
    ensures
        error::outcome(r) == spec_may_acquire(device@),
{
    if device.active.is_some() {
        return Err(GpuError::InvalidArgument("a frame is already acquired"));
    }
    if device.present_failed {
        return Err(GpuError::OutOfDate);
    }
    Ok(())
}

/// What to wait for before an image is acquired.
#[derive(Debug, Clone, Copy, PartialEq, Eq, Structural)]
pub struct AcquirePlan {
    pub slot: usize,
    /// The value that the retirement timeline must have reached.
    pub retirement_value: u64,
    /// The fence of the slot has to be waited for.
    pub wait_for_fence: bool,
}

/// What to wait for, given the drawable size.
pub open spec fn spec_acquire_plan(device: DeviceModel, extent: U32x2) -> Result<
    AcquirePlan,
    Problem,
> {
    if !device.state.windowed {
        error::lacking("headless device has no swapchain"@)
    } else if extent.x == 0 || extent.y == 0 {
        Err(Problem::WindowMinimized)
    } else if extent != device.extent || !device.has_swapchain || device.present_ready.len()
        != device.views.len() {
        Err(Problem::OutOfDate)
    } else {
        let slot = device.next_slot();
        Ok(
            AcquirePlan {
                slot: slot as usize,
                retirement_value: device.slot_values[slot],
                wait_for_fence: device.acquire_pending[slot],
            },
        )
    }
}

/// Plans an acquisition for the present drawable size.
pub fn plan_acquire(device: &GpuDevice, extent: U32x2) -> (r: Result<AcquirePlan, GpuError>)
    ensures
        error::outcome(r) == spec_acquire_plan(device@, extent),
        r matches Ok(plan) ==> plan.slot < 2,
{
    if !device.state.windowed {
        return Err(unsupported("headless device has no swapchain"));
    }
    if extent.x == 0 || extent.y == 0 {
        return Err(GpuError::WindowMinimized);
    }
    if extent != device.extent {
        return Err(GpuError::OutOfDate);
    }
    if !device.has_swapchain || device.present_ready.len() != device.views.len() {
        return Err(GpuError::OutOfDate);
    }
    let slot: usize = (device.serial % 2) as usize;
    Ok(
        AcquirePlan {
            slot,
            retirement_value: device.slot_values[slot],
            wait_for_fence: device.acquire_pending[slot],
        },
    )
}

/// The device once the fence of a slot has been reset.
pub open spec fn with_fence_reset(device: DeviceModel, slot: usize) -> DeviceModel {
    DeviceModel { acquire_pending: device.acquire_pending.update(slot as int, false), ..device }
}

/// The device once it has acquired an image.
pub open spec fn with_image(device: DeviceModel, slot: usize, index: u32) -> DeviceModel {
    DeviceModel {
        acquire_pending: device.acquire_pending.update(slot as int, true),
        active: Some((index, slot)),
        generation: device.generation.wrapping_add(1),
        ..device
    }
}

/// The device once the acquired frame has been submitted.
pub open spec fn with_submission(device: DeviceModel, slot: usize, serial: u64) -> DeviceModel {
    DeviceModel {
        serial,
        slot_values: device.slot_values.update(slot as int, serial),
        active: None,
        ..device
    }
}

/// Notes that the fence of a slot has been reset.
pub fn fence_reset(device: &mut GpuDevice, plan: &AcquirePlan)
    requires
        plan.slot < 2,
    ensures
        final(device)@ == with_fence_reset(old(device)@, plan.slot),
{
    proof {
        use_type_invariant(&*device);
    }
    device.acquire_pending[plan.slot] = false;
    assert(device@.views =~= old(device)@.views);
}

/// Takes in the image that the driver acquired.
pub fn image_acquired(
    device: &mut GpuDevice,
    plan: &AcquirePlan,
    index: u32,
    suboptimal: bool,
) -> (r: SwapchainFrame)
    requires
        plan.slot < 2,
        index < old(device)@.views.len(),
        old(device)@.present_ready.len() == old(device)@.views.len(),
    ensures
        final(device)@ == with_image(old(device)@, plan.slot, index),
        r@ == (FrameModel {
            view: old(device)@.views[index as int],
            extent: old(device)@.extent,
            suboptimal,
            image_index: index,
            generation: final(device)@.generation,
        }),
{
    proof {
        use_type_invariant(&*device);
    }
    device.acquire_pending[plan.slot] = true;
    device.active = Some((index, plan.slot));
    device.generation = device.generation.wrapping_add(1);
    SwapchainFrame {
        render_view: device.views[index as usize].clone(),
        extent: device.extent,
        suboptimal,
        image_index: index,
        generation: device.generation,
    }
}

/// Notes that the acquired frame has been submitted as frame `serial`.
pub fn frame_submitted(device: &mut GpuDevice, slot: usize, serial: u64)
    requires
        slot < 2,
    ensures
        final(device)@ == with_submission(old(device)@, slot, serial),
{
    proof {
        use_type_invariant(&*device);
    }
    device.active = None;
    device.serial = serial;
    device.slot_values[slot] = serial;
    assert(device@.views =~= old(device)@.views);
}

/// Notes that a frame could not be presented. Only a rebuilt swapchain helps.
pub fn present_failed(device: &mut GpuDevice)
    ensures
        final(device)@ == out_of_date(old(device)@),
{
    proof {
        use_type_invariant(&*device);
    }
    device.present_failed = true;
    assert(device@.views =~= old(device)@.views);
}

// ---------------------------------------------------------------------------
// Laws
// ---------------------------------------------------------------------------

/// The frame is the one that the device has acquired last and not yet submitted.
pub open spec fn frame_current(device: DeviceModel, frame: FrameModel) -> bool {
    device.active matches Some((index, _)) && index == frame.image_index && device.generation
        == frame.generation && frame.view.id == device.views[index as int].id
}

/// While a frame is outstanding nothing can be acquired and the swapchain cannot be
/// rebuilt; after a failed presentation nothing can be acquired.
pub proof fn one_frame_at_a_time(device: DeviceModel)
    ensures
        device.active is Some ==> spec_may_acquire(device) is Err && spec_may_rebuild(device) is Err,
        device.present_failed ==> spec_may_acquire(device) is Err,
{
}

/// The slots remember the last two frames: the next slot to be used was last used by
/// the frame before the last, and an acquired image is in that slot.
pub open spec fn in_step(device: DeviceModel) -> bool {
    let next = device.next_slot();
    &&& device.slot_values.len() == 2
    &&& device.slot_values[next] == (if device.serial == 0 {
        0
    } else {
        device.serial - 1
    })
    &&& device.slot_values[1 - next] == device.serial
    &&& device.active matches Some((_, slot)) ==> slot == next
}

/// Two frames can be in flight, and no more: acquiring an image waits until every
/// frame but the last has retired. Slots take turns, and no step of a frame's life
/// brings them out of step.
pub proof fn two_frames_are_in_flight(
    device: DeviceModel,
    extent: U32x2,
    plan: AcquirePlan,
    index: u32,
    serial: u64,
)
    requires
        in_step(device),
        device.active is None,
        spec_acquire_plan(device, extent) == Ok::<_, Problem>(plan),
        serial == device.serial + 1,
    ensures
        plan.retirement_value + 1 >= device.serial,
        ({
            let acquired = with_image(with_fence_reset(device, plan.slot), plan.slot, index);
            let submitted = with_submission(acquired, plan.slot, serial);
            &&& in_step(with_fence_reset(device, plan.slot))
            &&& in_step(acquired)
            &&& in_step(submitted)
            &&& submitted.next_slot() == 1 - plan.slot
        }),
{
}

/// A device starts in step.
pub proof fn new_devices_are_in_step(device: DeviceModel)
    requires
        device.serial == 0,
        device.slot_values == seq![0u64, 0u64],
        device.active is None,
    ensures
        in_step(device),
{
}

/// What can happen to a device.
pub enum DeviceStep {
    /// The swapchain is retired, or a presentation fails.
    OutOfDate,
    /// The images of a new swapchain come in.
    Rebuilt { plan: SwapchainPlan, views: Seq<ViewModel> },
    /// The semaphore of the next image comes in.
    SemaphoreAdded(u64),
    /// The new swapchain is complete.
    Completed,
    /// The fence of a slot has been waited for and reset.
    FenceReset(usize),
    /// An image has been acquired.
    Acquired { slot: usize, index: u32 },
    /// A frame has been submitted.
    Submitted { slot: usize, serial: u64 },
}

/// The device after a step.
pub open spec fn after_step(device: DeviceModel, step: DeviceStep) -> DeviceModel {
    match step {
        DeviceStep::OutOfDate => out_of_date(device),
        DeviceStep::Rebuilt { plan, views } => with_images(device, plan, views),
        DeviceStep::SemaphoreAdded(semaphore) => with_semaphore(device, semaphore),
        DeviceStep::Completed => completed(device),
        DeviceStep::FenceReset(slot) => with_fence_reset(device, slot),
        DeviceStep::Acquired { slot, index } => with_image(device, slot, index),
        DeviceStep::Submitted { slot, serial } => with_submission(device, slot, serial),
    }
}

/// The device after steps, taken in order.
pub open spec fn after_steps(device: DeviceModel, steps: Seq<DeviceStep>) -> DeviceModel
    decreases steps.len(),
{
    if steps.len() == 0 {
        device
    } else {
        after_step(after_steps(device, steps.drop_last()), steps.last())
    }
}

/// The acquisitions and rebuilds among steps: each takes the generation one up.
pub open spec fn generations(steps: Seq<DeviceStep>) -> nat
    decreases steps.len(),
{
    if steps.len() == 0 {
        0
    } else if steps.last() is Acquired || steps.last() is Rebuilt {
        generations(steps.drop_last()) + 1
    } else {
        generations(steps.drop_last())
    }
}

/// The frame has been overtaken: the device has no acquired image, or one of a later
/// generation.
pub open spec fn overtaken(device: DeviceModel, frame: FrameModel) -> bool {
    &&& frame.generation <= device.generation
    &&& device.active is Some ==> frame.generation < device.generation
}

/// A frame that has been overtaken is not current, and stays overtaken whatever
/// happens to the device, until the generation wraps around.
pub proof fn overtaken_frames_stay_overtaken(
    device: DeviceModel,
    frame: FrameModel,
    steps: Seq<DeviceStep>,
)
    requires
        overtaken(device, frame),
        device.generation + generations(steps) <= u64::MAX,
    ensures
        overtaken(after_steps(device, steps), frame),
        !frame_current(after_steps(device, steps), frame),
        after_steps(device, steps).generation == device.generation + generations(steps),
        after_steps(device, steps).state == device.state,
    decreases steps.len(),
{
    if steps.len() > 0 {
        overtaken_frames_stay_overtaken(device, frame, steps.drop_last());
    }
}

/// A step that the library takes: an image is acquired into the next slot while none
/// is outstanding, and the outstanding one is submitted under the next number.
pub open spec fn step_allowed(device: DeviceModel, step: DeviceStep) -> bool {
    match step {
        DeviceStep::Acquired { slot, .. } => device.active is None && slot == device.next_slot(),
        DeviceStep::Submitted { slot, serial } => device.active matches Some((_, acquired))
            && slot == acquired && serial == device.serial + 1,
        _ => true,
    }
}

/// Each of the steps is one that the library takes.
pub open spec fn steps_allowed(device: DeviceModel, steps: Seq<DeviceStep>) -> bool
    decreases steps.len(),
{
    steps.len() > 0 ==> steps_allowed(device, steps.drop_last()) && step_allowed(
        after_steps(device, steps.drop_last()),
        steps.last(),
    )
}

/// A device that is in step stays so over any number of frames and rebuilds.
pub proof fn devices_stay_in_step(device: DeviceModel, steps: Seq<DeviceStep>)
    requires
        in_step(device),
        steps_allowed(device, steps),
    ensures
        in_step(after_steps(device, steps)),
    decreases steps.len(),
{
    if steps.len() > 0 {
        devices_stay_in_step(device, steps.drop_last());
    }
}

/// A swapchain that was only half rebuilt is not acquired from: from the moment the
/// old one is retired until the new one is complete, and also should an image lack
/// its semaphore. The rebuilt swapchain has the size and the format that were planned.
pub proof fn half_built_swapchains_are_not_acquired_from(
    device: DeviceModel,
    plan: SwapchainPlan,
    views: Seq<ViewModel>,
    semaphore: u64,
    extent: U32x2,
)
    requires
        device.active is None,
    ensures
        ({
            let retired = out_of_date(device);
            let installed = with_images(retired, plan, views);
            let begun = with_semaphore(installed, semaphore);
            &&& spec_may_acquire(retired) == Err::<(), Problem>(Problem::OutOfDate)
            &&& spec_may_acquire(installed) == Err::<(), Problem>(Problem::OutOfDate)
            &&& spec_may_acquire(begun) == Err::<(), Problem>(Problem::OutOfDate)
            &&& spec_may_acquire(completed(begun)) is Ok
            &&& views.len() != 1 ==> spec_acquire_plan(completed(begun), extent) is Err
            &&& completed(begun).extent == plan.extent
            &&& completed(begun).format == plan.format
        }),
{
}

/// A swapchain is always asked for at least as many images as the surface needs,
/// and never for more than it allows.
pub proof fn image_counts_are_allowed(wanted: u32, low: u32, high: u32)
    requires
        high == 0 || low <= high,
    ensures
        image_count_of(wanted, low, high) >= low,
        high > 0 ==> image_count_of(wanted, low, high) <= high,
        wanted >= low && (high == 0 || wanted <= high) ==> image_count_of(wanted, low, high)
            == wanted,
{
}

/// A swapchain is planned in the format that the device was asked for, or the usual one if
/// it was asked for none, if the surface has it in nonlinear sRGB and can be drawn to.
pub proof fn swapchains_fit_their_surface(
    device: &GpuDevice,
    extent: U32x2,
    caps: &SurfaceCaps,
    formats: &Vec<SurfaceFormat>,
    r: Result<SwapchainPlan, GpuError>,
)
    requires
        call_ensures(plan_swapchain, (device, extent, caps, formats), r),
    ensures
        ({
            let wanted = if device@.format is Undefined {
                Format::Bgra8Srgb
            } else {
                device@.format
            };
            &&& r is Ok <==> caps.supported_usage & 0x10 != 0 && exists|i: int|
                0 <= i < formats@.len() && (#[trigger] formats@[i]).color_space == 0 && (
                formats@[i].format == 0 || formats@[i].format == wanted.spec_code())
            &&& r matches Ok(plan) ==> {
                &&& plan.extent == extent
                &&& plan.format == wanted
                &&& plan.color_space == 0
                &&& plan.image_count >= caps.min_image_count || plan.image_count
                    == caps.max_image_count
                &&& caps.max_image_count > 0 ==> plan.image_count <= caps.max_image_count
                &&& device@.image_count >= caps.min_image_count && (caps.max_image_count == 0
                    || device@.image_count <= caps.max_image_count) ==> plan.image_count
                    == device@.image_count
                &&& device@.image_count < caps.min_image_count && (caps.max_image_count == 0
                    || caps.min_image_count <= caps.max_image_count) ==> plan.image_count
                    == caps.min_image_count
            }
        }),
        r matches Ok(plan) ==> alpha_preferred(caps.supported_alpha, plan.alpha),
{
    let wanted = requested_format(device@.format);
    let supported = caps.supported_usage;
    assert(supported & 0x10 == 0x10 <==> supported & 0x10 != 0) by (bit_vector);
    composite_alpha_preferred(caps.supported_alpha);
    if offers(formats@, wanted) {
        let i = choose|i: int|
            0 <= i < formats@.len() && ((#[trigger] formats@[i]).format == wanted.spec_code()
                || formats@[i].format == 0) && formats@[i].color_space == 0;
        assert(formats@[i].color_space == 0);
    }
}

/// The mode is the lowest of the four that is supported: opaque, premultiplied,
/// postmultiplied or inherited. Where none is, it is opaque.
pub open spec fn alpha_preferred(supported: u32, alpha: u32) -> bool {
    &&& alpha == 1 || alpha == 2 || alpha == 4 || alpha == 8
    &&& supported & 0xf != 0 ==> supported & alpha != 0 && supported & ((alpha - 1) as u32) == 0
    &&& supported & 0xf == 0 ==> alpha == 1
}

proof fn composite_alpha_preferred(supported: u32)
    ensures
        alpha_preferred(supported, composite_alpha(supported)),
{
    assert(supported & 1 == 1 <==> supported & 1 != 0) by (bit_vector);
    assert(supported & 2 == 2 <==> supported & 2 != 0) by (bit_vector);
    assert(supported & 4 == 4 <==> supported & 4 != 0) by (bit_vector);
    assert(supported & 8 == 8 <==> supported & 8 != 0) by (bit_vector);
    assert(supported & 0xf != 0 <==> (supported & 1 != 0 || supported & 2 != 0 || supported & 4 != 0
        || supported & 8 != 0)) by (bit_vector);
    assert(supported & 0 == 0) by (bit_vector);
    assert(supported & 3 == 0 <==> (supported & 1 == 0 && supported & 2 == 0)) by (bit_vector);
    assert(supported & 7 == 0 <==> (supported & 1 == 0 && supported & 2 == 0 && supported & 4 == 0))
        by (bit_vector);
}

/// A surface with a size of its own decides the size of its images. Otherwise the window
/// does, as far as the bounds of the surface allow.
pub proof fn surfaces_decide_their_size(window: U32x2, caps: &SurfaceCaps, r: U32x2)
    requires
        call_ensures(surface_extent, (window, caps), r),
        caps.min_extent.x <= caps.max_extent.x,
        caps.min_extent.y <= caps.max_extent.y,
    ensures
        caps.current_extent.x != u32::MAX ==> r == caps.current_extent,
        caps.current_extent.x == u32::MAX ==> {
            &&& caps.min_extent.x <= r.x <= caps.max_extent.x
            &&& caps.min_extent.y <= r.y <= caps.max_extent.y
            &&& r.x < window.x ==> r.x == caps.max_extent.x
            &&& r.x > window.x ==> r.x == caps.min_extent.x
            &&& r.y < window.y ==> r.y == caps.max_extent.y
            &&& r.y > window.y ==> r.y == caps.min_extent.y
        },
{
}

/// A window without pixels, or none at all, has a drawable size of zero; any other asks its
/// surface, with its own size at hand.
pub proof fn windows_ask_their_surface(window: Option<U32x2>, r: DrawableExtent)
    requires
        call_ensures(get_drawable_extent, (window,), r),
    ensures
        window matches Some(size) && size.x > 0 && size.y > 0 ==> r == DrawableExtent::AskSurface(
            window->Some_0,
        ),
        window is None || window->Some_0.x == 0 || window->Some_0.y == 0 ==> r
            == DrawableExtent::Known(U32x2 { x: 0, y: 0 }),
{
}

/// A swapchain image is a single flat picture of the planned size and format, to be drawn to.
pub proof fn swapchain_images_are_flat(plan: &SwapchainPlan, r: TextureDesc)
    requires
        call_ensures(image_desc, (plan,), r),
    ensures
        r.extent.x == plan.extent.x,
        r.extent.y == plan.extent.y,
        r.extent.z == 1,
        r.format == plan.format,
        r.usage == TextureUsage::COLOR_ATTACHMENT(),
        r.mip_levels == 1,
        r.layer_count == 1,
        r.texture_type is TwoD,
{
}

/// Frames take turns on the two slots, by the parity of their number. The next waits for the
/// frame that used its slot before it, and for the fence of the slot if that is pending. It
/// needs a complete swapchain of the present size.
pub proof fn frames_take_turns(device: &GpuDevice, extent: U32x2, r: Result<AcquirePlan, GpuError>)
    requires
        call_ensures(plan_acquire, (device, extent), r),
    ensures
        r is Ok <==> {
            &&& device@.state.windowed
            &&& extent.x > 0 && extent.y > 0
            &&& extent.x == device@.extent.x && extent.y == device@.extent.y
            &&& device@.has_swapchain
            &&& device@.present_ready.len() == device@.views.len()
        },
        r matches Ok(plan) ==> {
            &&& plan.slot == device@.serial % 2
            &&& plan.retirement_value == device@.slot_values[plan.slot as int]
            &&& plan.wait_for_fence == device@.acquire_pending[plan.slot as int]
        },
        extent.x == 0 && device@.state.windowed ==> (r matches Err(error) && error@
            is WindowMinimized),
{
}

/// An image is acquired while none is outstanding and the last presentation went well. The
/// swapchain of a windowed device is rebuilt while no image is outstanding.
pub proof fn acquisitions_are_judged(device: DeviceModel)
    ensures
        spec_may_acquire(device) is Ok <==> device.active is None && !device.present_failed,
        spec_may_acquire(device) matches Err(problem) ==> (problem is OutOfDate
            <==> device.active is None),
        spec_may_rebuild(device) is Ok <==> device.active is None && device.state.windowed,
{
}

/// What everything else about a device is kept by a step that frames take.
pub open spec fn same_swapchain(a: DeviceModel, b: DeviceModel) -> bool {
    &&& a.state == b.state
    &&& a.has_swapchain == b.has_swapchain
    &&& a.views == b.views
    &&& a.present_ready == b.present_ready
    &&& a.extent == b.extent
    &&& a.format == b.format
    &&& a.image_count == b.image_count
    &&& a.acquire_ready == b.acquire_ready
    &&& a.retirement == b.retirement
}

/// What everything else about a device is kept by a step of a rebuild.
pub open spec fn same_frames(a: DeviceModel, b: DeviceModel) -> bool {
    &&& a.state == b.state
    &&& a.acquire_ready == b.acquire_ready
    &&& a.acquire_pending == b.acquire_pending
    &&& a.retirement == b.retirement
    &&& a.serial == b.serial
    &&& a.slot_values == b.slot_values
    &&& a.active == b.active
    &&& a.image_count == b.image_count
}

/// An acquired image is outstanding in its slot, whose fence becomes pending. A submission
/// sets the number of the last frame, also for its slot, and leaves no image outstanding.
/// Nothing else changes but the generation.
pub proof fn frame_steps_change_frames(
    device: DeviceModel,
    slot: usize,
    index: u32,
    serial: u64,
)
    requires
        slot < 2,
        device.slot_values.len() == 2,
        device.acquire_pending.len() == 2,
    ensures
        ({
            let other = 1 - slot;
            let reset = with_fence_reset(device, slot);
            let acquired = with_image(device, slot, index);
            let submitted = with_submission(device, slot, serial);
            &&& same_swapchain(reset, device) && same_swapchain(acquired, device)
                && same_swapchain(submitted, device)
            &&& !reset.acquire_pending[slot as int]
            &&& reset.acquire_pending[other] == device.acquire_pending[other]
            &&& reset.active == device.active && reset.serial == device.serial
            &&& reset.slot_values == device.slot_values && reset.generation == device.generation
            &&& acquired.active == Some((index, slot))
            &&& acquired.acquire_pending[slot as int]
            &&& acquired.acquire_pending[other] == device.acquire_pending[other]
            &&& acquired.serial == device.serial && acquired.slot_values == device.slot_values
            &&& submitted.active is None
            &&& submitted.serial == serial
            &&& submitted.slot_values[slot as int] == serial
            &&& submitted.slot_values[other] == device.slot_values[other]
            &&& submitted.acquire_pending == device.acquire_pending
            &&& submitted.generation == device.generation
            &&& reset.present_failed == device.present_failed && acquired.present_failed
                == device.present_failed && submitted.present_failed == device.present_failed
        }),
{
}

/// A rebuild replaces the images, in their order, with their size and format, and then gives
/// each a semaphore, in their order. It does not touch the frames in flight.
pub proof fn rebuilds_change_images(
    device: DeviceModel,
    plan: SwapchainPlan,
    views: Seq<ViewModel>,
    semaphore: u64,
)
    ensures
        ({
            let retired = out_of_date(device);
            let installed = with_images(device, plan, views);
            let added = with_semaphore(device, semaphore);
            let done = completed(device);
            &&& same_frames(retired, device) && same_frames(installed, device) && same_frames(
                added,
                device,
            ) && same_frames(done, device)
            &&& same_swapchain(retired, device) && same_swapchain(done, device)
            &&& retired.present_failed && !done.present_failed
            &&& installed.present_failed == device.present_failed
            &&& added.present_failed == device.present_failed
            &&& installed.has_swapchain
            &&& installed.views == views
            &&& installed.present_ready.len() == 0
            &&& installed.extent == plan.extent && installed.format == plan.format
            &&& added.present_ready.len() == device.present_ready.len() + 1
            &&& added.present_ready.last() == semaphore
            &&& added.present_ready.drop_last() == device.present_ready
            &&& added.views == device.views && added.extent == device.extent && added.format
                == device.format
            &&& retired.generation == device.generation && added.generation == device.generation
                && done.generation == device.generation
        }),
{
    assert(with_semaphore(device, semaphore).present_ready.drop_last() =~= device.present_ready);
}

/// A new device has no swapchain and no frame yet, and the semaphores it was given.
pub proof fn new_devices_have_no_frames(
    state: Rc<DeviceState>,
    desc: &DeviceDesc,
    acquire_ready: [u64; 2],
    retirement: u64,
    r: GpuDevice,
)
    requires
        call_ensures(GpuDevice::new, (state, desc, acquire_ready, retirement), r),
    ensures
        r@.state == *state,
        !r@.has_swapchain,
        r@.active is None,
        r@.serial == 0,
        r@.acquire_ready == acquire_ready@,
        r@.retirement == retirement,
        r@.format == desc.swapchain_format,
        r@.image_count == desc.desired_swapchain_image_count,
        !r@.acquire_pending[0] && !r@.acquire_pending[1],
        !r@.present_failed,
        in_step(r@),
{
}

} // verus!
