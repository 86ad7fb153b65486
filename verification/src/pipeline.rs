//! Graphics, mesh and compute pipelines.

use crate::command::BindPoint;
use crate::error;
use crate::error::{GpuError, Problem, unsupported};
use crate::float_bits::F32Bits;
use crate::format::{Format, TextureFormatInfo};
use crate::state::DeviceState;
use crate::text::concat;
use crate::texture;
use crate::texture::compare_number;
use crate::types::{
    BlendFactor, BlendOp, ColorTargetDesc, CullMode, DepthStencilState, RasterizationState,
    StencilFaceState, StencilOp,
};
use crate::vulkan;
use ash::vk;
use std::rc::Rc;
use vstd::prelude::*;

verus! {

/// Immutable pipeline using the device's common descriptor/push-constant layout.
pub struct PSO {
    pub state: Rc<DeviceState>,
    /// The driver's handle of the pipeline.
    pub raw: u64,
    pub bind_point: BindPoint,
    pub mesh: bool,
}

/// A triangle-list pipeline with no vertex bindings.
pub struct GraphicsPSODesc<'a> {
    pub vertex_spirv: &'a [u32],
    pub fragment_spirv: &'a [u32],
    pub color_targets: &'a [ColorTargetDesc],
    pub depth_format: Format,
    pub stencil_format: Format,
    pub rasterization: RasterizationState,
    pub depth_stencil: DepthStencilState,
}

impl<'a> Default for GraphicsPSODesc<'a> {
    fn default() -> (r: GraphicsPSODesc<'a>)
        ensures
            r.vertex_spirv@.len() == 0,
            r.fragment_spirv@.len() == 0,
            r.color_targets@.len() == 0,
            r.depth_format == Format::Undefined,
            r.stencil_format == Format::Undefined,
            r.rasterization == RasterizationState::spec_default(),
            r.depth_stencil == DepthStencilState::spec_default(),
    {
        GraphicsPSODesc {
            vertex_spirv: &[],
            fragment_spirv: &[],
            color_targets: &[],
            depth_format: Format::Undefined,
            stencil_format: Format::Undefined,
            rasterization: RasterizationState::default(),
            depth_stencil: DepthStencilState::default(),
        }
    }
}

/// A mesh and fragment pipeline.
pub struct MeshPSODesc<'a> {
    pub mesh_spirv: &'a [u32],
    pub fragment_spirv: &'a [u32],
    pub color_targets: &'a [ColorTargetDesc],
    pub depth_format: Format,
    pub stencil_format: Format,
    pub rasterization: RasterizationState,
    pub depth_stencil: DepthStencilState,
}

impl<'a> Default for MeshPSODesc<'a> {
    fn default() -> (r: MeshPSODesc<'a>)
        ensures
            r.mesh_spirv@.len() == 0,
            r.fragment_spirv@.len() == 0,
            r.color_targets@.len() == 0,
            r.depth_format == Format::Undefined,
            r.stencil_format == Format::Undefined,
            r.rasterization == RasterizationState::spec_default(),
            r.depth_stencil == DepthStencilState::spec_default(),
    {
        MeshPSODesc {
            mesh_spirv: &[],
            fragment_spirv: &[],
            color_targets: &[],
            depth_format: Format::Undefined,
            stencil_format: Format::Undefined,
            rasterization: RasterizationState::default(),
            depth_stencil: DepthStencilState::default(),
        }
    }
}

// ---------------------------------------------------------------------------
// Shader words
// ---------------------------------------------------------------------------

/// The words start with a SPIR-V header.
pub open spec fn spirv_header(words: Seq<u32>) -> bool {
    words.len() >= 5 && words[0] == 0x0723_0203
}

/// Whether words can be a shader.
pub open spec fn spec_validate_spirv(words: Seq<u32>) -> Result<(), Problem> {
    if spirv_header(words) {
        Ok(())
    } else {
        error::refused("expected little-endian SPIR-V words with a valid header")
    }
}

/// Checks the header of a shader.
pub fn validate_spirv(words: &[u32]) -> (r: Result<(), GpuError>)
    ensures
        error::outcome(r) == spec_validate_spirv(words@),
{
    if words.len() < 5 || words[0] != 0x0723_0203 {
        return Err(
            GpuError::InvalidArgument("expected little-endian SPIR-V words with a valid header"),
        );
    }
    Ok(())
}

/// The little-endian word with the given place among bytes.
pub open spec fn word_at(bytes: Seq<u8>, index: int) -> u32 {
    (bytes[index * 4] + bytes[index * 4 + 1] * 0x100 + bytes[index * 4 + 2] * 0x1_0000 + bytes[index
        * 4 + 3] * 0x100_0000) as u32
}

/// Reads the little-endian words of a shader file.
pub fn spirv_words(bytes: &[u8]) -> (r: Vec<u32>)
    requires
        bytes@.len() % 4 == 0,
    ensures
        r@ == Seq::new(bytes@.len() / 4, |index: int| word_at(bytes@, index)),
{
    let count: usize = bytes.len() / 4;
    let mut words: Vec<u32> = Vec::with_capacity(count);
    let mut index: usize = 0;
    while index < count
        invariant
            index <= count,
            count == bytes@.len() / 4,
            bytes@.len() <= usize::MAX,
            words@ == Seq::new(index as nat, |i: int| word_at(bytes@, i)),
        decreases count - index,
    {
        let at: usize = index * 4;
        words.push(
            bytes[at] as u32 + bytes[at + 1] as u32 * 0x100 + bytes[at + 2] as u32 * 0x1_0000
                + bytes[at + 3] as u32 * 0x100_0000,
        );
        index = index + 1;
        assert(words@ =~= Seq::new(index as nat, |i: int| word_at(bytes@, i)));
    }
    words
}

// ---------------------------------------------------------------------------
// Vulkan numbers
// ---------------------------------------------------------------------------

/// The Vulkan number of a blend factor.
pub open spec fn blend_factor_code(factor: BlendFactor) -> i32 {
    match factor {
        BlendFactor::Zero => 0,
        BlendFactor::One => 1,
        BlendFactor::SourceColor => 2,
        BlendFactor::OneMinusSourceColor => 3,
        BlendFactor::DestinationColor => 4,
        BlendFactor::OneMinusDestinationColor => 5,
        BlendFactor::SourceAlpha => 6,
        BlendFactor::OneMinusSourceAlpha => 7,
        BlendFactor::DestinationAlpha => 8,
        BlendFactor::OneMinusDestinationAlpha => 9,
        BlendFactor::SourceAlphaSaturate => 14,
    }
}

/// The Vulkan number of a blend factor.
pub fn blend_factor(factor: BlendFactor) -> (r: i32)
    ensures
        r == blend_factor_code(factor),
{
    match factor {
        BlendFactor::Zero => 0,
        BlendFactor::One => 1,
        BlendFactor::SourceColor => 2,
        BlendFactor::OneMinusSourceColor => 3,
        BlendFactor::DestinationColor => 4,
        BlendFactor::OneMinusDestinationColor => 5,
        BlendFactor::SourceAlpha => 6,
        BlendFactor::OneMinusSourceAlpha => 7,
        BlendFactor::DestinationAlpha => 8,
        BlendFactor::OneMinusDestinationAlpha => 9,
        BlendFactor::SourceAlphaSaturate => 14,
    }
}

/// The Vulkan number of a blend operation.
pub open spec fn blend_op_code(op: BlendOp) -> i32 {
    match op {
        BlendOp::Add => 0,
        BlendOp::Subtract => 1,
        BlendOp::ReverseSubtract => 2,
        BlendOp::Minimum => 3,
        BlendOp::Maximum => 4,
    }
}

fn blend_op(op: BlendOp) -> (r: i32)
    ensures
        r == blend_op_code(op),
{
    match op {
        BlendOp::Add => 0,
        BlendOp::Subtract => 1,
        BlendOp::ReverseSubtract => 2,
        BlendOp::Minimum => 3,
        BlendOp::Maximum => 4,
    }
}

/// The Vulkan number of a stencil operation.
pub open spec fn stencil_op_code(op: StencilOp) -> i32 {
    match op {
        StencilOp::Keep => 0,
        StencilOp::Zero => 1,
        StencilOp::Replace => 2,
        StencilOp::IncrementClamp => 3,
        StencilOp::DecrementClamp => 4,
        StencilOp::Invert => 5,
        StencilOp::IncrementWrap => 6,
        StencilOp::DecrementWrap => 7,
    }
}

fn stencil_op(op: StencilOp) -> (r: i32)
    ensures
        r == stencil_op_code(op),
{
    match op {
        StencilOp::Keep => 0,
        StencilOp::Zero => 1,
        StencilOp::Replace => 2,
        StencilOp::IncrementClamp => 3,
        StencilOp::DecrementClamp => 4,
        StencilOp::Invert => 5,
        StencilOp::IncrementWrap => 6,
        StencilOp::DecrementWrap => 7,
    }
}

// ---------------------------------------------------------------------------
// Raster pipelines
// ---------------------------------------------------------------------------

/// What the driver says of the format of a color target.
#[derive(Debug, Clone, Copy, PartialEq, Eq, Structural)]
pub struct TargetSupport {
    /// It can be rendered to.
    pub attachment: bool,
    /// It can be blended.
    pub blend: bool,
}

/// The blending of a color target, in Vulkan numbers.
#[derive(Debug, Clone, Copy, PartialEq, Eq, Structural)]
pub struct BlendPlan {
    pub enabled: bool,
    pub src_color: i32,
    pub dst_color: i32,
    pub color_op: i32,
    pub src_alpha: i32,
    pub dst_alpha: i32,
    pub alpha_op: i32,
    pub write_mask: u32,
}

/// The stencil state of a face, in Vulkan numbers.
#[derive(Debug, Clone, Copy, PartialEq, Eq, Structural)]
pub struct StencilFacePlan {
    pub fail_op: i32,
    pub pass_op: i32,
    pub depth_fail_op: i32,
    pub compare_op: i32,
    pub compare_mask: u32,
    pub write_mask: u32,
    pub reference: u32,
}

/// The fixed-function state of a pipeline, in Vulkan numbers.
#[derive(Debug, Clone, Copy, PartialEq, Eq, Structural)]
pub struct FixedState {
    pub cull_mode: u32,
    pub front_face: i32,
    pub depth_bias: bool,
    pub depth_bias_constant: F32Bits,
    pub depth_bias_slope: F32Bits,
    pub depth_test: bool,
    pub depth_write: bool,
    pub depth_compare: i32,
    pub stencil_test: bool,
    pub front: StencilFacePlan,
    pub back: StencilFacePlan,
}

/// A raster pipeline to create.
pub struct RasterPlan {
    /// The Vulkan stage bit of the first shader: vertex or mesh.
    pub first_stage: u32,
    pub has_fragment: bool,
    pub color_formats: Vec<vk::Format>,
    pub blends: Vec<BlendPlan>,
    pub depth_format: vk::Format,
    pub stencil_format: vk::Format,
    pub fixed: FixedState,
    pub mesh: bool,
}

/// A raster pipeline to create, as a value: formats are Vulkan numbers.
#[verifier::ext_equal]
pub struct RasterModel {
    pub first_stage: u32,
    pub has_fragment: bool,
    pub color_formats: Seq<i32>,
    pub blends: Seq<BlendPlan>,
    pub depth_format: i32,
    pub stencil_format: i32,
    pub fixed: FixedState,
    pub mesh: bool,
}

/// The Vulkan numbers of formats, in order.
pub open spec fn format_codes(formats: Seq<vk::Format>) -> Seq<i32> {
    Seq::new(formats.len(), |i: int| vulkan::vk_format_code(formats[i]))
}

impl View for RasterPlan {
    type V = RasterModel;

    open spec fn view(&self) -> RasterModel {
        RasterModel {
            first_stage: self.first_stage,
            has_fragment: self.has_fragment,
            color_formats: format_codes(self.color_formats@),
            blends: self.blends@,
            depth_format: vulkan::vk_format_code(self.depth_format),
            stencil_format: vulkan::vk_format_code(self.stencil_format),
            fixed: self.fixed,
            mesh: self.mesh,
        }
    }
}

/// The blending of a target.
pub open spec fn blend_of(target: ColorTargetDesc) -> BlendPlan {
    BlendPlan {
        enabled: target.blend.enabled,
        src_color: blend_factor_code(target.blend.color.source),
        dst_color: blend_factor_code(target.blend.color.destination),
        color_op: blend_op_code(target.blend.color.operation),
        src_alpha: blend_factor_code(target.blend.alpha.source),
        dst_alpha: blend_factor_code(target.blend.alpha.destination),
        alpha_op: blend_op_code(target.blend.alpha.operation),
        write_mask: target.write_mask as u32,
    }
}

/// Whether a target can be used. One without a format never can, whatever the driver
/// says.
pub open spec fn spec_target(target: ColorTargetDesc, support: TargetSupport) -> Result<
    (),
    Problem,
> {
    if target.format is Undefined || !support.attachment {
        error::lacking("color attachment format "@ + target.format.spec_name()@)
    } else if target.write_mask > 0xf {
        error::refused("color write_mask has bits outside RGBA")
    } else if target.blend.enabled && !support.blend {
        error::lacking("blending for "@ + target.format.spec_name()@)
    } else {
        Ok(())
    }
}

/// The first target among `count` that cannot be used decides the error.
pub open spec fn targets_upto(
    targets: Seq<ColorTargetDesc>,
    supports: Seq<TargetSupport>,
    count: nat,
) -> Result<(), Problem>
    decreases count,
{
    if count == 0 {
        Ok(())
    } else {
        match targets_upto(targets, supports, (count - 1) as nat) {
            Err(problem) => Err(problem),
            Ok(_) => spec_target(targets[count - 1], supports[count - 1]),
        }
    }
}

/// Whether a depth or stencil format, if there is one, can be used.
pub open spec fn spec_depth_format(format: Format, has_part: bool, supported: bool) -> Result<
    (),
    Problem,
> {
    if format is Undefined {
        Ok(())
    } else if !has_part {
        error::refused("invalid depth/stencil format")
    } else if !supported {
        error::lacking("depth/stencil format "@ + format.spec_name()@)
    } else {
        Ok(())
    }
}

/// The stencil state of a face.
pub open spec fn face_of(face: StencilFaceState, depth: DepthStencilState) -> StencilFacePlan {
    StencilFacePlan {
        fail_op: stencil_op_code(face.fail),
        pass_op: stencil_op_code(face.pass),
        depth_fail_op: stencil_op_code(face.depth_fail),
        compare_op: texture::compare_code(face.compare),
        compare_mask: depth.stencil_read_mask as u32,
        write_mask: depth.stencil_write_mask as u32,
        reference: face.reference as u32,
    }
}

/// The fixed-function state of a pipeline. Culling removes back faces; the mode says
/// which winding is the back.
pub open spec fn fixed_of(raster: RasterizationState, depth: DepthStencilState) -> FixedState {
    FixedState {
        cull_mode: if raster.cull is Disabled {
            0
        } else {
            2
        },
        front_face: if raster.cull is CounterClockwise {
            1
        } else {
            0
        },
        depth_bias: raster.depth_bias_constant.order() != 0 || raster.depth_bias_slope.order() != 0,
        depth_bias_constant: raster.depth_bias_constant,
        depth_bias_slope: raster.depth_bias_slope,
        depth_test: depth.depth_test,
        depth_write: depth.depth_write,
        depth_compare: texture::compare_code(depth.depth_compare),
        stencil_test: depth.stencil_test,
        front: face_of(depth.front, depth),
        back: face_of(depth.back, depth),
    }
}

/// What the driver says of all formats of a pipeline.
pub struct FormatSupport {
    pub targets: Vec<TargetSupport>,
    /// The depth format can be a depth/stencil attachment.
    pub depth: bool,
    /// The stencil format can be a depth/stencil attachment.
    pub stencil: bool,
}

/// Whether the state of a raster pipeline is in order, before formats are looked at.
pub open spec fn spec_raster_state(
    state: DeviceState,
    first: Seq<u32>,
    fragment: Seq<u32>,
    target_count: nat,
    formats: (Format, Format),
    raster: RasterizationState,
    depth: DepthStencilState,
) -> Result<(), Problem> {
    if !spirv_header(first) || (fragment.len() > 0 && !spirv_header(fragment)) {
        error::refused("expected little-endian SPIR-V words with a valid header")
    } else if target_count > state.caps.max_color_attachments {
        error::lacking("too many color attachments"@)
    } else if raster.depth_bias_clamp.order() != 0 {
        error::lacking("depthBiasClamp is not enabled"@)
    } else if depth.depth_test && formats.0 is Undefined || depth.stencil_test
        && formats.1 is Undefined {
        error::refused("depth/stencil test requires a corresponding attachment format")
    } else {
        Ok(())
    }
}

/// Whether the formats of a raster pipeline can be used.
pub open spec fn spec_raster_formats(
    targets: Seq<ColorTargetDesc>,
    formats: (Format, Format),
    support: FormatSupport,
) -> Result<(), Problem> {
    match targets_upto(targets, support.targets@, targets.len()) {
        Err(problem) => Err(problem),
        Ok(_) => match spec_depth_format(formats.0, formats.0.has_depth(), support.depth) {
            Err(problem) => Err(problem),
            Ok(_) => match spec_depth_format(
                formats.1,
                formats.1.has_stencil(),
                support.stencil,
            ) {
                Err(problem) => Err(problem),
                Ok(_) => if !(formats.0 is Undefined) && !(formats.1 is Undefined) && formats.0
                    != formats.1 {
                    error::refused(
                        "depth and stencil must use the same format when both are present",
                    )
                } else {
                    Ok(())
                },
            },
        },
    }
}

/// The raster pipeline that a description asks for.
pub open spec fn spec_raster_pipeline(
    state: DeviceState,
    first: Seq<u32>,
    fragment: Seq<u32>,
    targets: Seq<ColorTargetDesc>,
    formats: (Format, Format),
    raster: RasterizationState,
    depth: DepthStencilState,
    support: FormatSupport,
    mesh: bool,
) -> Result<RasterModel, Problem> {
    match spec_raster_state(state, first, fragment, targets.len(), formats, raster, depth) {
        Err(problem) => Err(problem),
        Ok(_) => match spec_raster_formats(targets, formats, support) {
            Err(problem) => Err(problem),
            Ok(_) => Ok(
                RasterModel {
                    first_stage: if mesh {
                        0x80
                    } else {
                        0x01
                    },
                    has_fragment: fragment.len() > 0,
                    color_formats: targets.map_values(
                        |target: ColorTargetDesc| target.format.spec_code(),
                    ),
                    blends: targets.map_values(|target: ColorTargetDesc| blend_of(target)),
                    depth_format: formats.0.spec_code(),
                    stencil_format: formats.1.spec_code(),
                    fixed: fixed_of(raster, depth),
                    mesh,
                },
            ),
        },
    }
}

fn plan_blend(target: &ColorTargetDesc) -> (r: BlendPlan)
    ensures
        r == blend_of(*target),
{
    BlendPlan {
        enabled: target.blend.enabled,
        src_color: blend_factor(target.blend.color.source),
        dst_color: blend_factor(target.blend.color.destination),
        color_op: blend_op(target.blend.color.operation),
        src_alpha: blend_factor(target.blend.alpha.source),
        dst_alpha: blend_factor(target.blend.alpha.destination),
        alpha_op: blend_op(target.blend.alpha.operation),
        write_mask: target.write_mask as u32,
    }
}

fn plan_face(face: &StencilFaceState, depth: &DepthStencilState) -> (r: StencilFacePlan)
    ensures
        r == face_of(*face, *depth),
{
    StencilFacePlan {
        fail_op: stencil_op(face.fail),
        pass_op: stencil_op(face.pass),
        depth_fail_op: stencil_op(face.depth_fail),
        compare_op: compare_number(face.compare),
        compare_mask: depth.stencil_read_mask as u32,
        write_mask: depth.stencil_write_mask as u32,
        reference: face.reference as u32,
    }
}

fn plan_fixed(raster: &RasterizationState, depth: &DepthStencilState) -> (r: FixedState)
    ensures
        r == fixed_of(*raster, *depth),
{
    let (cull_mode, front_face): (u32, i32) = match raster.cull {
        CullMode::Disabled => (0, 0),
        CullMode::Clockwise => (2, 0),
        CullMode::CounterClockwise => (2, 1),
    };
    FixedState {
        cull_mode,
        front_face,
        depth_bias: !raster.depth_bias_constant.is_zero() || !raster.depth_bias_slope.is_zero(),
        depth_bias_constant: raster.depth_bias_constant,
        depth_bias_slope: raster.depth_bias_slope,
        depth_test: depth.depth_test,
        depth_write: depth.depth_write,
        depth_compare: compare_number(depth.depth_compare),
        stencil_test: depth.stencil_test,
        front: plan_face(&depth.front, depth),
        back: plan_face(&depth.back, depth),
    }
}

fn check_target(target: &ColorTargetDesc, support: TargetSupport) -> (r: Result<(), GpuError>)
    ensures
        error::outcome(r) == spec_target(*target, support),
{
    if target.format == Format::Undefined || !support.attachment {
        return Err(GpuError::Unsupported(concat("color attachment format ", target.format.name())));
    }
    if target.write_mask > 0xf {
        return Err(GpuError::InvalidArgument("color write_mask has bits outside RGBA"));
    }
    if target.blend.enabled && !support.blend {
        return Err(GpuError::Unsupported(concat("blending for ", target.format.name())));
    }
    Ok(())
}

proof fn targets_error_stays(
    targets: Seq<ColorTargetDesc>,
    supports: Seq<TargetSupport>,
    shorter: nat,
    longer: nat,
)
    requires
        shorter <= longer,
        targets_upto(targets, supports, shorter) is Err,
    ensures
        targets_upto(targets, supports, longer) == targets_upto(targets, supports, shorter),
    decreases longer,
{
    if shorter < longer {
        targets_error_stays(targets, supports, shorter, (longer - 1) as nat);
    }
}

fn check_targets(targets: &[ColorTargetDesc], supports: &Vec<TargetSupport>) -> (r: Result<
    (),
    GpuError,
>)
    requires
        supports@.len() == targets@.len(),
    ensures
        error::outcome(r) == targets_upto(targets@, supports@, targets@.len()),
{
    let mut index: usize = 0;
    while index < targets.len()
        invariant
            index <= targets@.len(),
            supports@.len() == targets@.len(),
            targets_upto(targets@, supports@, index as nat) is Ok,
        decreases targets@.len() - index,
    {
        proof {
            if targets_upto(targets@, supports@, index as nat + 1) is Err {
                targets_error_stays(targets@, supports@, index as nat + 1, targets@.len());
            }
        }
        check_target(&targets[index], supports[index])?;
        index = index + 1;
    }
    Ok(())
}

fn check_depth_format(format: Format, has_part: bool, supported: bool) -> (r: Result<(), GpuError>)
    ensures
        error::outcome(r) == spec_depth_format(format, has_part, supported),
{
    if format == Format::Undefined {
        return Ok(());
    }
    if !has_part {
        return Err(GpuError::InvalidArgument("invalid depth/stencil format"));
    }
    if !supported {
        return Err(GpuError::Unsupported(concat("depth/stencil format ", format.name())));
    }
    Ok(())
}

fn check_raster_state(
    state: &DeviceState,
    first: &[u32],
    fragment: &[u32],
    target_count: usize,
    formats: (Format, Format),
    raster: &RasterizationState,
    depth: &DepthStencilState,
) -> (r: Result<(), GpuError>)
    ensures
        error::outcome(r) == spec_raster_state(
            *state,
            first@,
            fragment@,
            target_count as nat,
            formats,
            *raster,
            *depth,
        ),
{
    validate_spirv(first)?;
    if fragment.len() > 0 {
        validate_spirv(fragment)?;
    }
    if target_count > state.caps.max_color_attachments as usize {
        return Err(unsupported("too many color attachments"));
    }
    if !raster.depth_bias_clamp.is_zero() {
        return Err(unsupported("depthBiasClamp is not enabled"));
    }
    if depth.depth_test && formats.0 == Format::Undefined || depth.stencil_test && formats.1
        == Format::Undefined {
        return Err(
            GpuError::InvalidArgument(
                "depth/stencil test requires a corresponding attachment format",
            ),
        );
    }
    Ok(())
}

fn check_raster_formats(
    targets: &[ColorTargetDesc],
    formats: (Format, Format),
    support: &FormatSupport,
) -> (r: Result<(), GpuError>)
    requires
        support.targets@.len() == targets@.len(),
    ensures
        error::outcome(r) == spec_raster_formats(targets@, formats, *support),
{
    check_targets(targets, &support.targets)?;
    let depth_info = TextureFormatInfo::get_texture_format_info(formats.0);
    let stencil_info = TextureFormatInfo::get_texture_format_info(formats.1);
    check_depth_format(formats.0, depth_info.depth, support.depth)?;
    check_depth_format(formats.1, stencil_info.stencil, support.stencil)?;
    if formats.0 != Format::Undefined && formats.1 != Format::Undefined && formats.0 != formats.1 {
        return Err(
            GpuError::InvalidArgument(
                "depth and stencil must use the same format when both are present",
            ),
        );
    }
    Ok(())
}

/// Graphics and mesh pipelines differ only in the first shader and vertex input.
#[allow(clippy::too_many_arguments)]
fn create_raster_pipeline(
    state: &DeviceState,
    first: &[u32],
    fragment: &[u32],
    targets: &[ColorTargetDesc],
    formats: (Format, Format),
    raster: &RasterizationState,
    depth: &DepthStencilState,
    support: &FormatSupport,
    mesh: bool,
) -> (r: Result<RasterPlan, GpuError>)
    requires
        support.targets@.len() == targets@.len(),
    ensures
        match (
            r,
            spec_raster_pipeline(
                *state,
                first@,
                fragment@,
                targets@,
                formats,
                *raster,
                *depth,
                *support,
                mesh,
            ),
        ) {
            (Ok(plan), Ok(expected)) => plan@ == expected,
            (Err(error), Err(problem)) => error@ == problem,
            _ => false,
        },
{
    check_raster_state(state, first, fragment, targets.len(), formats, raster, depth)?;
    check_raster_formats(targets, formats, support)?;
    let ghost all_formats = targets@.map_values(
        |target: ColorTargetDesc| target.format.spec_code(),
    );
    let ghost all_blends = targets@.map_values(|target: ColorTargetDesc| blend_of(target));
    let mut color_formats: Vec<vk::Format> = Vec::new();
    let mut blends: Vec<BlendPlan> = Vec::new();
    let mut index: usize = 0;
    assert(format_codes(color_formats@) =~= all_formats.take(0));
    assert(blends@ =~= all_blends.take(0));
    while index < targets.len()
        invariant
            index <= targets@.len(),
            all_formats == targets@.map_values(
                |target: ColorTargetDesc| target.format.spec_code(),
            ),
            all_blends == targets@.map_values(|target: ColorTargetDesc| blend_of(target)),
            format_codes(color_formats@) == all_formats.take(index as int),
            blends@ == all_blends.take(index as int),
        decreases targets@.len() - index,
    {
        let ghost before = color_formats@;
        color_formats.push(vk::Format::from(targets[index].format));
        blends.push(plan_blend(&targets[index]));
        assert(format_codes(color_formats@) =~= format_codes(before).push(
            targets@[index as int].format.spec_code(),
        ));
        index = index + 1;
        assert(format_codes(color_formats@) =~= all_formats.take(index as int));
        assert(blends@ =~= all_blends.take(index as int));
    }
    assert(all_formats.take(index as int) =~= all_formats);
    assert(all_blends.take(index as int) =~= all_blends);
    let first_stage: u32 = if mesh {
        0x80
    } else {
        0x01
    };
    Ok(
        RasterPlan {
            first_stage,
            has_fragment: fragment.len() > 0,
            color_formats,
            blends,
            depth_format: vk::Format::from(formats.0),
            stencil_format: vk::Format::from(formats.1),
            fixed: plan_fixed(raster, depth),
            mesh,
        },
    )
}

/// Plans a triangle-list pipeline with no vertex bindings: vertices are fetched by
/// device address.
pub fn create_graphics_pso(
    state: &DeviceState,
    desc: &GraphicsPSODesc<'_>,
    support: &FormatSupport,
) -> (r: Result<RasterPlan, GpuError>)
    requires
        support.targets@.len() == desc.color_targets@.len(),
    ensures
        match (
            r,
            spec_raster_pipeline(
                *state,
                desc.vertex_spirv@,
                desc.fragment_spirv@,
                desc.color_targets@,
                (desc.depth_format, desc.stencil_format),
                desc.rasterization,
                desc.depth_stencil,
                *support,
                false,
            ),
        ) {
            (Ok(plan), Ok(expected)) => plan@ == expected,
            (Err(error), Err(problem)) => error@ == problem,
            _ => false,
        },
{
    create_raster_pipeline(
        state,
        desc.vertex_spirv,
        desc.fragment_spirv,
        desc.color_targets,
        (desc.depth_format, desc.stencil_format),
        &desc.rasterization,
        &desc.depth_stencil,
        support,
        false,
    )
}

/// The mesh pipeline that a description asks for.
pub open spec fn spec_mesh_pipeline(
    state: DeviceState,
    desc: MeshPSODesc<'_>,
    support: FormatSupport,
) -> Result<RasterModel, Problem> {
    if !state.caps.mesh_shader {
        error::lacking(state.caps.device_name@ + ": VK_EXT_mesh_shader / meshShader"@)
    } else {
        spec_raster_pipeline(
            state,
            desc.mesh_spirv@,
            desc.fragment_spirv@,
            desc.color_targets@,
            (desc.depth_format, desc.stencil_format),
            desc.rasterization,
            desc.depth_stencil,
            support,
            true,
        )
    }
}

/// Plans a mesh and fragment pipeline.
pub fn create_mesh_pso(state: &DeviceState, desc: &MeshPSODesc<'_>, support: &FormatSupport) -> (r:
    Result<RasterPlan, GpuError>)
    requires
        support.targets@.len() == desc.color_targets@.len(),
    ensures
        match (r, spec_mesh_pipeline(*state, *desc, *support)) {
            (Ok(plan), Ok(expected)) => plan@ == expected,
            (Err(error), Err(problem)) => error@ == problem,
            _ => false,
        },
{
    if !state.caps.mesh_shader {
        return Err(
            GpuError::Unsupported(
                concat(state.caps.device_name.as_str(), ": VK_EXT_mesh_shader / meshShader"),
            ),
        );
    }
    create_raster_pipeline(
        state,
        desc.mesh_spirv,
        desc.fragment_spirv,
        desc.color_targets,
        (desc.depth_format, desc.stencil_format),
        &desc.rasterization,
        &desc.depth_stencil,
        support,
        true,
    )
}

/// Checks a compute shader before a pipeline is made of it.
pub fn create_compute_pso(spirv: &[u32]) -> (r: Result<(), GpuError>)
    ensures
        error::outcome(r) == spec_validate_spirv(spirv@),
{
    validate_spirv(spirv)
}

/// Why a pipeline was not created, and what is left to destroy.
pub struct PipelineFailure {
    pub destroy: Vec<u64>,
    pub error: GpuError,
}

/// Takes in the pipelines that the driver created. After a failure, those that came
/// along with it are to be destroyed.
pub fn finish_pipeline(
    state: Rc<DeviceState>,
    reply: Result<Vec<u64>, (Vec<u64>, vk::Result)>,
    bind_point: BindPoint,
    mesh: bool,
) -> (r: Result<PSO, PipelineFailure>)
    requires
        reply matches Ok(pipelines) ==> pipelines@.len() > 0,
    ensures
        match reply {
            Ok(pipelines) => r matches Ok(pso) && pso == (PSO {
                state,
                raw: pipelines@[0],
                bind_point,
                mesh,
            }),
            Err((pipelines, result)) => r matches Err(failure) && failure.destroy == pipelines
                && failure.error@ == error::problem_of(result),
        },
{
    match reply {
        Ok(pipelines) => Ok(PSO { state, raw: pipelines[0], bind_point, mesh }),
        Err((destroy, result)) => Err(PipelineFailure { destroy, error: GpuError::from(result) }),
    }
}

} // verus!
