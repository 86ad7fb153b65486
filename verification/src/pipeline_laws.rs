//! What pipelines are made of.

use crate::command::BindPoint;
use crate::error;
use crate::error::GpuError;
use crate::format::Format;
use crate::pipeline;
use crate::pipeline::{
    BlendPlan, FixedState, FormatSupport, GraphicsPSODesc, MeshPSODesc, PSO, PipelineFailure,
    RasterModel, RasterPlan, StencilFacePlan, TargetSupport,
};
use crate::state::DeviceState;
use crate::texture;
use crate::types::{
    BlendFactor, BlendOp, ColorTargetDesc, CullMode, DepthStencilState, RasterizationState,
    StencilFaceState, StencilOp,
};
use crate::vulkan;
use ash::vk;
use std::rc::Rc;
use vstd::prelude::*;

verus! {

// ---------------------------------------------------------------------------
// Vulkan numbers
// ---------------------------------------------------------------------------

/// Vulkan numbers blend factors in pairs: behind each factor stands one minus it.
pub proof fn blend_factors_have_their_numbers(factor: BlendFactor)
    ensures
        ({
            let number = pipeline::blend_factor_code(factor);
            &&& factor is Zero ==> number == 0
            &&& factor is One ==> number == 1
            &&& factor is SourceColor ==> number == 2
            &&& factor is OneMinusSourceColor ==> number == 3
            &&& factor is DestinationColor ==> number == 4
            &&& factor is OneMinusDestinationColor ==> number == 5
            &&& factor is SourceAlpha ==> number == 6
            &&& factor is OneMinusSourceAlpha ==> number == 7
            &&& factor is DestinationAlpha ==> number == 8
            &&& factor is OneMinusDestinationAlpha ==> number == 9
            &&& factor is SourceAlphaSaturate ==> number == 14
        }),
{
}

/// Vulkan's numbers of blend and stencil operations.
pub proof fn operations_have_their_numbers(blend: BlendOp, stencil: StencilOp)
    ensures
        blend is Add ==> pipeline::blend_op_code(blend) == 0,
        blend is Subtract ==> pipeline::blend_op_code(blend) == 1,
        blend is ReverseSubtract ==> pipeline::blend_op_code(blend) == 2,
        blend is Minimum ==> pipeline::blend_op_code(blend) == 3,
        blend is Maximum ==> pipeline::blend_op_code(blend) == 4,
        stencil is Keep ==> pipeline::stencil_op_code(stencil) == 0,
        stencil is Zero ==> pipeline::stencil_op_code(stencil) == 1,
        stencil is Replace ==> pipeline::stencil_op_code(stencil) == 2,
        stencil is IncrementClamp ==> pipeline::stencil_op_code(stencil) == 3,
        stencil is DecrementClamp ==> pipeline::stencil_op_code(stencil) == 4,
        stencil is Invert ==> pipeline::stencil_op_code(stencil) == 5,
        stencil is IncrementWrap ==> pipeline::stencil_op_code(stencil) == 6,
        stencil is DecrementWrap ==> pipeline::stencil_op_code(stencil) == 7,
{
}

// ---------------------------------------------------------------------------
// Shader words
// ---------------------------------------------------------------------------

/// The words of a shader file are its bytes, four to a word, the lowest first: each byte is
/// found again in its place.
pub proof fn shader_words_hold_their_bytes(bytes: &[u8], words: Vec<u32>, index: int)
    requires
        bytes@.len() % 4 == 0,
        call_ensures(pipeline::spirv_words, (bytes,), words),
        0 <= index < words@.len(),
    ensures
        4 * words@.len() == bytes@.len(),
        words@[index] % 0x100 == bytes@[4 * index],
        words@[index] / 0x100 % 0x100 == bytes@[4 * index + 1],
        words@[index] / 0x1_0000 % 0x100 == bytes@[4 * index + 2],
        words@[index] / 0x100_0000 == bytes@[4 * index + 3],
{
    let low = bytes@[4 * index] as int;
    let second = bytes@[4 * index + 1] as int;
    let third = bytes@[4 * index + 2] as int;
    let high = bytes@[4 * index + 3] as int;
    assert(index * 4 == 4 * index);
    assert(words@[index] == low + second * 0x100 + third * 0x1_0000 + high * 0x100_0000);
}

/// A shader is accepted exactly if it has a header of five words that starts with the magic
/// number.
pub proof fn shaders_are_judged(words: &[u32], r: Result<(), GpuError>)
    requires
        call_ensures(pipeline::validate_spirv, (words,), r),
    ensures
        r is Ok <==> words@.len() >= 5 && words@[0] == 0x0723_0203,
{
}

/// A compute shader is judged as any other.
pub proof fn compute_shaders_are_judged(words: &[u32], r: Result<(), GpuError>)
    requires
        call_ensures(pipeline::create_compute_pso, (words,), r),
    ensures
        r is Ok <==> words@.len() >= 5 && words@[0] == 0x0723_0203,
{
}

// ---------------------------------------------------------------------------
// Raster pipelines
// ---------------------------------------------------------------------------

/// A target is blended as was asked for, color and alpha each by its own rule.
pub open spec fn blends_as_asked(plan: BlendPlan, target: ColorTargetDesc) -> bool {
    let color = target.blend.color;
    let alpha = target.blend.alpha;
    &&& plan.enabled == target.blend.enabled
    &&& plan.src_color == pipeline::blend_factor_code(color.source)
    &&& plan.dst_color == pipeline::blend_factor_code(color.destination)
    &&& plan.color_op == pipeline::blend_op_code(color.operation)
    &&& plan.src_alpha == pipeline::blend_factor_code(alpha.source)
    &&& plan.dst_alpha == pipeline::blend_factor_code(alpha.destination)
    &&& plan.alpha_op == pipeline::blend_op_code(alpha.operation)
    &&& plan.write_mask == target.write_mask
}

/// The stencil of a face works as was asked for.
pub open spec fn stencils_as_asked(
    plan: StencilFacePlan,
    face: StencilFaceState,
    depth: DepthStencilState,
) -> bool {
    &&& plan.fail_op == pipeline::stencil_op_code(face.fail)
    &&& plan.pass_op == pipeline::stencil_op_code(face.pass)
    &&& plan.depth_fail_op == pipeline::stencil_op_code(face.depth_fail)
    &&& plan.compare_op == texture::compare_code(face.compare)
    &&& plan.compare_mask == depth.stencil_read_mask
    &&& plan.write_mask == depth.stencil_write_mask
    &&& plan.reference == face.reference
}

/// Back faces are culled, if any are: which ones they are the front face tells. Depth and
/// stencil work as was asked for, each face by its own rule.
pub open spec fn fixed_as_asked(
    plan: FixedState,
    raster: RasterizationState,
    depth: DepthStencilState,
) -> bool {
    &&& plan.cull_mode == if raster.cull == CullMode::Disabled {
        0int
    } else {
        2
    }
    &&& raster.cull == CullMode::CounterClockwise ==> plan.front_face == 1
    &&& raster.cull == CullMode::Clockwise ==> plan.front_face == 0
    &&& raster.cull == CullMode::Disabled ==> plan.front_face == 0
    &&& plan.depth_bias_constant == raster.depth_bias_constant
    &&& plan.depth_bias_slope == raster.depth_bias_slope
    &&& plan.depth_bias <==> raster.depth_bias_constant.order() != 0
        || raster.depth_bias_slope.order() != 0
    &&& plan.depth_test == depth.depth_test
    &&& plan.depth_write == depth.depth_write
    &&& plan.depth_compare == texture::compare_code(depth.depth_compare)
    &&& plan.stencil_test == depth.stencil_test
    &&& stencils_as_asked(plan.front, depth.front, depth)
    &&& stencils_as_asked(plan.back, depth.back, depth)
}

/// The target has a format that can be rendered to, and blended if it is to be. Only the four
/// channels are written.
pub open spec fn target_usable(target: ColorTargetDesc, support: TargetSupport) -> bool {
    &&& !(target.format is Undefined)
    &&& support.attachment
    &&& target.write_mask <= 0xf
    &&& target.blend.enabled ==> support.blend
}

proof fn targets_are_judged(
    targets: Seq<ColorTargetDesc>,
    supports: Seq<TargetSupport>,
    count: nat,
)
    ensures
        pipeline::targets_upto(targets, supports, count) is Ok <==> forall|i: int|
            0 <= i < count ==> target_usable(#[trigger] targets[i], supports[i]),
    decreases count,
{
    if count > 0 {
        let last = count - 1;
        targets_are_judged(targets, supports, last as nat);
        if pipeline::targets_upto(targets, supports, count) is Ok {
            assert(target_usable(targets[last], supports[last]));
        }
        if forall|i: int| 0 <= i < count ==> target_usable(#[trigger] targets[i], supports[i]) {
            assert(target_usable(targets[last], supports[last]));
        }
    }
}

/// What a raster pipeline is asked for, and what the driver supports of it.
pub open spec fn pipeline_allowed(
    state: DeviceState,
    first: Seq<u32>,
    fragment: Seq<u32>,
    targets: Seq<ColorTargetDesc>,
    formats: (Format, Format),
    raster: RasterizationState,
    depth: DepthStencilState,
    support: FormatSupport,
) -> bool {
    &&& first.len() >= 5 && first[0] == 0x0723_0203
    &&& fragment.len() == 0 || fragment.len() >= 5 && fragment[0] == 0x0723_0203
    &&& targets.len() <= state.caps.max_color_attachments
    &&& raster.depth_bias_clamp.order() == 0
    &&& depth.depth_test ==> !(formats.0 is Undefined)
    &&& depth.stencil_test ==> !(formats.1 is Undefined)
    &&& forall|i: int|
        0 <= i < targets.len() ==> target_usable(#[trigger] targets[i], support.targets@[i])
    &&& formats.0 is Undefined || formats.0.has_depth() && support.depth
    &&& formats.1 is Undefined || formats.1.has_stencil() && support.stencil
    &&& formats.0 is Undefined || formats.1 is Undefined || formats.0 == formats.1
}

/// What a raster pipeline is made of: its shaders, its targets in their order, its formats and
/// its fixed state.
pub open spec fn pipeline_as_asked(
    plan: RasterModel,
    fragment: Seq<u32>,
    targets: Seq<ColorTargetDesc>,
    formats: (Format, Format),
    raster: RasterizationState,
    depth: DepthStencilState,
    mesh: bool,
) -> bool {
    &&& plan.first_stage == if mesh {
        0x80int
    } else {
        1
    }
    &&& plan.mesh == mesh
    &&& plan.has_fragment <==> fragment.len() > 0
    &&& plan.color_formats.len() == targets.len()
    &&& plan.blends.len() == targets.len()
    &&& forall|i: int|
        0 <= i < targets.len() ==> #[trigger] plan.color_formats[i] == targets[i].format.spec_code()
    &&& forall|i: int|
        0 <= i < targets.len() ==> blends_as_asked(#[trigger] plan.blends[i], targets[i])
    &&& plan.depth_format == formats.0.spec_code()
    &&& plan.stencil_format == formats.1.spec_code()
    &&& fixed_as_asked(plan.fixed, raster, depth)
}

proof fn rasters_are_planned(
    state: DeviceState,
    first: Seq<u32>,
    fragment: Seq<u32>,
    targets: Seq<ColorTargetDesc>,
    formats: (Format, Format),
    raster: RasterizationState,
    depth: DepthStencilState,
    support: FormatSupport,
    mesh: bool,
)
    ensures
        ({
            let planned = pipeline::spec_raster_pipeline(
                state,
                first,
                fragment,
                targets,
                formats,
                raster,
                depth,
                support,
                mesh,
            );
            &&& planned is Ok <==> pipeline_allowed(
                state,
                first,
                fragment,
                targets,
                formats,
                raster,
                depth,
                support,
            )
            &&& planned matches Ok(plan) ==> pipeline_as_asked(
                plan,
                fragment,
                targets,
                formats,
                raster,
                depth,
                mesh,
            )
        }),
{
    targets_are_judged(targets, support.targets@, targets.len());
}

/// A graphics pipeline is made of what its description names, and of nothing else. It is
/// refused only if something that it needs is wrong or not supported.
pub proof fn graphics_pipelines_are_made_as_asked(
    state: &DeviceState,
    desc: &GraphicsPSODesc<'_>,
    support: &FormatSupport,
    r: Result<RasterPlan, GpuError>,
)
    requires
        call_ensures(pipeline::create_graphics_pso, (state, desc, support), r),
    ensures
        r is Ok <==> pipeline_allowed(
            *state,
            desc.vertex_spirv@,
            desc.fragment_spirv@,
            desc.color_targets@,
            (desc.depth_format, desc.stencil_format),
            desc.rasterization,
            desc.depth_stencil,
            *support,
        ),
        r matches Ok(plan) ==> pipeline_as_asked(
            plan@,
            desc.fragment_spirv@,
            desc.color_targets@,
            (desc.depth_format, desc.stencil_format),
            desc.rasterization,
            desc.depth_stencil,
            false,
        ),
{
    rasters_are_planned(
        *state,
        desc.vertex_spirv@,
        desc.fragment_spirv@,
        desc.color_targets@,
        (desc.depth_format, desc.stencil_format),
        desc.rasterization,
        desc.depth_stencil,
        *support,
        false,
    );
}

/// A mesh pipeline is made in the same way, on a device with mesh shaders.
pub proof fn mesh_pipelines_are_made_as_asked(
    state: &DeviceState,
    desc: &MeshPSODesc<'_>,
    support: &FormatSupport,
    r: Result<RasterPlan, GpuError>,
)
    requires
        call_ensures(pipeline::create_mesh_pso, (state, desc, support), r),
    ensures
        r is Ok <==> state.caps.mesh_shader && pipeline_allowed(
            *state,
            desc.mesh_spirv@,
            desc.fragment_spirv@,
            desc.color_targets@,
            (desc.depth_format, desc.stencil_format),
            desc.rasterization,
            desc.depth_stencil,
            *support,
        ),
        r matches Ok(plan) ==> pipeline_as_asked(
            plan@,
            desc.fragment_spirv@,
            desc.color_targets@,
            (desc.depth_format, desc.stencil_format),
            desc.rasterization,
            desc.depth_stencil,
            true,
        ),
{
    rasters_are_planned(
        *state,
        desc.mesh_spirv@,
        desc.fragment_spirv@,
        desc.color_targets@,
        (desc.depth_format, desc.stencil_format),
        desc.rasterization,
        desc.depth_stencil,
        *support,
        true,
    );
}

/// A plan holds the Vulkan formats of its targets, by their numbers.
pub proof fn plans_hold_vulkan_formats(plan: RasterPlan, index: int)
    requires
        0 <= index < plan.color_formats@.len(),
    ensures
        plan@.color_formats.len() == plan.color_formats@.len(),
        plan@.color_formats[index] == vulkan::vk_format_code(plan.color_formats@[index]),
        plan@.depth_format == vulkan::vk_format_code(plan.depth_format),
        plan@.stencil_format == vulkan::vk_format_code(plan.stencil_format),
        plan@.blends == plan.blends@,
{
}

/// A pipeline that the driver made is kept with what it is for. One that failed leaves
/// everything that came along to be destroyed, and the error of the driver.
pub proof fn made_pipelines_are_kept(
    state: Rc<DeviceState>,
    reply: Result<Vec<u64>, (Vec<u64>, vk::Result)>,
    bind_point: BindPoint,
    mesh: bool,
    r: Result<PSO, PipelineFailure>,
)
    requires
        call_ensures(pipeline::finish_pipeline, (state, reply, bind_point, mesh), r),
    ensures
        reply is Ok <==> r is Ok,
        r matches Ok(pso) ==> pso.raw == reply->Ok_0@[0] && pso.bind_point == bind_point && pso.mesh
            == mesh && pso.state == state,
        r matches Err(failure) ==> failure.destroy@ == reply->Err_0.0@ && failure.error@
            == error::problem_of(reply->Err_0.1),
{
}

} // verus!
