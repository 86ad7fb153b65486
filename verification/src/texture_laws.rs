//! What textures, views, samplers and descriptors are made of.

use crate::error;
use crate::error::GpuError;
use crate::flags;
use crate::flags::TextureUsage;
use crate::format::Format;
use crate::heap;
use crate::heap::{GpuHeap, HeapSpan};
use crate::state::DeviceState;
use crate::texture;
use crate::texture::{
    FormatQuery, ImageCreateFlags, ImageLimits, ImageType, RenderView, Sampler, SamplerPlan,
    Texture, TextureDescriptorWrite, TexturePlan, ViewPlan, ViewType,
};
use crate::texture_copy;
use crate::types::{
    AddressMode, CompareOp, Filter, ImageAspect, RenderViewDesc, SamplerDesc, TextureAspect,
    TextureDesc, TextureDescriptorDesc, TextureType,
};
use crate::vulkan;
use ash::vk;
use vstd::prelude::*;

verus! {

// ---------------------------------------------------------------------------
// Textures
// ---------------------------------------------------------------------------

/// The shape of a texture is in order: a line has one row, a flat picture one slice and no
/// layers unless it is an array, a volume no layers, and a cube six equal square sides.
pub open spec fn shaped(desc: TextureDesc) -> bool {
    let extent = desc.extent;
    match desc.texture_type {
        TextureType::OneD => extent.y == 1 && extent.z == 1 && desc.layer_count == 1,
        TextureType::TwoD => extent.z == 1 && desc.layer_count == 1,
        TextureType::TwoDArray => extent.z == 1,
        TextureType::ThreeD => desc.layer_count == 1,
        TextureType::Cube => extent.z == 1 && extent.x == extent.y && desc.layer_count == 6,
        TextureType::CubeArray => extent.z == 1 && extent.x == extent.y && desc.layer_count % 6
            == 0,
    }
}

/// A mip level exists if some side still has a texel there.
pub open spec fn level_exists(side: nat, level: nat) -> bool
    decreases level,
{
    if level == 0 {
        side > 0
    } else {
        level_exists(side / 2, (level - 1) as nat)
    }
}

proof fn full_mips_count_levels(side: nat, levels: nat)
    requires
        levels > 0,
    ensures
        levels <= texture::full_mips(side) <==> level_exists(side, (levels - 1) as nat),
    decreases levels,
{
    reveal_with_fuel(texture::full_mips, 2);
    if levels > 1 && side > 0 {
        full_mips_count_levels(side / 2, (levels - 1) as nat);
    } else if levels > 1 {
        nothing_below_nothing((levels - 1) as nat);
    }
}

proof fn nothing_below_nothing(level: nat)
    ensures
        !level_exists(0, level),
    decreases level,
{
    if level > 0 {
        nothing_below_nothing((level - 1) as nat);
    }
}

/// A texture is planned exactly if it has texels, levels, layers, a format and a use, its
/// shape is in order, and its last level still has a texel along the longest side. The image
/// has as many dimensions as the texture; bit 3 lets views have other formats, and bit 4 lets
/// them be cubes.
pub proof fn textures_are_planned_by_shape(desc: &TextureDesc, r: Result<TexturePlan, GpuError>)
    requires
        call_ensures(texture::create_texture, (desc,), r),
    ensures
        ({
            let extent = desc.extent;
            let longest = if extent.x >= extent.y && extent.x >= extent.z {
                extent.x as nat
            } else if extent.y >= extent.z {
                extent.y as nat
            } else {
                extent.z as nat
            };
            r is Ok <==> {
                &&& 0 < extent.x && 0 < extent.y && 0 < extent.z
                &&& 0 < desc.mip_levels && 0 < desc.layer_count
                &&& !(desc.format is Undefined) && desc.usage.0 != 0
                &&& shaped(*desc)
                &&& level_exists(longest, (desc.mip_levels - 1) as nat)
            }
        }),
        r matches Ok(plan) ==> {
            let cube = desc.texture_type is Cube || desc.texture_type is CubeArray;
            &&& plan.desc == *desc
            &&& plan.usage == flags::usage_mask(desc.usage)
            &&& plan.image_type is OneD <==> desc.texture_type is OneD
            &&& plan.image_type is ThreeD <==> desc.texture_type is ThreeD
            &&& plan.flags.0 == (if desc.mutable_format {
                8int
            } else {
                0
            }) + if cube {
                16int
            } else {
                0
            }
        },
{
    let extent = desc.extent;
    let longest = texture::larger_side(texture::larger_side(extent.x, extent.y), extent.z) as nat;
    if desc.mip_levels > 0 {
        full_mips_count_levels(longest, desc.mip_levels as nat);
    }
}

/// A valid description is the same as one that can be planned.
pub proof fn valid_textures_can_be_planned(
    desc: &TextureDesc,
    checked: Result<(ImageType, ImageCreateFlags), GpuError>,
    planned: Result<TexturePlan, GpuError>,
)
    requires
        call_ensures(texture::validate_texture_desc, (desc,), checked),
        call_ensures(texture::create_texture, (desc,), planned),
    ensures
        checked is Ok <==> planned is Ok,
        checked matches Ok((image_type, create_flags)) ==> planned->Ok_0.image_type == image_type
            && planned->Ok_0.flags == create_flags,
{
}

/// The driver is asked for the format and the uses that were given, unless one is missing.
pub proof fn formats_are_asked_for(format: Format, usage: TextureUsage, r: Option<FormatQuery>)
    requires
        call_ensures(texture::supports_texture_format, (format, usage), r),
    ensures
        r is None <==> format is Undefined || usage.0 == 0,
        r matches Some(query) ==> query.format == format && query.usage == flags::usage_mask(usage),
{
}

/// A texture is supported if the driver knows its format and it is within every limit. A
/// format that the driver does not know is unsupported; other errors are those of the driver.
pub proof fn texture_support_is_judged(
    state: &DeviceState,
    desc: &TextureDesc,
    reply: Result<ImageLimits, vk::Result>,
    r: Result<(), GpuError>,
)
    requires
        call_ensures(texture::texture_support, (state, desc, reply), r),
    ensures
        r is Ok <==> {
            &&& reply matches Ok(limits)
            &&& desc.extent.x <= limits.max_extent.x
            &&& desc.extent.y <= limits.max_extent.y
            &&& desc.extent.z <= limits.max_extent.z
            &&& desc.mip_levels <= limits.max_mip_levels
            &&& desc.layer_count <= limits.max_array_layers
        },
        reply is Ok && r is Err ==> r->Err_0@ is Unsupported,
        reply matches Err(result) && vulkan::vk_result_code(result) == -11 ==> r->Err_0@
            is Unsupported,
        reply matches Err(result) && vulkan::vk_result_code(result) != -11 ==> r->Err_0@
            == error::problem_of(reply->Err_0),
{
}

// ---------------------------------------------------------------------------
// Views
// ---------------------------------------------------------------------------

/// The parts of a view: those of the format, or the one that was named and that the format
/// has.
pub open spec fn shows_part(mask: ImageAspect, aspect: TextureAspect, format: Format) -> bool {
    &&& mask.depth == (format.has_depth() && (aspect == TextureAspect::Automatic || aspect
        == TextureAspect::Depth))
    &&& mask.stencil == (format.has_stencil() && (aspect == TextureAspect::Automatic || aspect
        == TextureAspect::Stencil))
    &&& mask.color == (!format.has_depth() && !format.has_stencil())
}

/// The format has the named part.
pub open spec fn part_exists(aspect: TextureAspect, format: Format) -> bool {
    match aspect {
        TextureAspect::Automatic => true,
        TextureAspect::Color => !format.has_depth() && !format.has_stencil(),
        TextureAspect::Depth => format.has_depth(),
        TextureAspect::Stencil => format.has_stencil(),
    }
}

/// A view shows the levels and layers that its description names, or all behind the first
/// where no count is given, in the named format or that of the texture. Its size is that of
/// its first level.
pub proof fn views_show_what_was_named(
    source: &Texture,
    desc: &TextureDescriptorDesc,
    r: Result<ViewPlan, GpuError>,
)
    requires
        call_ensures(texture::create_reinterpreted_texture_view, (source, desc), r),
    ensures
        ({
            let whole = source@.desc;
            let format = if desc.format is Undefined {
                whole.format
            } else {
                desc.format
            };
            &&& r is Ok <==> {
                &&& whole.usage.0 & 0x0f != 0
                &&& desc.base_mip < whole.mip_levels && desc.base_mip + desc.mip_count
                    <= whole.mip_levels
                &&& desc.base_layer < whole.layer_count && desc.base_layer + desc.layer_count
                    <= whole.layer_count
                &&& format == whole.format || whole.mutable_format
                &&& part_exists(desc.aspect, format)
            }
            &&& r matches Ok(plan) ==> {
                let shown = plan.subresources;
                &&& plan.format == format
                &&& shown.base_mip_level == desc.base_mip
                &&& texture_copy::is_wanted(
                    shown.level_count as int,
                    desc.mip_count,
                    whole.mip_levels,
                    desc.base_mip,
                )
                &&& shown.base_array_layer == desc.base_layer
                &&& texture_copy::is_wanted(
                    shown.layer_count as int,
                    desc.layer_count,
                    whole.layer_count,
                    desc.base_layer,
                )
                &&& shows_part(shown.aspect_mask, desc.aspect, format)
                &&& plan.extent.x == texture_copy::mip_side(whole.extent.x, desc.base_mip)
                &&& plan.extent.y == texture_copy::mip_side(whole.extent.y, desc.base_mip)
            }
        }),
{
}

/// Lines and volumes are seen as such. Of a cube, whole cubes are seen as cubes; any other
/// layers, and those of flat pictures, are seen as pictures.
pub proof fn views_have_their_shape(
    source: &Texture,
    desc: &TextureDescriptorDesc,
    r: Result<ViewPlan, GpuError>,
)
    requires
        call_ensures(texture::create_reinterpreted_texture_view, (source, desc), r),
        r is Ok,
    ensures
        ({
            let plan = r->Ok_0;
            let kind = source@.desc.texture_type;
            let layers = plan.subresources.layer_count;
            let whole_cubes = (kind is Cube || kind is CubeArray) && layers % 6 == 0
                && desc.base_layer % 6 == 0;
            &&& plan.view_type is OneD <==> kind is OneD
            &&& plan.view_type is ThreeD <==> kind is ThreeD
            &&& plan.view_type is Cube <==> whole_cubes && layers == 6
            &&& plan.view_type is CubeArray <==> whole_cubes && layers > 6
            &&& plan.view_type is TwoDArray <==> !(kind is OneD) && !(kind is ThreeD)
                && !whole_cubes && layers > 1
            &&& plan.view_type is TwoD <==> !(kind is OneD) && !(kind is ThreeD) && !whole_cubes
                && layers == 1
        }),
{
}

/// A view in the format of the texture is one that names no other format.
pub proof fn plain_views_keep_the_format(
    source: &Texture,
    desc: &TextureDescriptorDesc,
    plain: Result<ViewPlan, GpuError>,
    reinterpreted: Result<ViewPlan, GpuError>,
)
    requires
        call_ensures(texture::create_texture_view, (source, desc), plain),
        call_ensures(texture::create_reinterpreted_texture_view, (source, desc), reinterpreted),
    ensures
        desc.format is Undefined || desc.format == source@.desc.format ==> error::outcome(plain)
            == error::outcome(reinterpreted),
        !(desc.format is Undefined) && desc.format != source@.desc.format ==> plain is Err,
        plain matches Ok(plan) ==> plan.format == source@.desc.format,
{
}

/// An attachment view shows the level and the layer that were named, and all parts.
pub proof fn attachments_show_what_was_named(
    source: &Texture,
    desc: &RenderViewDesc,
    r: Result<ViewPlan, GpuError>,
)
    requires
        call_ensures(texture::create_render_view, (source, desc), r),
    ensures
        ({
            let whole = source@.desc;
            &&& r is Ok <==> {
                &&& !(whole.texture_type is OneD) && !(whole.texture_type is ThreeD)
                &&& whole.usage.0 & 0x0f != 0
                &&& desc.mip_level < whole.mip_levels
                &&& desc.slice < whole.layer_count
            }
            &&& r matches Ok(plan) ==> {
                let shown = plan.subresources;
                &&& shown.base_mip_level == desc.mip_level && shown.level_count == 1
                &&& shown.base_array_layer == desc.slice && shown.layer_count == 1
                &&& shows_part(shown.aspect_mask, TextureAspect::Automatic, whole.format)
                &&& plan.format == whole.format
                &&& plan.extent.x == texture_copy::mip_side(whole.extent.x, desc.mip_level)
                &&& plan.extent.y == texture_copy::mip_side(whole.extent.y, desc.mip_level)
            }
        }),
{
}

// ---------------------------------------------------------------------------
// Samplers
// ---------------------------------------------------------------------------

/// Vulkan's number of a filter.
pub open spec fn filter_number(filter: Filter) -> int {
    if filter == Filter::Nearest {
        0
    } else {
        1
    }
}

/// Vulkan's number of an address mode.
pub open spec fn address_number(mode: AddressMode) -> int {
    if mode == AddressMode::Repeat {
        0
    } else if mode == AddressMode::MirroredRepeat {
        1
    } else {
        2
    }
}

/// Vulkan numbers comparisons by what they accept: less, equal and greater are one, two and
/// four.
pub proof fn comparisons_add_up(compare: CompareOp)
    ensures
        texture::compare_code(compare) == (if compare is Less || compare is LessEqual
            || compare is NotEqual || compare is Always {
            1int
        } else {
            0
        }) + (if compare is Equal || compare is LessEqual || compare is GreaterEqual
            || compare is Always {
            2int
        } else {
            0
        }) + (if compare is Greater || compare is NotEqual || compare is GreaterEqual
            || compare is Always {
            4int
        } else {
            0
        }),
{
}

/// A sampler filters and repeats as was asked for, along each axis by itself. It is refused
/// only if it is to be anisotropic on a device that cannot.
pub proof fn samplers_sample_as_asked(
    state: &DeviceState,
    desc: &SamplerDesc,
    r: Result<SamplerPlan, GpuError>,
)
    requires
        call_ensures(texture::create_sampler, (state, desc), r),
    ensures
        r is Ok <==> !desc.anisotropic || state.caps.sampler_anisotropy,
        r matches Ok(plan) ==> {
            &&& plan.min_filter == filter_number(desc.min_filter)
            &&& plan.mag_filter == filter_number(desc.mag_filter)
            &&& plan.mipmap_mode == filter_number(desc.mip_filter)
            &&& plan.address_u == address_number(desc.address_u)
            &&& plan.address_v == address_number(desc.address_v)
            &&& plan.address_w == address_number(desc.address_w)
            &&& plan.anisotropic == desc.anisotropic
            &&& plan.max_anisotropy == state.caps.max_sampler_anisotropy
            &&& plan.compare_enabled == desc.compare_enabled
            &&& plan.compare_op == texture::compare_code(desc.compare)
        },
{
}

// ---------------------------------------------------------------------------
// Descriptors
// ---------------------------------------------------------------------------

/// The slot is that of the descriptor with the given number: as many descriptors behind the
/// start of the array.
pub open spec fn is_slot(slot: HeapSpan, state: DeviceState, set: int, index: u32) -> bool {
    &&& slot.size == state.descriptor_sizes@[set]
    &&& slot.offset == state.descriptor_offsets@[set] + index * state.descriptor_sizes@[set]
}

/// A texture descriptor goes to its own slot of the heap, for the kind of work that the heap
/// is for.
pub proof fn texture_descriptors_go_to_their_slot(
    heap: &GpuHeap,
    index: u32,
    view: &RenderView,
    r: Result<TextureDescriptorWrite, GpuError>,
)
    requires
        call_ensures(texture::write_texture_descriptor, (heap, index, view), r),
    ensures
        r matches Ok(write) ==> {
            &&& heap@.descriptor_set == Some(write.set)
            &&& write.set <= 1
            &&& is_slot(write.slot, heap@.state, write.set as int, index)
            &&& write.slot.offset + write.slot.size <= heap@.size
            &&& index < heap@.state.caps.descriptor_count
            &&& heap@.state.id == view@.texture.state.id
            &&& heap@.mapped
            &&& write.set == 0 ==> write.layout is Sampled
            &&& write.set == 1 ==> write.layout is General
        },
        heap@.descriptor_set matches Some(set) && set <= 1 && heap@.state.id
            == view@.texture.state.id && index < heap@.state.caps.descriptor_count
            && view@.texture.desc.usage.has_all(
            if heap@.descriptor_set->Some_0 == 0 {
                TextureUsage::SAMPLED()
            } else {
                TextureUsage::STORAGE()
            },
        ) && view@.plan.subresources.aspect_mask.spec_single() && (
        heap@.descriptor_set->Some_0 == 1 ==> view@.plan.subresources.level_count == 1)
            && heap::descriptor_span(heap@, heap@.descriptor_set->Some_0 as int, index) is Ok
            ==> r is Ok,
{
}

/// A sampler descriptor goes to its own slot of the sampler heap.
pub proof fn sampler_descriptors_go_to_their_slot(
    heap: &GpuHeap,
    index: u32,
    sampler: &Sampler,
    r: Result<HeapSpan, GpuError>,
)
    requires
        call_ensures(texture::write_sampler_descriptor, (heap, index, sampler), r),
    ensures
        r is Ok <==> {
            &&& heap@.descriptor_set matches Some(set) && set == 2
            &&& index < heap@.state.caps.descriptor_count
            &&& heap@.state.id == sampler.state.id
            &&& heap::descriptor_span(heap@, 2, index) is Ok
        },
        r matches Ok(slot) ==> is_slot(slot, heap@.state, 2, index),
{
}

/// Vulkan's numbers of dimensions and of view shapes.
pub proof fn shapes_have_their_numbers(image: ImageType, view: ViewType, a: i32, b: i32)
    requires
        call_ensures(ImageType::code, (image,), a),
        call_ensures(ViewType::code, (view,), b),
    ensures
        image is OneD ==> a == 0,
        image is TwoD ==> a == 1,
        image is ThreeD ==> a == 2,
        view is OneD ==> b == 0,
        view is TwoD ==> b == 1,
        view is ThreeD ==> b == 2,
        view is Cube ==> b == 3,
        view is TwoDArray ==> b == 5,
        view is CubeArray ==> b == 6,
{
}

} // verus!
