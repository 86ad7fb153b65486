//! Textures, views, samplers and their descriptors.

use crate::error;
use crate::error::{GpuError, Problem, RESULT_FORMAT_NOT_SUPPORTED, error_of_code, unsupported};
use crate::flags::{TextureUsage, image_usage};
use crate::flags;
use crate::float_bits;
use crate::float_bits::F32Bits;
use crate::format::{Format, TextureFormatInfo};
use crate::heap;
use crate::heap::{GpuHeap, HeapModel, HeapSpan, descriptor_slot};
use crate::state::{DeviceState, same_device};
use crate::text;
use crate::text::{concat, decimal};
use crate::texture_copy;
use crate::types::{
    AddressMode, CompareOp, Filter, ImageAspect, RenderViewDesc, SamplerDesc, TextureAspect,
    TextureDesc, TextureDescriptorDesc, TextureLayout, TextureType, U32x2, U32x3,
};
use crate::vulkan;
use ash::vk;
use std::rc::Rc;
use vstd::prelude::*;
use vstd::string::StringExecFns;

verus! {

// ---------------------------------------------------------------------------
// Texture descriptions
// ---------------------------------------------------------------------------

/// The dimensionality of an image.
#[derive(Debug, Clone, Copy, PartialEq, Eq, Structural)]
pub enum ImageType {
    OneD,
    TwoD,
    ThreeD,
}

impl ImageType {
    /// The number that Vulkan gives to the dimensionality.
    pub fn code(self) -> (r: i32)
        ensures
            r == (match self {
                ImageType::OneD => 0int,
                ImageType::TwoD => 1,
                ImageType::ThreeD => 2,
            }),
    {
        match self {
            ImageType::OneD => 0,
            ImageType::TwoD => 1,
            ImageType::ThreeD => 2,
        }
    }
}

/// Vulkan image creation bits.
#[derive(Debug, Clone, Copy, PartialEq, Eq, Structural)]
pub struct ImageCreateFlags(pub u32);

#[allow(non_snake_case)]
impl ImageCreateFlags {
    /// Views may have another format.
    #[verifier::allow_in_spec]
    pub fn MUTABLE_FORMAT() -> (r: Self)
        returns
            ImageCreateFlags(0x08),
    {
        ImageCreateFlags(0x08)
    }

    /// Views may be cubes.
    #[verifier::allow_in_spec]
    pub fn CUBE_COMPATIBLE() -> (r: Self)
        returns
            ImageCreateFlags(0x10),
    {
        ImageCreateFlags(0x10)
    }

    /// Whether all bits of `other` are set.
    pub fn contains(self, other: Self) -> (r: bool)
        ensures
            r == (self.0 & other.0 == other.0),
    {
        (self.0 & other.0) == other.0
    }
}

/// The larger of two numbers.
pub open spec fn larger_side(a: u32, b: u32) -> u32 {
    if a < b {
        b
    } else {
        a
    }
}

/// The levels of a full mip chain: the side is halved until nothing is left.
pub open spec fn full_mips(side: nat) -> nat
    decreases side,
{
    if side == 0 {
        0
    } else {
        1 + full_mips(side / 2)
    }
}

/// The creation bits of a texture.
pub open spec fn create_flags(desc: TextureDesc) -> ImageCreateFlags {
    ImageCreateFlags(
        ((if desc.mutable_format {
            0x08int
        } else {
            0
        }) + (if desc.texture_type is Cube || desc.texture_type is CubeArray {
            0x10int
        } else {
            0
        })) as u32,
    )
}

/// A texture is square with six layers per cube.
pub open spec fn cube_shaped(desc: TextureDesc) -> bool {
    &&& desc.extent.x == desc.extent.y
    &&& desc.layer_count % 6 == 0
    &&& desc.texture_type is Cube ==> desc.layer_count == 6
}

/// The image that a texture needs, if its shape and its levels are in order.
pub open spec fn spec_validate_texture(desc: TextureDesc) -> Result<
    (ImageType, ImageCreateFlags),
    Problem,
> {
    let extent = desc.extent;
    let side = larger_side(larger_side(extent.x, extent.y), extent.z);
    let cube = desc.texture_type is Cube || desc.texture_type is CubeArray;
    let flat = !(desc.texture_type is OneD) && !(desc.texture_type is ThreeD);
    if extent.x == 0 || extent.y == 0 || extent.z == 0 || desc.mip_levels == 0 || desc.layer_count
        == 0 || desc.format is Undefined || desc.usage == TextureUsage::NONE() {
        error::refused("texture dimensions, levels, layers, format and usage must be nonempty")
    } else if desc.texture_type is OneD && (extent.y != 1 || extent.z != 1 || desc.layer_count
        != 1) {
        error::refused("1D texture needs height/depth/layers = 1")
    } else if desc.texture_type is ThreeD && desc.layer_count != 1 {
        error::refused("3D textures cannot have array layers")
    } else if flat && extent.z != 1 {
        error::refused("2D/cube texture depth must be 1")
    } else if desc.texture_type is TwoD && desc.layer_count != 1 {
        error::refused("use TwoDArray for array layers")
    } else if cube && !cube_shaped(desc) {
        error::refused("cube textures must be square with six layers per cube")
    } else if desc.mip_levels > full_mips(side as nat) {
        error::refused("too many mip levels")
    } else {
        Ok(
            (
                match desc.texture_type {
                    TextureType::OneD => ImageType::OneD,
                    TextureType::ThreeD => ImageType::ThreeD,
                    _ => ImageType::TwoD,
                },
                create_flags(desc),
            ),
        )
    }
}

/// A side below a power of two has no more levels than its exponent.
proof fn mips_bounded(side: nat, levels: nat)
    requires
        side < float_bits::power_of_two(levels),
    ensures
        full_mips(side) <= levels,
    decreases levels,
{
    if side > 0 && levels > 0 {
        mips_bounded(side / 2, (levels - 1) as nat);
    }
}

fn count_mips(side: u32) -> (r: u32)
    ensures
        r == full_mips(side as nat),
        r <= 32,
{
    proof {
        assert(float_bits::power_of_two(32) == 0x1_0000_0000) by {
            reveal_with_fuel(float_bits::power_of_two, 33);
        }
        mips_bounded(side as nat, 32);
    }
    let mut rest: u32 = side;
    let mut levels: u32 = 0;
    while rest > 0
        invariant
            levels as nat + full_mips(rest as nat) == full_mips(side as nat),
            full_mips(side as nat) <= 32,
        decreases rest,
    {
        rest = rest / 2;
        levels = levels + 1;
    }
    levels
}

/// Checks the shape and the levels of a texture before the driver is asked.
pub fn validate_texture_desc(desc: &TextureDesc) -> (r: Result<
    (ImageType, ImageCreateFlags),
    GpuError,
>)
    ensures
        error::outcome(r) == spec_validate_texture(*desc),
        r is Ok ==> desc.mip_levels <= 32,
{
    let extent = desc.extent;
    if extent.x == 0 || extent.y == 0 || extent.z == 0 || desc.mip_levels == 0 || desc.layer_count
        == 0 || desc.format == Format::Undefined || desc.usage == TextureUsage::NONE() {
        return Err(
            GpuError::InvalidArgument(
                "texture dimensions, levels, layers, format and usage must be nonempty",
            ),
        );
    }
    let mut flags: u32 = if desc.mutable_format {
        0x08
    } else {
        0
    };
    let image_type = match desc.texture_type {
        TextureType::OneD => {
            if extent.y != 1 || extent.z != 1 || desc.layer_count != 1 {
                return Err(
                    GpuError::InvalidArgument("1D texture needs height/depth/layers = 1"),
                );
            }
            ImageType::OneD
        },
        TextureType::ThreeD => {
            if desc.layer_count != 1 {
                return Err(GpuError::InvalidArgument("3D textures cannot have array layers"));
            }
            ImageType::ThreeD
        },
        _ => {
            if extent.z != 1 {
                return Err(GpuError::InvalidArgument("2D/cube texture depth must be 1"));
            }
            if desc.texture_type == TextureType::TwoD && desc.layer_count != 1 {
                return Err(GpuError::InvalidArgument("use TwoDArray for array layers"));
            }
            if desc.texture_type == TextureType::Cube || desc.texture_type
                == TextureType::CubeArray {
                if extent.x != extent.y || desc.layer_count % 6 != 0 || (desc.texture_type
                    == TextureType::Cube && desc.layer_count != 6) {
                    return Err(
                        GpuError::InvalidArgument(
                            "cube textures must be square with six layers per cube",
                        ),
                    );
                }
                flags = flags + 0x10;
            }
            ImageType::TwoD
        },
    };
    let width_height: u32 = if extent.x < extent.y {
        extent.y
    } else {
        extent.x
    };
    let side: u32 = if width_height < extent.z {
        extent.z
    } else {
        width_height
    };
    if desc.mip_levels > count_mips(side) {
        return Err(GpuError::InvalidArgument("too many mip levels"));
    }
    Ok((image_type, ImageCreateFlags(flags)))
}

/// A question to the driver: does it support optimal-tiled 2D images of this format
/// with these Vulkan image uses?
#[derive(Debug, Clone, Copy, PartialEq, Eq, Structural)]
pub struct FormatQuery {
    pub format: Format,
    pub usage: u32,
}

/// What to ask the driver about a format. Without a format or a use there is
/// nothing to ask, and no support.
pub fn supports_texture_format(format: Format, usage: TextureUsage) -> (r: Option<FormatQuery>)
    ensures
        r == (if format is Undefined || usage == TextureUsage::NONE() {
            None::<FormatQuery>
        } else {
            Some(FormatQuery { format, usage: flags::usage_mask(usage) })
        }),
{
    if format == Format::Undefined || usage == TextureUsage::NONE() {
        return None;
    }
    Some(FormatQuery { format, usage: image_usage(usage) })
}

/// An image to allocate.
#[derive(Debug, Clone, Copy, PartialEq, Eq, Structural)]
pub struct TexturePlan {
    pub image_type: ImageType,
    pub flags: ImageCreateFlags,
    /// Vulkan image usage bits.
    pub usage: u32,
    pub desc: TextureDesc,
}

/// The image to allocate for a description.
pub open spec fn spec_texture_plan(desc: TextureDesc) -> Result<TexturePlan, Problem> {
    match spec_validate_texture(desc) {
        Err(problem) => Err(problem),
        Ok((image_type, flags)) => Ok(
            TexturePlan { image_type, flags, usage: flags::usage_mask(desc.usage), desc },
        ),
    }
}

/// Plans an optimal-tiled image.
pub fn create_texture(desc: &TextureDesc) -> (r: Result<TexturePlan, GpuError>)
    ensures
        error::outcome(r) == spec_texture_plan(*desc),
        r is Ok ==> desc.mip_levels <= 32,
{
    let (image_type, flags) = validate_texture_desc(desc)?;
    Ok(TexturePlan { image_type, flags, usage: image_usage(desc.usage), desc: *desc })
}

/// What the driver supports for an image.
#[derive(Debug, Clone, Copy, PartialEq, Eq, Structural)]
pub struct ImageLimits {
    pub max_extent: U32x3,
    pub max_mip_levels: u32,
    pub max_array_layers: u32,
}

/// The text of a use, as messages show it.
pub open spec fn usage_text(usage: TextureUsage) -> Seq<char> {
    "TextureUsage("@ + text::decimal_text(usage.0 as nat) + ")"@
}

/// The message for a format that cannot be used so on a device.
pub open spec fn unsupported_texture(state: DeviceState, desc: TextureDesc) -> Seq<char> {
    state.caps.device_name@ + ": "@ + desc.format.spec_name()@ + " with "@ + usage_text(desc.usage)
}

/// What follows of the driver's answer, given the number of its error.
pub open spec fn spec_texture_support(
    state: DeviceState,
    desc: TextureDesc,
    reply: Result<ImageLimits, (i32, vk::Result)>,
) -> Result<(), Problem> {
    match reply {
        Err((code, result)) => if code == RESULT_FORMAT_NOT_SUPPORTED {
            error::lacking(unsupported_texture(state, desc))
        } else {
            Err(error::error_with_code(code, result)@)
        },
        Ok(limits) => if desc.extent.x > limits.max_extent.x || desc.extent.y > limits.max_extent.y
            || desc.extent.z > limits.max_extent.z || desc.mip_levels > limits.max_mip_levels
            || desc.layer_count > limits.max_array_layers {
            error::lacking("texture extent, mip count or array size exceeds device limits"@)
        } else {
            Ok(())
        },
    }
}

/// Judges the driver's answer, given the number of its error.
pub fn judge_texture_support(
    state: &DeviceState,
    desc: &TextureDesc,
    reply: Result<ImageLimits, (i32, vk::Result)>,
) -> (r: Result<(), GpuError>)
    ensures
        error::outcome(r) == spec_texture_support(*state, *desc, reply),
{
    match reply {
        Err((code, result)) => {
            if code == RESULT_FORMAT_NOT_SUPPORTED {
                let mut message = concat(state.caps.device_name.as_str(), ": ");
                message.append(desc.format.name());
                message.append(" with ");
                let mut usage = concat("TextureUsage(", decimal(desc.usage.0).as_str());
                usage.append(")");
                message.append(usage.as_str());
                return Err(GpuError::Unsupported(message));
            }
            Err(error_of_code(code, result))
        },
        Ok(limits) => {
            if desc.extent.x > limits.max_extent.x || desc.extent.y > limits.max_extent.y
                || desc.extent.z > limits.max_extent.z || desc.mip_levels > limits.max_mip_levels
                || desc.layer_count > limits.max_array_layers {
                return Err(
                    unsupported("texture extent, mip count or array size exceeds device limits"),
                );
            }
            Ok(())
        },
    }
}

/// Judges what the driver says about the image of a texture.
pub fn texture_support(
    state: &DeviceState,
    desc: &TextureDesc,
    reply: Result<ImageLimits, vk::Result>,
) -> (r: Result<(), GpuError>)
    ensures
        error::outcome(r) == spec_texture_support(
            *state,
            *desc,
            (match reply {
                Ok(limits) => Ok::<ImageLimits, (i32, vk::Result)>(limits),
                Err(result) => Err((vulkan::vk_result_code(result), result)),
            }),
        ),
{
    match reply {
        Ok(limits) => judge_texture_support(state, desc, Ok(limits)),
        Err(result) => judge_texture_support(state, desc, Err((result.as_raw(), result))),
    }
}

// ---------------------------------------------------------------------------
// Textures and views
// ---------------------------------------------------------------------------

/// An image and its description.
pub struct Texture {
    state: Rc<DeviceState>,
    image: u64,
    desc: TextureDesc,
}

/// A texture as a value.
pub struct TextureModel {
    pub state: DeviceState,
    /// The driver's handle of the image.
    pub image: u64,
    pub desc: TextureDesc,
}

impl View for Texture {
    type V = TextureModel;

    closed spec fn view(&self) -> TextureModel {
        TextureModel { state: *self.state, image: self.image, desc: self.desc }
    }
}

impl Texture {
    #[verifier::type_invariant]
    spec fn inv(self) -> bool {
        self.desc.mip_levels <= 32
    }

    /// The texture that came of a plan, with the driver's handle of the image.
    pub fn created(state: Rc<DeviceState>, image: u64, desc: TextureDesc) -> (r: Texture)
        requires
            desc.mip_levels <= 32,
        ensures
            r@ == (TextureModel { state: *state, image, desc }),
    {
        Texture { state, image, desc }
    }

    /// The description of the texture.
    pub fn description(&self) -> (r: &TextureDesc)
        ensures
            *r == self@.desc,
            r.mip_levels <= 32,
    {
        proof {
            use_type_invariant(self);
        }
        &self.desc
    }

    /// The device of the texture.
    pub fn state(&self) -> (r: &DeviceState)
        ensures
            *r == self@.state,
    {
        &self.state
    }

    /// The driver's handle of the image.
    pub fn image(&self) -> (r: u64)
        ensures
            r == self@.image,
    {
        self.image
    }
}

impl Clone for Texture {
    fn clone(&self) -> (r: Texture)
        ensures
            r@ == self@,
    {
        proof {
            use_type_invariant(self);
        }
        Texture { state: self.state.clone(), image: self.image, desc: self.desc }
    }
}

/// The shape of a view.
#[derive(Debug, Clone, Copy, PartialEq, Eq, Structural)]
pub enum ViewType {
    OneD,
    TwoD,
    ThreeD,
    Cube,
    TwoDArray,
    CubeArray,
}

impl ViewType {
    /// The number that Vulkan gives to the shape.
    pub fn code(self) -> (r: i32)
        ensures
            r == (match self {
                ViewType::OneD => 0int,
                ViewType::TwoD => 1,
                ViewType::ThreeD => 2,
                ViewType::Cube => 3,
                ViewType::TwoDArray => 5,
                ViewType::CubeArray => 6,
            }),
    {
        match self {
            ViewType::OneD => 0,
            ViewType::TwoD => 1,
            ViewType::ThreeD => 2,
            ViewType::Cube => 3,
            ViewType::TwoDArray => 5,
            ViewType::CubeArray => 6,
        }
    }
}

/// The parts, levels and layers of an image.
#[derive(Debug, Clone, Copy, PartialEq, Eq, Structural)]
pub struct SubresourceRange {
    pub aspect_mask: ImageAspect,
    pub base_mip_level: u32,
    pub level_count: u32,
    pub base_array_layer: u32,
    pub layer_count: u32,
}

/// A view to create.
#[derive(Debug, Clone, Copy, PartialEq, Eq, Structural)]
pub struct ViewPlan {
    pub view_type: ViewType,
    pub format: Format,
    pub subresources: SubresourceRange,
    pub extent: U32x2,
}

/// The parts that a view shows.
pub open spec fn view_aspect(aspect: TextureAspect, format: Format) -> Result<
    ImageAspect,
    Problem,
> {
    match aspect {
        TextureAspect::Automatic => Ok(ImageAspect::of_format(format)),
        TextureAspect::Color if !format.has_depth() && !format.has_stencil() => Ok(
            ImageAspect { color: true, depth: false, stencil: false },
        ),
        TextureAspect::Depth if format.has_depth() => Ok(
            ImageAspect { color: false, depth: true, stencil: false },
        ),
        TextureAspect::Stencil if format.has_stencil() => Ok(
            ImageAspect { color: false, depth: false, stencil: true },
        ),
        _ => error::refused("view aspect is incompatible with texture format"),
    }
}

/// The shape of a view. Whole cubes are seen as cubes, other layers as an array.
pub open spec fn view_type(texture_type: TextureType, base_layer: u32, layer_count: u32) -> ViewType {
    let cube = texture_type is Cube || texture_type is CubeArray;
    match texture_type {
        TextureType::OneD => ViewType::OneD,
        TextureType::ThreeD => ViewType::ThreeD,
        _ => if cube && layer_count >= 6 && layer_count % 6 == 0 && base_layer % 6 == 0 {
            if layer_count == 6 {
                ViewType::Cube
            } else {
                ViewType::CubeArray
            }
        } else if layer_count > 1 {
            ViewType::TwoDArray
        } else {
            ViewType::TwoD
        },
    }
}

/// The view that a description asks for.
pub open spec fn spec_view(source: TextureDesc, desc: TextureDescriptorDesc) -> Result<
    ViewPlan,
    Problem,
> {
    let visible = TextureUsage(0x0f);
    let mip_count = texture_copy::or_rest(desc.mip_count, source.mip_levels, desc.base_mip);
    let layer_count = texture_copy::or_rest(
        desc.layer_count,
        source.layer_count,
        desc.base_layer,
    );
    let format = if desc.format is Undefined {
        source.format
    } else {
        desc.format
    };
    if !source.usage.has_any(visible) {
        error::refused("transfer-only textures cannot have image views")
    } else if desc.base_mip >= source.mip_levels || desc.base_layer >= source.layer_count {
        error::refused("view base subresource out of bounds")
    } else if desc.base_mip + mip_count > source.mip_levels || desc.base_layer + layer_count
        > source.layer_count {
        error::refused("view subresource range out of bounds")
    } else if format != source.format && !source.mutable_format {
        error::refused("texture was not created with mutable_format")
    } else {
        match view_aspect(desc.aspect, format) {
            Err(problem) => Err(problem),
            Ok(aspect_mask) => Ok(
                ViewPlan {
                    view_type: view_type(source.texture_type, desc.base_layer, layer_count),
                    format,
                    subresources: SubresourceRange {
                        aspect_mask,
                        base_mip_level: desc.base_mip,
                        level_count: mip_count,
                        base_array_layer: desc.base_layer,
                        layer_count,
                    },
                    extent: U32x2 {
                        x: texture_copy::mip_side(source.extent.x, desc.base_mip),
                        y: texture_copy::mip_side(source.extent.y, desc.base_mip),
                    },
                },
            ),
        }
    }
}

fn select_view_aspect(aspect: TextureAspect, format: Format) -> (r: Result<ImageAspect, GpuError>)
    ensures
        error::outcome(r) == view_aspect(aspect, format),
{
    let info = TextureFormatInfo::get_texture_format_info(format);
    match aspect {
        TextureAspect::Automatic => Ok(
            ImageAspect {
                color: !info.depth && !info.stencil,
                depth: info.depth,
                stencil: info.stencil,
            },
        ),
        TextureAspect::Color if !info.depth && !info.stencil => Ok(
            ImageAspect { color: true, depth: false, stencil: false },
        ),
        TextureAspect::Depth if info.depth => Ok(
            ImageAspect { color: false, depth: true, stencil: false },
        ),
        TextureAspect::Stencil if info.stencil => Ok(
            ImageAspect { color: false, depth: false, stencil: true },
        ),
        _ => Err(GpuError::InvalidArgument("view aspect is incompatible with texture format")),
    }
}

fn select_view_type(texture_type: TextureType, base_layer: u32, layer_count: u32) -> (r: ViewType)
    ensures
        r == view_type(texture_type, base_layer, layer_count),
{
    match texture_type {
        TextureType::OneD => ViewType::OneD,
        TextureType::ThreeD => ViewType::ThreeD,
        _ => if (texture_type == TextureType::Cube || texture_type == TextureType::CubeArray)
            && layer_count >= 6 && layer_count % 6 == 0 && base_layer % 6 == 0 {
            if layer_count == 6 {
                ViewType::Cube
            } else {
                ViewType::CubeArray
            }
        } else if layer_count > 1 {
            ViewType::TwoDArray
        } else {
            ViewType::TwoD
        },
    }
}

fn halved(side: u32, level: u32) -> (r: u32)
    requires
        level < 32,
    ensures
        r == texture_copy::mip_side(side, level),
{
    let halved: u32 = side >> level;
    if halved == 0 {
        1
    } else {
        halved
    }
}

fn create_view(texture: &Texture, desc: &TextureDescriptorDesc) -> (r: Result<ViewPlan, GpuError>)
    ensures
        error::outcome(r) == spec_view(texture@.desc, *desc),
{
    let source = texture.description();
    let visible = TextureUsage(0x0f);
    if !source.usage.intersects(visible) {
        return Err(GpuError::InvalidArgument("transfer-only textures cannot have image views"));
    }
    if desc.base_mip >= source.mip_levels || desc.base_layer >= source.layer_count {
        return Err(GpuError::InvalidArgument("view base subresource out of bounds"));
    }
    let mip_count: u32 = if desc.mip_count == 0 {
        source.mip_levels - desc.base_mip
    } else {
        desc.mip_count
    };
    let layer_count: u32 = if desc.layer_count == 0 {
        source.layer_count - desc.base_layer
    } else {
        desc.layer_count
    };
    if mip_count > source.mip_levels - desc.base_mip || layer_count > source.layer_count
        - desc.base_layer {
        return Err(GpuError::InvalidArgument("view subresource range out of bounds"));
    }
    let format = if desc.format == Format::Undefined {
        source.format
    } else {
        desc.format
    };
    if format != source.format && !source.mutable_format {
        return Err(GpuError::InvalidArgument("texture was not created with mutable_format"));
    }
    let aspect_mask = select_view_aspect(desc.aspect, format)?;
    Ok(
        ViewPlan {
            view_type: select_view_type(source.texture_type, desc.base_layer, layer_count),
            format,
            subresources: SubresourceRange {
                aspect_mask,
                base_mip_level: desc.base_mip,
                level_count: mip_count,
                base_array_layer: desc.base_layer,
                layer_count,
            },
            extent: U32x2 {
                x: halved(source.extent.x, desc.base_mip),
                y: halved(source.extent.y, desc.base_mip),
            },
        },
    )
}

/// A view in the format of the texture.
pub open spec fn spec_texture_view(source: TextureDesc, desc: TextureDescriptorDesc) -> Result<
    ViewPlan,
    Problem,
> {
    if !(desc.format is Undefined) && desc.format != source.format {
        error::refused("use create_reinterpreted_texture_view for format reinterpretation")
    } else {
        spec_view(source, desc)
    }
}

/// Plans a view for sampled or storage descriptors. Zero counts mean all remaining
/// levels or layers.
pub fn create_texture_view(texture: &Texture, desc: &TextureDescriptorDesc) -> (r: Result<
    ViewPlan,
    GpuError,
>)
    ensures
        error::outcome(r) == spec_texture_view(texture@.desc, *desc),
{
    if desc.format != Format::Undefined && desc.format != texture.description().format {
        return Err(
            GpuError::InvalidArgument(
                "use create_reinterpreted_texture_view for format reinterpretation",
            ),
        );
    }
    create_view(texture, desc)
}

/// Plans a view in another format, which must be compatible with the texture's.
pub fn create_reinterpreted_texture_view(texture: &Texture, desc: &TextureDescriptorDesc) -> (r:
    Result<ViewPlan, GpuError>)
    ensures
        error::outcome(r) == spec_view(texture@.desc, *desc),
{
    create_view(texture, desc)
}

/// The part of a texture that an attachment view shows.
pub open spec fn attachment_desc(desc: RenderViewDesc) -> TextureDescriptorDesc {
    TextureDescriptorDesc {
        format: Format::Undefined,
        aspect: TextureAspect::Automatic,
        base_mip: desc.mip_level,
        mip_count: 1,
        base_layer: desc.slice,
        layer_count: 1,
    }
}

/// An attachment view.
pub open spec fn spec_render_view(source: TextureDesc, desc: RenderViewDesc) -> Result<
    ViewPlan,
    Problem,
> {
    if source.texture_type is OneD || source.texture_type is ThreeD {
        error::lacking("attachment views require 2D textures or cube/array slices"@)
    } else {
        spec_texture_view(source, attachment_desc(desc))
    }
}

/// Plans a single-mip, single-layer attachment view. 3D slice attachments are not
/// enabled.
pub fn create_render_view(texture: &Texture, desc: &RenderViewDesc) -> (r: Result<
    ViewPlan,
    GpuError,
>)
    ensures
        error::outcome(r) == spec_render_view(texture@.desc, *desc),
{
    match texture.description().texture_type {
        TextureType::OneD | TextureType::ThreeD => Err(
            unsupported("attachment views require 2D textures or cube/array slices"),
        ),
        _ => create_texture_view(
            texture,
            &TextureDescriptorDesc {
                format: Format::Undefined,
                aspect: TextureAspect::Automatic,
                base_mip: desc.mip_level,
                mip_count: 1,
                base_layer: desc.slice,
                layer_count: 1,
            },
        ),
    }
}

/// An image view retaining its texture.
pub struct RenderView {
    texture: Texture,
    id: u64,
    raw: u64,
    plan: ViewPlan,
}

/// A view as a value.
pub struct ViewModel {
    pub texture: TextureModel,
    /// Tells this view from every other.
    pub id: u64,
    /// The driver's handle of the view.
    pub raw: u64,
    pub plan: ViewPlan,
}

impl View for RenderView {
    type V = ViewModel;

    closed spec fn view(&self) -> ViewModel {
        ViewModel { texture: self.texture@, id: self.id, raw: self.raw, plan: self.plan }
    }
}

impl RenderView {
    /// The view that came of a plan, with the driver's handle and a number that no
    /// other view has.
    pub fn created(texture: &Texture, plan: ViewPlan, id: u64, raw: u64) -> (r: RenderView)
        ensures
            r@ == (ViewModel { texture: texture@, id, raw, plan }),
    {
        RenderView { texture: texture.clone(), id, raw, plan }
    }

    /// The texture that the view shows.
    pub fn texture(&self) -> (r: &Texture)
        ensures
            r@ == self@.texture,
    {
        &self.texture
    }

    /// The size of the first level of the view.
    pub fn extent(&self) -> (r: U32x2)
        ensures
            r == self@.plan.extent,
    {
        self.plan.extent
    }

    /// The shape, format and subresources of the view.
    pub fn plan(&self) -> (r: ViewPlan)
        ensures
            r == self@.plan,
    {
        self.plan
    }

    /// The number of the view.
    pub fn id(&self) -> (r: u64)
        ensures
            r == self@.id,
    {
        self.id
    }

    /// The driver's handle of the view.
    pub fn raw(&self) -> (r: u64)
        ensures
            r == self@.raw,
    {
        self.raw
    }
}

// ---------------------------------------------------------------------------
// Samplers
// ---------------------------------------------------------------------------

/// A sampler to create, in Vulkan numbers.
#[derive(Debug, Clone, Copy, PartialEq, Eq, Structural)]
pub struct SamplerPlan {
    pub min_filter: i32,
    pub mag_filter: i32,
    pub mipmap_mode: i32,
    pub address_u: i32,
    pub address_v: i32,
    pub address_w: i32,
    pub anisotropic: bool,
    pub max_anisotropy: F32Bits,
    pub compare_enabled: bool,
    pub compare_op: i32,
}

/// The Vulkan number of a filter, for texels and for levels.
pub open spec fn filter_code(filter: Filter) -> i32 {
    match filter {
        Filter::Nearest => 0,
        Filter::Linear => 1,
    }
}

/// The Vulkan number of an address mode.
pub open spec fn address_code(mode: AddressMode) -> i32 {
    match mode {
        AddressMode::Repeat => 0,
        AddressMode::MirroredRepeat => 1,
        AddressMode::ClampToEdge => 2,
    }
}

/// The Vulkan number of a comparison.
pub open spec fn compare_code(compare: CompareOp) -> i32 {
    match compare {
        CompareOp::Never => 0,
        CompareOp::Less => 1,
        CompareOp::Equal => 2,
        CompareOp::LessEqual => 3,
        CompareOp::Greater => 4,
        CompareOp::NotEqual => 5,
        CompareOp::GreaterEqual => 6,
        CompareOp::Always => 7,
    }
}

fn filter_number(filter: Filter) -> (r: i32)
    ensures
        r == filter_code(filter),
{
    match filter {
        Filter::Nearest => 0,
        Filter::Linear => 1,
    }
}

fn address_number(mode: AddressMode) -> (r: i32)
    ensures
        r == address_code(mode),
{
    match mode {
        AddressMode::Repeat => 0,
        AddressMode::MirroredRepeat => 1,
        AddressMode::ClampToEdge => 2,
    }
}

/// The Vulkan number of a comparison.
pub fn compare_number(compare: CompareOp) -> (r: i32)
    ensures
        r == compare_code(compare),
{
    match compare {
        CompareOp::Never => 0,
        CompareOp::Less => 1,
        CompareOp::Equal => 2,
        CompareOp::LessEqual => 3,
        CompareOp::Greater => 4,
        CompareOp::NotEqual => 5,
        CompareOp::GreaterEqual => 6,
        CompareOp::Always => 7,
    }
}

/// The sampler that a description asks for.
pub open spec fn spec_sampler(state: DeviceState, desc: SamplerDesc) -> Result<
    SamplerPlan,
    Problem,
> {
    if desc.anisotropic && !state.caps.sampler_anisotropy {
        error::lacking("samplerAnisotropy"@)
    } else {
        Ok(
            SamplerPlan {
                min_filter: filter_code(desc.min_filter),
                mag_filter: filter_code(desc.mag_filter),
                mipmap_mode: filter_code(desc.mip_filter),
                address_u: address_code(desc.address_u),
                address_v: address_code(desc.address_v),
                address_w: address_code(desc.address_w),
                anisotropic: desc.anisotropic,
                max_anisotropy: state.caps.max_sampler_anisotropy,
                compare_enabled: desc.compare_enabled,
                compare_op: compare_code(desc.compare),
            },
        )
    }
}

/// Plans a sampler.
pub fn create_sampler(state: &DeviceState, desc: &SamplerDesc) -> (r: Result<SamplerPlan, GpuError>)
    ensures
        error::outcome(r) == spec_sampler(*state, *desc),
{
    if desc.anisotropic && !state.caps.sampler_anisotropy {
        return Err(unsupported("samplerAnisotropy"));
    }
    Ok(
        SamplerPlan {
            min_filter: filter_number(desc.min_filter),
            mag_filter: filter_number(desc.mag_filter),
            mipmap_mode: filter_number(desc.mip_filter),
            address_u: address_number(desc.address_u),
            address_v: address_number(desc.address_v),
            address_w: address_number(desc.address_w),
            anisotropic: desc.anisotropic,
            max_anisotropy: state.caps.max_sampler_anisotropy,
            compare_enabled: desc.compare_enabled,
            compare_op: compare_number(desc.compare),
        },
    )
}

/// Samplers need their own owner because descriptor bytes do not own driver objects.
pub struct Sampler {
    pub state: Rc<DeviceState>,
    /// The driver's handle of the sampler.
    pub raw: u64,
}

// ---------------------------------------------------------------------------
// Descriptors
// ---------------------------------------------------------------------------

/// A descriptor of a texture to write.
#[derive(Debug, Clone, Copy, PartialEq, Eq, Structural)]
pub struct TextureDescriptorWrite {
    /// The descriptor set: zero for sampled images, one for storage images.
    pub set: usize,
    pub layout: TextureLayout,
    pub slot: HeapSpan,
}

/// The descriptor of a view in a slot of a heap.
pub open spec fn spec_texture_descriptor(heap: HeapModel, index: u32, view: ViewModel) -> Result<
    TextureDescriptorWrite,
    Problem,
> {
    match heap.descriptor_set {
        Some(set) if set <= 1 => {
            let usage = if set == 0 {
                TextureUsage::SAMPLED()
            } else {
                TextureUsage::STORAGE()
            };
            let subresources = view.plan.subresources;
            if heap.state.id != view.texture.state.id {
                error::refused("resources belong to different devices")
            } else if index >= heap.state.caps.descriptor_count {
                error::refused("descriptor index out of bounds")
            } else if !view.texture.desc.usage.has_all(usage)
                || !subresources.aspect_mask.spec_single() {
                error::refused("descriptor view usage/aspect is incompatible")
            } else if set == 1 && subresources.level_count != 1 {
                error::refused("storage image views need exactly one mip level")
            } else {
                match heap::descriptor_span(heap, set as int, index) {
                    Err(problem) => Err(problem),
                    Ok(slot) => Ok(
                        TextureDescriptorWrite {
                            set,
                            layout: if set == 0 {
                                TextureLayout::Sampled
                            } else {
                                TextureLayout::General
                            },
                            slot,
                        },
                    ),
                }
            }
        },
        _ => error::refused("not a texture descriptor heap"),
    }
}

/// Plans a descriptor write. Sampled depth/stencil views must select exactly one
/// aspect, and storage views exactly one level.
pub fn write_texture_descriptor(heap: &GpuHeap, index: u32, view: &RenderView) -> (r: Result<
    TextureDescriptorWrite,
    GpuError,
>)
    ensures
        error::outcome(r) == spec_texture_descriptor(heap@, index, view@),
{
    let set: usize = match heap.descriptor_set() {
        Some(set) if set <= 1 => set,
        _ => return Err(GpuError::InvalidArgument("not a texture descriptor heap")),
    };
    if !same_device(heap.state(), view.texture().state()) {
        return Err(GpuError::InvalidArgument("resources belong to different devices"));
    }
    if index >= heap.state().caps.descriptor_count {
        return Err(GpuError::InvalidArgument("descriptor index out of bounds"));
    }
    let usage = if set == 0 {
        TextureUsage::SAMPLED()
    } else {
        TextureUsage::STORAGE()
    };
    let subresources = view.plan().subresources;
    if !view.texture().description().usage.contains(usage)
        || !subresources.aspect_mask.is_single() {
        return Err(GpuError::InvalidArgument("descriptor view usage/aspect is incompatible"));
    }
    if set == 1 && subresources.level_count != 1 {
        return Err(GpuError::InvalidArgument("storage image views need exactly one mip level"));
    }
    let slot = descriptor_slot(heap, set, index)?;
    let layout = if set == 0 {
        TextureLayout::Sampled
    } else {
        TextureLayout::General
    };
    Ok(TextureDescriptorWrite { set, layout, slot })
}

/// The descriptor of a sampler in a slot of a heap.
pub open spec fn spec_sampler_descriptor(heap: HeapModel, index: u32, sampler: Sampler) -> Result<
    HeapSpan,
    Problem,
> {
    if heap.descriptor_set != Some(2usize) || index >= heap.state.caps.descriptor_count
        || heap.state.id != sampler.state.id {
        error::refused("sampler descriptor heap, index or device mismatch")
    } else {
        heap::descriptor_span(heap, 2, index)
    }
}

/// Plans a sampler descriptor write.
pub fn write_sampler_descriptor(heap: &GpuHeap, index: u32, sampler: &Sampler) -> (r: Result<
    HeapSpan,
    GpuError,
>)
    ensures
        error::outcome(r) == spec_sampler_descriptor(heap@, index, *sampler),
{
    let sampler_heap = match heap.descriptor_set() {
        Some(set) => set == 2,
        None => false,
    };
    if !sampler_heap || index >= heap.state().caps.descriptor_count || !same_device(
        heap.state(),
        &sampler.state,
    ) {
        return Err(
            GpuError::InvalidArgument("sampler descriptor heap, index or device mismatch"),
        );
    }
    descriptor_slot(heap, 2, index)
}

// ---------------------------------------------------------------------------
// Laws
// ---------------------------------------------------------------------------

/// The levels and layers of every view exist in its texture, and its parts in its
/// format.
pub proof fn views_stay_in_the_texture(
    source: TextureDesc,
    desc: TextureDescriptorDesc,
    plan: ViewPlan,
)
    requires
        spec_view(source, desc) == Ok::<_, Problem>(plan),
    ensures
        ({
            let range = plan.subresources;
            let whole = ImageAspect::of_format(plan.format);
            &&& range.level_count > 0
            &&& range.layer_count > 0
            &&& range.base_mip_level + range.level_count <= source.mip_levels
            &&& range.base_array_layer + range.layer_count <= source.layer_count
            &&& range.aspect_mask.color ==> whole.color
            &&& range.aspect_mask.depth ==> whole.depth
            &&& range.aspect_mask.stencil ==> whole.stencil
            &&& plan.extent.x > 0
            &&& plan.extent.y > 0
        }),
{
}

/// An attachment view shows one level and one layer of a flat texture, in the
/// format of the texture.
pub proof fn attachment_views_are_flat(source: TextureDesc, desc: RenderViewDesc, plan: ViewPlan)
    requires
        spec_render_view(source, desc) == Ok::<_, Problem>(plan),
    ensures
        plan.subresources.level_count == 1,
        plan.subresources.layer_count == 1,
        plan.view_type == ViewType::TwoD,
        plan.format == source.format,
{
}

/// A descriptor shows one part of its texture, in the layout of its kind, for a use
/// that the texture was created for. One for storage shows a single level.
pub proof fn texture_descriptors_fit_their_views(
    heap: HeapModel,
    index: u32,
    view: ViewModel,
    write: TextureDescriptorWrite,
)
    requires
        spec_texture_descriptor(heap, index, view) == Ok::<_, Problem>(write),
    ensures
        view.plan.subresources.aspect_mask.spec_single(),
        write.set == 0 ==> write.layout == TextureLayout::Sampled
            && view.texture.desc.usage.has_all(TextureUsage::SAMPLED()),
        write.set != 0 ==> write.layout == TextureLayout::General
            && view.texture.desc.usage.has_all(TextureUsage::STORAGE())
            && view.plan.subresources.level_count == 1,
        heap.descriptor_set == Some(write.set),
        write.slot.offset + write.slot.size <= heap.size,
{
}

} // verus!
