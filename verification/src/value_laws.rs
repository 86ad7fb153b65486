//! What formats, sets of flags and texts stand for.

use crate::flags;
use crate::flags::{Access, Stage, TextureUsage};
use crate::format::{Format, TextureFormatInfo};
use crate::text;
use crate::types::{
    BlendState, ClearColor, DepthStencilState, RasterizationState, RenderViewDesc, SamplerDesc,
    Scissor, StencilFaceState, TextureCopyDesc, TextureDesc, TextureDescriptorDesc, TextureLayout,
};
use vstd::prelude::*;

verus! {

/// The bytes of a block of the formats that Vulkan numbers in one group.
pub open spec fn group_bytes(code: int) -> int {
    if code == 0 {
        0
    } else if 9 <= code <= 15 || code == 127 {
        1
    } else if 2 <= code <= 8 || 16 <= code <= 22 || 70 <= code <= 76 || code == 124 {
        2
    } else if 37 <= code <= 69 || 77 <= code <= 83 || 98 <= code <= 100 || 122 <= code <= 126 || code
        == 129 {
        4
    } else if 91 <= code <= 97 || 101 <= code <= 103 || code == 130 {
        8
    } else if 104 <= code <= 106 {
        12
    } else {
        16
    }
}

/// Vulkan numbers formats of one size side by side, then those with depth and stencil, then
/// the compressed ones, whose blocks are four texels wide and high.
pub proof fn formats_lie_in_their_group(format: Format, code: i32, r: TextureFormatInfo)
    requires
        call_ensures(Format::code, (format,), code),
        call_ensures(TextureFormatInfo::get_texture_format_info, (format,), r),
    ensures
        code == 0 <==> format is Undefined,
        r.bytes_per_block == group_bytes(code as int),
        r.depth <==> 124 <= code <= 126 || 128 <= code <= 130,
        r.stencil <==> 127 <= code <= 130,
        r.block_extent.x == r.block_extent.y,
        r.block_extent.x == (if code == 0 {
            0int
        } else if 131 <= code <= 184 {
            4
        } else {
            1
        }),
{
}

/// Vulkan numbers sRGB formats last in each group of eight-bit channels, and right behind the
/// plain format in each compressed group.
pub proof fn srgb_formats_follow_their_plain_format(plain: Format, srgb: Format)
    requires
        plain is R8Unorm && srgb is R8Srgb || plain is Rg8Unorm && srgb is Rg8Srgb
            || plain is Rgba8Unorm && srgb is Rgba8Srgb || plain is Bgra8Unorm && srgb is Bgra8Srgb
            || plain is Bc3Unorm && srgb is Bc3Srgb || plain is Bc7Unorm && srgb is Bc7Srgb
            || plain is Astc4x4Unorm && srgb is Astc4x4Srgb,
    ensures
        srgb.spec_code() == plain.spec_code() + if srgb.compressed() {
            1int
        } else {
            6
        },
        srgb.block_bytes() == plain.block_bytes(),
{
}

/// Each stage of a set is given to Vulkan under its bits, and nothing else is.
pub proof fn stages_have_their_bits(stage: Stage, r: u64)
    requires
        call_ensures(flags::stage_mask_bits, (stage,), r),
    ensures
        r & 0x2 != 0 <==> stage.has_any(Stage::INDIRECT()),
        r & 0x10_0000_0000 != 0 <==> stage.has_any(Stage::INDEX_INPUT()),
        r & 0x8 != 0 <==> stage.has_any(Stage::VERTEX()),
        r & 0x10_0000 != 0 <==> stage.has_any(Stage::MESH()),
        r & 0x100 != 0 <==> stage.has_any(Stage::DEPTH_STENCIL_TESTS()),
        r & 0x200 != 0 <==> stage.has_any(Stage::DEPTH_STENCIL_TESTS()),
        r & 0x80 != 0 <==> stage.has_any(Stage::FRAGMENT()),
        r & 0x400 != 0 <==> stage.has_any(Stage::COLOR_OUTPUT()),
        r & 0x800 != 0 <==> stage.has_any(Stage::COMPUTE()),
        r & 0x1000 != 0 <==> stage.has_any(Stage::TRANSFER()),
        r & 0x4000 != 0 <==> stage.has_any(Stage::HOST()),
        r & 0x1_0000 != 0 <==> stage.has_any(Stage::ALL_COMMANDS()),
        r & 0x10_0011_5f8a == r,
{
    let bits = stage.0;
    assert({
        let m = flags::stage_mask(Stage(bits));
        &&& (m & 0x2 != 0) == (bits & 0x40 != 0)
        &&& (m & 0x10_0000_0000 != 0) == (bits & 0x80 != 0)
        &&& (m & 0x8 != 0) == (bits & 0x02 != 0)
        &&& (m & 0x10_0000 != 0) == (bits & 0x200 != 0)
        &&& (m & 0x100 != 0) == (bits & 0x100 != 0)
        &&& (m & 0x200 != 0) == (bits & 0x100 != 0)
        &&& (m & 0x80 != 0) == (bits & 0x04 != 0)
        &&& (m & 0x400 != 0) == (bits & 0x10 != 0)
        &&& (m & 0x800 != 0) == (bits & 0x08 != 0)
        &&& (m & 0x1000 != 0) == (bits & 0x01 != 0)
        &&& (m & 0x4000 != 0) == (bits & 0x20 != 0)
        &&& (m & 0x1_0000 != 0) == (bits & 0x400 != 0)
        &&& m & 0x10_0011_5f8a == m
    }) by (bit_vector);
}

/// Each access of a set is given to Vulkan under its bit, and nothing else is.
pub proof fn accesses_have_their_bits(access: Access, r: u64)
    requires
        call_ensures(flags::access_mask_bits, (access,), r),
    ensures
        r & 0x800 != 0 <==> access.has_any(Access::TRANSFER_READ()),
        r & 0x1000 != 0 <==> access.has_any(Access::TRANSFER_WRITE()),
        r & 0x20 != 0 <==> access.has_any(Access::SHADER_READ()),
        r & 0x40 != 0 <==> access.has_any(Access::SHADER_WRITE()),
        r & 0x80 != 0 <==> access.has_any(Access::COLOR_READ()),
        r & 0x100 != 0 <==> access.has_any(Access::COLOR_WRITE()),
        r & 0x200 != 0 <==> access.has_any(Access::DEPTH_STENCIL_READ()),
        r & 0x400 != 0 <==> access.has_any(Access::DEPTH_STENCIL_WRITE()),
        r & 0x1 != 0 <==> access.has_any(Access::INDIRECT_READ()),
        r & 0x2 != 0 <==> access.has_any(Access::INDEX_READ()),
        r & 0x2000 != 0 <==> access.has_any(Access::HOST_READ()),
        r & 0x4000 != 0 <==> access.has_any(Access::HOST_WRITE()),
        r & 0x200_0000_0000 != 0 <==> access.has_any(Access::DESCRIPTOR_READ()),
        r & 0x200_0000_7fe3 == r,
{
    let bits = access.0;
    assert({
        let m = flags::access_mask(Access(bits));
        &&& (m & 0x800 != 0) == (bits & 0x01 != 0)
        &&& (m & 0x1000 != 0) == (bits & 0x02 != 0)
        &&& (m & 0x20 != 0) == (bits & 0x04 != 0)
        &&& (m & 0x40 != 0) == (bits & 0x08 != 0)
        &&& (m & 0x80 != 0) == (bits & 0x10 != 0)
        &&& (m & 0x100 != 0) == (bits & 0x20 != 0)
        &&& (m & 0x200 != 0) == (bits & 0x40 != 0)
        &&& (m & 0x400 != 0) == (bits & 0x80 != 0)
        &&& (m & 0x1 != 0) == (bits & 0x100 != 0)
        &&& (m & 0x2 != 0) == (bits & 0x200 != 0)
        &&& (m & 0x2000 != 0) == (bits & 0x400 != 0)
        &&& (m & 0x4000 != 0) == (bits & 0x1000 != 0)
        &&& (m & 0x200_0000_0000 != 0) == (bits & 0x800 != 0)
        &&& m & 0x200_0000_7fe3 == m
    }) by (bit_vector);
}

/// Each use of a texture is given to Vulkan under its bit, and nothing else is.
pub proof fn usages_have_their_bits(usage: TextureUsage, r: u32)
    requires
        call_ensures(flags::image_usage, (usage,), r),
    ensures
        r & 0x4 != 0 <==> usage.has_any(TextureUsage::SAMPLED()),
        r & 0x8 != 0 <==> usage.has_any(TextureUsage::STORAGE()),
        r & 0x10 != 0 <==> usage.has_any(TextureUsage::COLOR_ATTACHMENT()),
        r & 0x20 != 0 <==> usage.has_any(TextureUsage::DEPTH_STENCIL_ATTACHMENT()),
        r & 0x1 != 0 <==> usage.has_any(TextureUsage::TRANSFER_SOURCE()),
        r & 0x2 != 0 <==> usage.has_any(TextureUsage::TRANSFER_DESTINATION()),
        r & 0x3f == r,
{
    let bits = usage.0;
    assert({
        let m = flags::usage_mask(TextureUsage(bits));
        &&& (m & 0x4 != 0) == (bits & 0x01 != 0)
        &&& (m & 0x8 != 0) == (bits & 0x02 != 0)
        &&& (m & 0x10 != 0) == (bits & 0x04 != 0)
        &&& (m & 0x20 != 0) == (bits & 0x08 != 0)
        &&& (m & 0x1 != 0) == (bits & 0x10 != 0)
        &&& (m & 0x2 != 0) == (bits & 0x20 != 0)
        &&& m & 0x3f == m
    }) by (bit_vector);
}

/// Layouts are given to Vulkan under their numbers.
pub proof fn layouts_have_their_numbers(layout: TextureLayout, r: i32)
    requires
        call_ensures(TextureLayout::code, (layout,), r),
    ensures
        r == 0 <==> layout is Undefined,
        r == 1 <==> layout is General,
        r == 2 <==> layout is ColorAttachment,
        r == 3 <==> layout is DepthStencilAttachment,
        r == 5 <==> layout is Sampled,
        r == 6 <==> layout is TransferSource,
        r == 7 <==> layout is TransferDestination,
        r == 1_000_001_002 <==> layout is Present,
{
}

/// The integers of a clear value stand unchanged in its four places, in their order.
pub proof fn clear_integers_are_kept(value: [u32; 4], r: ClearColor)
    requires
        call_ensures(ClearColor::from_uint, (value,), r),
    ensures
        r.x.0 == value@[0] && r.y.0 == value@[1] && r.z.0 == value@[2] && r.w.0 == value@[3],
{
}

/// What is not described otherwise is plain: one flat sampled texel, all of a texture, linear
/// repeated sampling, nothing culled, tested or blended, and opaque black.
pub proof fn plain_descriptions_ask_for_little(
    texture: TextureDesc,
    target: RenderViewDesc,
    view: TextureDescriptorDesc,
    copy: TextureCopyDesc,
    sampler: SamplerDesc,
    blend: BlendState,
    raster: RasterizationState,
    face: StencilFaceState,
    depth: DepthStencilState,
    clear: ClearColor,
    scissor: Scissor,
)
    requires
        call_ensures(TextureDesc::default, (), texture),
        call_ensures(RenderViewDesc::default, (), target),
        call_ensures(TextureDescriptorDesc::default, (), view),
        call_ensures(TextureCopyDesc::default, (), copy),
        call_ensures(SamplerDesc::default, (), sampler),
        call_ensures(BlendState::default, (), blend),
        call_ensures(RasterizationState::default, (), raster),
        call_ensures(StencilFaceState::default, (), face),
        call_ensures(DepthStencilState::default, (), depth),
        call_ensures(ClearColor::default, (), clear),
        call_ensures(Scissor::default, (), scissor),
    ensures
        texture.texture_type is TwoD && texture.mip_levels == 1 && texture.layer_count == 1,
        texture.extent.x == 1 && texture.extent.y == 1 && texture.extent.z == 1,
        texture.format is Rgba8Unorm && !texture.mutable_format && texture.usage.0 == 1,
        target.mip_level == 0 && target.slice == 0,
        view.format is Undefined && view.aspect is Automatic,
        view.base_mip == 0 && view.mip_count == 0 && view.base_layer == 0 && view.layer_count == 0,
        copy.mip_level == 0 && copy.base_slice == 0 && copy.slice_count == 0,
        copy.row_pitch_bytes == 0 && copy.slice_pitch_bytes == 0,
        copy.offset.x == 0 && copy.offset.y == 0 && copy.offset.z == 0,
        copy.extent.x == 0 && copy.extent.y == 0 && copy.extent.z == 0,
        sampler.min_filter is Linear && sampler.mag_filter is Linear && sampler.mip_filter
            is Linear,
        sampler.address_u is Repeat && sampler.address_v is Repeat && sampler.address_w is Repeat,
        !sampler.anisotropic && !sampler.compare_enabled,
        !blend.enabled,
        raster.cull is Disabled && raster.depth_bias_constant.0 == 0,
        raster.depth_bias_clamp.0 == 0 && raster.depth_bias_slope.0 == 0,
        face.compare is Always && face.reference == 0,
        face.fail is Keep && face.pass is Keep && face.depth_fail is Keep,
        !depth.depth_test && !depth.depth_write && !depth.stencil_test,
        depth.stencil_read_mask == 0xff && depth.stencil_write_mask == 0xff,
        depth.front == face && depth.back == face,
        clear.x.0 == 0 && clear.y.0 == 0 && clear.z.0 == 0 && clear.w.0 == 0x3f80_0000,
        scissor.x == 0 && scissor.y == 0 && scissor.width == 1 && scissor.height == 1,
{
}

/// The number that decimal digits stand for.
pub open spec fn digits_value(digits: Seq<char>) -> int
    decreases digits.len(),
{
    if digits.len() == 0 {
        0
    } else {
        10 * digits_value(digits.drop_last()) + (digits.last() as int - '0' as int)
    }
}

proof fn digits_stand_for(value: nat)
    ensures
        digits_value(text::decimal_text(value)) == value,
        text::decimal_text(value).len() > 0,
        forall|i: int|
            0 <= i < text::decimal_text(value).len() ==> '0' <= #[trigger] text::decimal_text(
                value,
            )[i] <= '9',
        value > 0 ==> text::decimal_text(value)[0] != '0',
    decreases value,
{
    let digits = text::decimal_text(value);
    if value < 10 {
        assert(digits.drop_last() =~= Seq::<char>::empty());
        assert(digits_value(digits.drop_last()) == 0);
    } else {
        digits_stand_for(value / 10);
        assert(digits.drop_last() =~= text::decimal_text(value / 10));
    }
}

/// A number is written in decimal digits that stand for it, without leading zeros.
pub proof fn numbers_are_written_in_digits(value: u32, r: String)
    requires
        call_ensures(text::decimal, (value,), r),
    ensures
        digits_value(r@) == value,
        r@.len() > 0,
        forall|i: int| 0 <= i < r@.len() ==> '0' <= #[trigger] r@[i] <= '9',
        value > 0 ==> r@[0] != '0',
{
    digits_stand_for(value as nat);
}

/// Joined texts start with the first text and end with the last. One text more is joined to
/// the others with a separator before it.
pub proof fn joined_texts_grow_by_one(
    parts: &Vec<String>,
    separator: &str,
    r: String,
    more: &Vec<String>,
    last: String,
    longer: String,
)
    requires
        parts@.len() > 0,
        more@ == parts@.push(last),
        call_ensures(text::join, (parts, separator), r),
        call_ensures(text::join, (more, separator), longer),
    ensures
        longer@ == r@ + separator@ + last@,
        parts@.len() == 1 ==> r@ == parts@[0]@,
{
    assert(text::texts(more@).drop_last() =~= text::texts(parts@));
}

/// A text in front of another keeps both.
pub proof fn texts_follow_each_other(first: &str, second: &str, r: String)
    requires
        call_ensures(text::concat, (first, second), r),
    ensures
        r@.len() == first@.len() + second@.len(),
        forall|i: int| 0 <= i < first@.len() ==> r@[i] == #[trigger] first@[i],
        forall|i: int|
            0 <= i < second@.len() ==> r@[first@.len() + i] == #[trigger] second@[i],
{
}

/// A name is found exactly if one of the names is equal to it.
pub proof fn names_are_found(names: &Vec<String>, name: &str, r: bool)
    requires
        call_ensures(text::contains_name, (names, name), r),
    ensures
        r <==> exists|i: int| 0 <= i < names@.len() && (#[trigger] names@[i])@ == name@,
{
    let all = text::texts(names@);
    if r {
        let index = choose|i: int| 0 <= i < all.len() && all[i] == name@;
        assert(names@[index]@ == name@);
    }
    if exists|i: int| 0 <= i < names@.len() && (#[trigger] names@[i])@ == name@ {
        let index = choose|i: int| 0 <= i < names@.len() && (#[trigger] names@[i])@ == name@;
        assert(all[index] == name@);
    }
}

} // verus!
