//! Copies between buffers and textures.

use crate::error;
use crate::error::{GpuError, Problem};
use crate::format::{Format, TextureFormatInfo};
use crate::types::{ImageAspect, TextureAspect, TextureCopyDesc, TextureDesc, U32x3};
use vstd::arithmetic::div_mod::*;
use vstd::arithmetic::mul::*;
use vstd::prelude::*;

verus! {

/// The subresources that a copy touches.
#[derive(Debug, Clone, Copy, PartialEq, Eq, Structural)]
pub struct ImageSubresourceLayers {
    pub aspect_mask: ImageAspect,
    pub mip_level: u32,
    pub base_array_layer: u32,
    pub layer_count: u32,
}

/// The first texel of a copy.
#[derive(Debug, Clone, Copy, PartialEq, Eq, Structural)]
pub struct Offset3D {
    pub x: i32,
    pub y: i32,
    pub z: i32,
}

/// The size of a copy in texels.
#[derive(Debug, Clone, Copy, PartialEq, Eq, Structural)]
pub struct Extent3D {
    pub width: u32,
    pub height: u32,
    pub depth: u32,
}

/// One copy between a buffer and an image. The row length and the image height
/// are counted in texels.
#[derive(Debug, Clone, Copy, PartialEq, Eq, Structural)]
pub struct BufferImageCopy {
    pub buffer_offset: u64,
    pub buffer_row_length: u32,
    pub buffer_image_height: u32,
    pub image_subresource: ImageSubresourceLayers,
    pub image_offset: Offset3D,
    pub image_extent: Extent3D,
}

/// One side of a mip level: halved once per level, and never less than one.
pub open spec fn mip_side(side: u32, level: u32) -> u32 {
    if side >> level == 0 {
        1
    } else {
        side >> level
    }
}

/// The size of a mip level.
pub open spec fn mip_extent(extent: U32x3, level: u32) -> U32x3 {
    U32x3 {
        x: mip_side(extent.x, level),
        y: mip_side(extent.y, level),
        z: mip_side(extent.z, level),
    }
}

/// A requested amount, where zero stands for all that remains.
pub open spec fn or_rest(requested: u32, total: u32, start: u32) -> u32 {
    if requested == 0 {
        (total - start) as u32
    } else {
        requested
    }
}

/// The requested size of a copy.
pub open spec fn copy_extent(desc: TextureCopyDesc, mip: U32x3) -> U32x3 {
    U32x3 {
        x: or_rest(desc.extent.x, mip.x, desc.offset.x),
        y: or_rest(desc.extent.y, mip.y, desc.offset.y),
        z: or_rest(desc.extent.z, mip.z, desc.offset.z),
    }
}

/// The single part of the image that a copy touches.
pub open spec fn copy_aspect(aspect: TextureAspect, format: Format) -> Result<
    ImageAspect,
    Problem,
> {
    let color = ImageAspect { color: true, depth: false, stencil: false };
    let depth = ImageAspect { color: false, depth: true, stencil: false };
    let stencil = ImageAspect { color: false, depth: false, stencil: true };
    let plain = !format.has_depth() && !format.has_stencil();
    match aspect {
        TextureAspect::Automatic => if format.has_depth() && format.has_stencil() {
            error::refused("select Depth or Stencil for combined formats")
        } else if format.has_depth() {
            Ok(depth)
        } else if format.has_stencil() {
            Ok(stencil)
        } else {
            Ok(color)
        },
        TextureAspect::Color if plain => Ok(color),
        TextureAspect::Depth if format.has_depth() => Ok(depth),
        TextureAspect::Stencil if format.has_stencil() => Ok(stencil),
        _ => error::refused("copy aspect incompatible with texture"),
    }
}

/// The bytes of one block of the touched part.
pub open spec fn aspect_bytes(format: Format, aspect: ImageAspect) -> int {
    if aspect.stencil {
        1
    } else if format.has_depth() {
        if format is D16Unorm {
            2
        } else {
            4
        }
    } else {
        format.block_bytes() as int
    }
}

/// A quotient, rounded up.
pub open spec fn ceil_div(value: int, divisor: int) -> int {
    (value + divisor - 1) / divisor
}

/// How a copy lies in the buffer, in bytes and blocks.
pub struct CopyLayout {
    pub row_bytes: int,
    pub rows: int,
    pub row_pitch: int,
    pub slice_pitch: int,
}

/// Offsets and sizes fall on whole blocks, but for the last blocks of a mip level,
/// and the buffer offset is aligned.
pub open spec fn copy_aligned(
    offset: U32x3,
    extent: U32x3,
    mip: U32x3,
    side: int,
    bytes: int,
    buffer_offset: u64,
) -> bool {
    &&& offset.x as int % side == 0
    &&& offset.y as int % side == 0
    &&& extent.x as int % side == 0 || offset.x + extent.x == mip.x
    &&& extent.y as int % side == 0 || offset.y + extent.y == mip.y
    &&& buffer_offset as int % bytes == 0
    &&& buffer_offset as int % 4 == 0
}

/// The pitches of a copy, which must hold a row and a slice.
pub open spec fn copy_layout(
    desc: TextureCopyDesc,
    extent: U32x3,
    side: int,
    bytes: int,
) -> Result<CopyLayout, Problem> {
    let row_bytes = ceil_div(extent.x as int, side) * bytes;
    let rows = ceil_div(extent.y as int, side);
    let row_pitch = if desc.row_pitch_bytes == 0 {
        row_bytes
    } else {
        desc.row_pitch_bytes as int
    };
    let minimum_slice = row_pitch * rows;
    let slice_pitch = if desc.slice_pitch_bytes == 0 {
        minimum_slice
    } else {
        desc.slice_pitch_bytes as int
    };
    if row_pitch < row_bytes || row_pitch % bytes != 0 {
        error::refused("row pitch is too small or not block aligned")
    } else if minimum_slice > u64::MAX {
        error::refused("copy pitch overflow")
    } else if slice_pitch < minimum_slice || slice_pitch % row_pitch != 0 {
        error::refused("slice pitch is too small or not a multiple of row pitch")
    } else if (row_pitch / bytes) * side > u64::MAX {
        error::refused("row length overflow")
    } else if (slice_pitch / row_pitch) * side > u64::MAX {
        error::refused("image height overflow")
    } else if (row_pitch / bytes) * side > u32::MAX || (slice_pitch / row_pitch) * side > u32::MAX
        || row_pitch > i32::MAX {
        error::refused("copy pitch exceeds Vulkan limits")
    } else {
        Ok(CopyLayout { row_bytes, rows, row_pitch, slice_pitch })
    }
}

/// The bytes from the first to the last texel of a copy. Padding after the last
/// row does not count.
pub open spec fn copy_size(layout: CopyLayout, slices: int) -> int {
    layout.slice_pitch * (slices - 1) + layout.row_pitch * (layout.rows - 1) + layout.row_bytes
}

/// The copy that a description asks for.
pub open spec fn spec_copy_region(
    texture: TextureDesc,
    desc: TextureCopyDesc,
    aspect: TextureAspect,
    buffer_offset: u64,
    buffer_size: u64,
) -> Result<BufferImageCopy, Problem> {
    let mip = mip_extent(texture.extent, desc.mip_level);
    let offset = desc.offset;
    let extent = copy_extent(desc, mip);
    let layers = or_rest(desc.slice_count, texture.layer_count, desc.base_slice);
    if desc.mip_level >= texture.mip_levels || desc.base_slice >= texture.layer_count {
        error::refused("copy subresource out of bounds")
    } else if offset.x >= mip.x || offset.y >= mip.y || offset.z >= mip.z {
        error::refused("copy offset out of bounds")
    } else if offset.x + extent.x > mip.x || offset.y + extent.y > mip.y || offset.z + extent.z
        > mip.z {
        error::refused("copy extent out of bounds")
    } else if offset.x > i32::MAX || offset.y > i32::MAX || offset.z > i32::MAX {
        error::refused("copy offsets exceed signed coordinate bounds")
    } else if desc.base_slice + layers > texture.layer_count {
        error::refused("copy layers out of bounds")
    } else {
        match copy_aspect(aspect, texture.format) {
            Err(problem) => Err(problem),
            Ok(mask) => {
                let side = texture.format.block_side() as int;
                let bytes = aspect_bytes(texture.format, mask);
                if texture.format is Undefined {
                    error::refused("undefined copy format")
                } else if !copy_aligned(offset, extent, mip, side, bytes, buffer_offset) {
                    error::refused(
                        "copy needs block-aligned offsets/extent and aligned buffer offset",
                    )
                } else {
                    match copy_layout(desc, extent, side, bytes) {
                        Err(problem) => Err(problem),
                        Ok(layout) => if copy_size(layout, layers * extent.z) > u64::MAX {
                            error::refused("copy size overflow")
                        } else if copy_size(layout, layers * extent.z) > buffer_size {
                            error::refused("buffer range is too small for pitched copy")
                        } else {
                            Ok(
                                BufferImageCopy {
                                    buffer_offset,
                                    buffer_row_length: ((layout.row_pitch / bytes) * side) as u32,
                                    buffer_image_height: ((layout.slice_pitch / layout.row_pitch)
                                        * side) as u32,
                                    image_subresource: ImageSubresourceLayers {
                                        aspect_mask: mask,
                                        mip_level: desc.mip_level,
                                        base_array_layer: desc.base_slice,
                                        layer_count: layers,
                                    },
                                    image_offset: Offset3D {
                                        x: offset.x as i32,
                                        y: offset.y as i32,
                                        z: offset.z as i32,
                                    },
                                    image_extent: Extent3D {
                                        width: extent.x,
                                        height: extent.y,
                                        depth: extent.z,
                                    },
                                },
                            )
                        },
                    }
                }
            },
        }
    }
}

fn halve(side: u32, level: u32) -> (r: u32)
    requires
        level < 32,
    ensures
        r == mip_side(side, level),
        r >= 1,
{
    let halved: u32 = side >> level;
    if halved == 0 {
        1
    } else {
        halved
    }
}

fn rest(requested: u32, total: u32, start: u32) -> (r: u32)
    requires
        start < total,
    ensures
        r == or_rest(requested, total, start),
        r >= 1,
{
    if requested == 0 {
        total - start
    } else {
        requested
    }
}

fn round_up_div(value: u32, divisor: u32) -> (r: u64)
    requires
        0 < divisor <= 4,
        value > 0,
    ensures
        r == ceil_div(value as int, divisor as int),
        1 <= r <= value,
{
    let value: u64 = value as u64;
    let divisor: u64 = divisor as u64;
    proof {
        assert(1 <= (value + divisor - 1) / divisor as int <= value) by (nonlinear_arith)
            requires
                0 < divisor <= 4,
                value > 0,
        ;
    }
    (value + divisor - 1) / divisor
}

fn select_aspect(aspect: TextureAspect, format: Format) -> (r: Result<ImageAspect, GpuError>)
    ensures
        error::outcome(r) == copy_aspect(aspect, format),
{
    let info = TextureFormatInfo::get_texture_format_info(format);
    let color = ImageAspect { color: true, depth: false, stencil: false };
    let depth = ImageAspect { color: false, depth: true, stencil: false };
    let stencil = ImageAspect { color: false, depth: false, stencil: true };
    match aspect {
        TextureAspect::Automatic => if info.depth && info.stencil {
            Err(GpuError::InvalidArgument("select Depth or Stencil for combined formats"))
        } else if info.depth {
            Ok(depth)
        } else if info.stencil {
            Ok(stencil)
        } else {
            Ok(color)
        },
        TextureAspect::Color if !info.depth && !info.stencil => Ok(color),
        TextureAspect::Depth if info.depth => Ok(depth),
        TextureAspect::Stencil if info.stencil => Ok(stencil),
        _ => Err(GpuError::InvalidArgument("copy aspect incompatible with texture")),
    }
}

fn count_bytes(format: Format, aspect: ImageAspect) -> (r: u64)
    ensures
        r == aspect_bytes(format, aspect),
        r <= 16,
        !(format is Undefined) ==> r > 0,
{
    let info = TextureFormatInfo::get_texture_format_info(format);
    if aspect.stencil {
        1
    } else if info.depth {
        if format == Format::D16Unorm {
            2
        } else {
            4
        }
    } else {
        info.bytes_per_block as u64
    }
}

/// The pitches of a copy as they are handed to the driver.
struct Pitches {
    row_bytes: u64,
    rows: u64,
    row_pitch: u64,
    slice_pitch: u64,
    row_length: u32,
    image_height: u32,
}

impl Pitches {
    spec fn layout(self) -> CopyLayout {
        CopyLayout {
            row_bytes: self.row_bytes as int,
            rows: self.rows as int,
            row_pitch: self.row_pitch as int,
            slice_pitch: self.slice_pitch as int,
        }
    }
}

fn plan_pitches(desc: &TextureCopyDesc, extent: U32x3, side: u32, bytes: u64) -> (r: Result<
    Pitches,
    GpuError,
>)
    requires
        0 < side <= 4,
        0 < bytes <= 16,
        extent.x > 0,
        extent.y > 0,
    ensures
        match (r, copy_layout(*desc, extent, side as int, bytes as int)) {
            (Ok(pitches), Ok(layout)) => {
                &&& pitches.layout() == layout
                &&& pitches.row_length == (layout.row_pitch / bytes as int) * side
                &&& pitches.image_height == (layout.slice_pitch / layout.row_pitch) * side
                &&& pitches.row_pitch <= i32::MAX
                &&& 1 <= pitches.rows <= u32::MAX
            },
            (Err(error), Err(problem)) => error@ == problem,
            _ => false,
        },
{
    let columns = round_up_div(extent.x, side);
    assert(columns * bytes <= 16 * u32::MAX && columns * bytes >= 1) by (nonlinear_arith)
        requires
            1 <= columns <= u32::MAX,
            1 <= bytes <= 16,
    ;
    let row_bytes: u64 = columns * bytes;
    let rows = round_up_div(extent.y, side);
    let row_pitch: u64 = if desc.row_pitch_bytes == 0 {
        row_bytes
    } else {
        desc.row_pitch_bytes
    };
    if row_pitch < row_bytes || row_pitch % bytes != 0 {
        return Err(GpuError::InvalidArgument("row pitch is too small or not block aligned"));
    }
    let minimum_slice = match row_pitch.checked_mul(rows) {
        Some(size) => size,
        None => return Err(GpuError::InvalidArgument("copy pitch overflow")),
    };
    let slice_pitch: u64 = if desc.slice_pitch_bytes == 0 {
        minimum_slice
    } else {
        desc.slice_pitch_bytes
    };
    if slice_pitch < minimum_slice || slice_pitch % row_pitch != 0 {
        return Err(
            GpuError::InvalidArgument("slice pitch is too small or not a multiple of row pitch"),
        );
    }
    let row_length = match (row_pitch / bytes).checked_mul(side as u64) {
        Some(length) => length,
        None => return Err(GpuError::InvalidArgument("row length overflow")),
    };
    let image_height = match (slice_pitch / row_pitch).checked_mul(side as u64) {
        Some(height) => height,
        None => return Err(GpuError::InvalidArgument("image height overflow")),
    };
    if row_length > u32::MAX as u64 || image_height > u32::MAX as u64 || row_pitch
        > i32::MAX as u64 {
        return Err(GpuError::InvalidArgument("copy pitch exceeds Vulkan limits"));
    }
    Ok(
        Pitches {
            row_bytes,
            rows,
            row_pitch,
            slice_pitch,
            row_length: row_length as u32,
            image_height: image_height as u32,
        },
    )
}

fn needed_bytes(pitches: &Pitches, slices: u64) -> (r: Option<u64>)
    requires
        slices >= 1,
        pitches.row_pitch <= i32::MAX,
        1 <= pitches.rows <= u32::MAX,
    ensures
        match r {
            Some(size) => size == copy_size(pitches.layout(), slices as int),
            None => copy_size(pitches.layout(), slices as int) > u64::MAX,
        },
{
    assert(0 <= pitches.row_pitch * (pitches.rows - 1) <= i32::MAX * u32::MAX) by (nonlinear_arith)
        requires
            pitches.row_pitch <= i32::MAX,
            1 <= pitches.rows <= u32::MAX,
    ;
    assert(pitches.slice_pitch * (slices - 1) >= 0) by (nonlinear_arith)
        requires
            slices >= 1,
    ;
    let before: u64 = pitches.slice_pitch.checked_mul(slices - 1)?;
    let last_row: u64 = before.checked_add(pitches.row_pitch * (pitches.rows - 1))?;
    last_row.checked_add(pitches.row_bytes)
}

/// Checks a copy between a texture and `buffer_size` bytes of a buffer that start
/// at `buffer_offset`, and fills in what the description leaves open.
pub fn texture_copy_region(
    texture: &TextureDesc,
    desc: &TextureCopyDesc,
    aspect: TextureAspect,
    buffer_offset: u64,
    buffer_size: u64,
) -> (r: Result<BufferImageCopy, GpuError>)
    requires
        desc.mip_level < texture.mip_levels && desc.base_slice < texture.layer_count
            ==> desc.mip_level < 32,
    ensures
        error::outcome(r) == spec_copy_region(*texture, *desc, aspect, buffer_offset, buffer_size),
{
    if desc.mip_level >= texture.mip_levels || desc.base_slice >= texture.layer_count {
        return Err(GpuError::InvalidArgument("copy subresource out of bounds"));
    }
    let mip = U32x3 {
        x: halve(texture.extent.x, desc.mip_level),
        y: halve(texture.extent.y, desc.mip_level),
        z: halve(texture.extent.z, desc.mip_level),
    };
    let offset = desc.offset;
    if offset.x >= mip.x || offset.y >= mip.y || offset.z >= mip.z {
        return Err(GpuError::InvalidArgument("copy offset out of bounds"));
    }
    let extent = U32x3 {
        x: rest(desc.extent.x, mip.x, offset.x),
        y: rest(desc.extent.y, mip.y, offset.y),
        z: rest(desc.extent.z, mip.z, offset.z),
    };
    if extent.x > mip.x - offset.x || extent.y > mip.y - offset.y || extent.z > mip.z - offset.z {
        return Err(GpuError::InvalidArgument("copy extent out of bounds"));
    }
    if offset.x > i32::MAX as u32 || offset.y > i32::MAX as u32 || offset.z > i32::MAX as u32 {
        return Err(GpuError::InvalidArgument("copy offsets exceed signed coordinate bounds"));
    }
    let layers = rest(desc.slice_count, texture.layer_count, desc.base_slice);
    if layers > texture.layer_count - desc.base_slice {
        return Err(GpuError::InvalidArgument("copy layers out of bounds"));
    }
    let format = TextureFormatInfo::get_texture_format_info(texture.format);
    let mask = select_aspect(aspect, texture.format)?;
    let side: u32 = format.block_extent.x;
    if side == 0 {
        return Err(GpuError::InvalidArgument("undefined copy format"));
    }
    let bytes = count_bytes(texture.format, mask);
    if offset.x % side != 0 || offset.y % side != 0 || (extent.x % side != 0 && offset.x + extent.x
        != mip.x) || (extent.y % side != 0 && offset.y + extent.y != mip.y) || buffer_offset % bytes
        != 0 || buffer_offset % 4 != 0 {
        return Err(
            GpuError::InvalidArgument(
                "copy needs block-aligned offsets/extent and aligned buffer offset",
            ),
        );
    }
    let pitches = plan_pitches(desc, extent, side, bytes)?;
    assert(1 <= layers * extent.z <= u64::MAX) by (nonlinear_arith)
        requires
            1 <= layers <= u32::MAX,
            1 <= extent.z <= u32::MAX,
    ;
    let slices: u64 = layers as u64 * extent.z as u64;
    let required = match needed_bytes(&pitches, slices) {
        Some(size) => size,
        None => return Err(GpuError::InvalidArgument("copy size overflow")),
    };
    if required > buffer_size {
        return Err(GpuError::InvalidArgument("buffer range is too small for pitched copy"));
    }
    Ok(
        BufferImageCopy {
            buffer_offset,
            buffer_row_length: pitches.row_length,
            buffer_image_height: pitches.image_height,
            image_subresource: ImageSubresourceLayers {
                aspect_mask: mask,
                mip_level: desc.mip_level,
                base_array_layer: desc.base_slice,
                layer_count: layers,
            },
            image_offset: Offset3D { x: offset.x as i32, y: offset.y as i32, z: offset.z as i32 },
            image_extent: Extent3D { width: extent.x, height: extent.y, depth: extent.z },
        },
    )
}

// ---------------------------------------------------------------------------
// Laws
// ---------------------------------------------------------------------------

/// Where a block of the copied image lies, in bytes from the start of the buffer
/// range. Slices are whole layers or depth slices.
pub open spec fn block_offset(
    region: BufferImageCopy,
    side: int,
    bytes: int,
    column: int,
    row: int,
    slice: int,
) -> int {
    ((slice * (region.buffer_image_height as int / side) + row) * (region.buffer_row_length as int
        / side) + column) * bytes
}

/// The block is part of the copy.
pub open spec fn block_copied(
    region: BufferImageCopy,
    side: int,
    column: int,
    row: int,
    slice: int,
) -> bool {
    &&& 0 <= column < ceil_div(region.image_extent.width as int, side)
    &&& 0 <= row < ceil_div(region.image_extent.height as int, side)
    &&& 0 <= slice < region.image_subresource.layer_count * region.image_extent.depth
}

/// The pitches behind a region: whole blocks per row and whole rows per slice, at
/// least as many as are copied.
proof fn region_pitches(
    texture: TextureDesc,
    desc: TextureCopyDesc,
    aspect: TextureAspect,
    buffer_offset: u64,
    buffer_size: u64,
    region: BufferImageCopy,
) -> (layout: CopyLayout)
    requires
        spec_copy_region(texture, desc, aspect, buffer_offset, buffer_size) == Ok::<_, Problem>(
            region,
        ),
    ensures
        ({
            let side = texture.format.block_side() as int;
            let bytes = aspect_bytes(texture.format, region.image_subresource.aspect_mask);
            let columns = ceil_div(region.image_extent.width as int, side);
            let rows = ceil_div(region.image_extent.height as int, side);
            let row_blocks = region.buffer_row_length as int / side;
            let slice_rows = region.buffer_image_height as int / side;
            &&& side > 0
            &&& bytes > 0
            &&& columns <= row_blocks
            &&& rows <= slice_rows
            &&& layout.row_bytes == columns * bytes
            &&& layout.rows == rows
            &&& layout.row_pitch == row_blocks * bytes
            &&& layout.slice_pitch == slice_rows * layout.row_pitch
            &&& layout.row_pitch > 0
            &&& copy_size(
                layout,
                region.image_subresource.layer_count * region.image_extent.depth,
            ) <= buffer_size
        }),
{
    let format = texture.format;
    let side = format.block_side() as int;
    let mask = region.image_subresource.aspect_mask;
    let bytes = aspect_bytes(format, mask);
    let mip = mip_extent(texture.extent, desc.mip_level);
    let extent = copy_extent(desc, mip);
    let layout = copy_layout(desc, extent, side, bytes)->Ok_0;
    let columns = ceil_div(extent.x as int, side);
    let rows = ceil_div(extent.y as int, side);
    assert(bytes > 0);
    assert(extent.x > 0 && extent.y > 0);
    assert(columns >= 1) by (nonlinear_arith)
        requires
            columns == (extent.x + side - 1) / side,
            extent.x >= 1,
            side >= 1,
    ;
    assert(columns * bytes >= 1) by (nonlinear_arith)
        requires
            columns >= 1,
            bytes >= 1,
    ;
    let row_blocks = layout.row_pitch / bytes;
    let slice_rows = layout.slice_pitch / layout.row_pitch;
    lemma_fundamental_div_mod(layout.row_pitch, bytes);
    lemma_fundamental_div_mod(layout.slice_pitch, layout.row_pitch);
    lemma_mul_is_commutative(bytes, row_blocks);
    lemma_mul_is_commutative(layout.row_pitch, slice_rows);
    lemma_div_multiples_vanish(row_blocks, side);
    lemma_div_multiples_vanish(slice_rows, side);
    lemma_mul_is_commutative(side, row_blocks);
    lemma_mul_is_commutative(side, slice_rows);
    assert(columns <= row_blocks) by (nonlinear_arith)
        requires
            columns * bytes <= row_blocks * bytes,
            bytes > 0,
    ;
    assert(rows <= slice_rows) by (nonlinear_arith)
        requires
            layout.row_pitch * rows <= slice_rows * layout.row_pitch,
            layout.row_pitch > 0,
    ;
    layout
}

proof fn block_offset_expands(
    region: BufferImageCopy,
    side: int,
    bytes: int,
    column: int,
    row: int,
    slice: int,
    row_pitch: int,
    slice_pitch: int,
)
    requires
        row_pitch == (region.buffer_row_length as int / side) * bytes,
        slice_pitch == (region.buffer_image_height as int / side) * row_pitch,
    ensures
        block_offset(region, side, bytes, column, row, slice) == slice * slice_pitch + row
            * row_pitch + column * bytes,
{
    let blocks = region.buffer_row_length as int / side;
    let height = region.buffer_image_height as int / side;
    let rows = slice * height + row;
    lemma_mul_is_distributive_add_other_way(bytes, rows * blocks, column);
    lemma_mul_is_associative(rows, blocks, bytes);
    lemma_mul_is_distributive_add_other_way(row_pitch, slice * height, row);
    lemma_mul_is_associative(slice, height, row_pitch);
}

/// Every block that is copied lies inside the buffer range.
pub proof fn copies_stay_in_the_buffer_range(
    texture: TextureDesc,
    desc: TextureCopyDesc,
    aspect: TextureAspect,
    buffer_offset: u64,
    buffer_size: u64,
    region: BufferImageCopy,
    column: int,
    row: int,
    slice: int,
)
    requires
        spec_copy_region(texture, desc, aspect, buffer_offset, buffer_size) == Ok::<_, Problem>(
            region,
        ),
        block_copied(region, texture.format.block_side() as int, column, row, slice),
    ensures
        ({
            let side = texture.format.block_side() as int;
            let bytes = aspect_bytes(texture.format, region.image_subresource.aspect_mask);
            let start = block_offset(region, side, bytes, column, row, slice);
            0 <= start && start + bytes <= buffer_size
        }),
{
    let side = texture.format.block_side() as int;
    let bytes = aspect_bytes(texture.format, region.image_subresource.aspect_mask);
    let layout = region_pitches(texture, desc, aspect, buffer_offset, buffer_size, region);
    let columns = ceil_div(region.image_extent.width as int, side);
    let slices = region.image_subresource.layer_count * region.image_extent.depth;
    block_offset_expands(
        region,
        side,
        bytes,
        column,
        row,
        slice,
        layout.row_pitch,
        layout.slice_pitch,
    );
    assert(layout.slice_pitch >= 0) by (nonlinear_arith)
        requires
            layout.slice_pitch == (region.buffer_image_height as int / side) * layout.row_pitch,
            side > 0,
            layout.row_pitch > 0,
    ;
    lemma_mul_inequality(slice, slices - 1, layout.slice_pitch);
    lemma_mul_inequality(row, layout.rows - 1, layout.row_pitch);
    lemma_mul_inequality(column + 1, columns, bytes);
    lemma_mul_is_commutative(slices - 1, layout.slice_pitch);
    lemma_mul_is_commutative(layout.rows - 1, layout.row_pitch);
    lemma_mul_is_distributive_add_other_way(bytes, column, 1);
    lemma_mul_nonnegative(slice, layout.slice_pitch);
    lemma_mul_nonnegative(row, layout.row_pitch);
    lemma_mul_nonnegative(column, bytes);
}

proof fn later_is_larger(group: int, place: int, later: int, other: int, size: int)
    requires
        group < later,
        0 <= place < size,
        0 <= other,
    ensures
        group * size + place < later * size + other,
{
    lemma_mul_inequality(group + 1, later, size);
    lemma_mul_is_distributive_add_other_way(size, group, 1);
}

/// No two copied blocks share a byte: blocks lie in the buffer slice by slice, row
/// by row and column by column.
pub proof fn copied_blocks_do_not_overlap(
    texture: TextureDesc,
    desc: TextureCopyDesc,
    aspect: TextureAspect,
    buffer_offset: u64,
    buffer_size: u64,
    region: BufferImageCopy,
    first: (int, int, int),
    second: (int, int, int),
)
    requires
        spec_copy_region(texture, desc, aspect, buffer_offset, buffer_size) == Ok::<_, Problem>(
            region,
        ),
        block_copied(region, texture.format.block_side() as int, first.0, first.1, first.2),
        block_copied(region, texture.format.block_side() as int, second.0, second.1, second.2),
        first.2 < second.2 || (first.2 == second.2 && (first.1 < second.1 || (first.1 == second.1
            && first.0 < second.0))),
    ensures
        ({
            let side = texture.format.block_side() as int;
            let bytes = aspect_bytes(texture.format, region.image_subresource.aspect_mask);
            block_offset(region, side, bytes, first.0, first.1, first.2) + bytes <= block_offset(
                region,
                side,
                bytes,
                second.0,
                second.1,
                second.2,
            )
        }),
{
    let side = texture.format.block_side() as int;
    let bytes = aspect_bytes(texture.format, region.image_subresource.aspect_mask);
    let layout = region_pitches(texture, desc, aspect, buffer_offset, buffer_size, region);
    let blocks = region.buffer_row_length as int / side;
    let height = region.buffer_image_height as int / side;
    let a = first.2 * height + first.1;
    let b = second.2 * height + second.1;
    if first.2 < second.2 {
        later_is_larger(first.2, first.1, second.2, second.1, height);
    }
    let c = a * blocks + first.0;
    let d = b * blocks + second.0;
    if a < b {
        later_is_larger(a, first.0, b, second.0, blocks);
    }
    assert(c * bytes + bytes <= d * bytes) by (nonlinear_arith)
        requires
            c + 1 <= d,
            bytes > 0,
    ;
}

/// The texels of a copy lie inside its mip level and its layers inside the texture.
pub proof fn copies_stay_in_the_texture(
    texture: TextureDesc,
    desc: TextureCopyDesc,
    aspect: TextureAspect,
    buffer_offset: u64,
    buffer_size: u64,
    region: BufferImageCopy,
)
    requires
        spec_copy_region(texture, desc, aspect, buffer_offset, buffer_size) == Ok::<_, Problem>(
            region,
        ),
    ensures
        ({
            let mip = mip_extent(texture.extent, region.image_subresource.mip_level);
            &&& region.image_subresource.mip_level < texture.mip_levels
            &&& region.image_subresource.base_array_layer + region.image_subresource.layer_count
                <= texture.layer_count
            &&& region.image_subresource.layer_count > 0
            &&& region.image_extent.width > 0
            &&& region.image_extent.height > 0
            &&& region.image_extent.depth > 0
            &&& 0 <= region.image_offset.x
            &&& 0 <= region.image_offset.y
            &&& 0 <= region.image_offset.z
            &&& region.image_offset.x + region.image_extent.width <= mip.x
            &&& region.image_offset.y + region.image_extent.height <= mip.y
            &&& region.image_offset.z + region.image_extent.depth <= mip.z
            &&& region.image_subresource.aspect_mask.spec_single()
        }),
{
}

/// A copy starts on a block of its mip level and ends on one, or at the edge of the
/// level. A format that holds both depth and stencil is copied one part at a time,
/// and only if the part is named.
pub proof fn copies_take_whole_blocks(
    texture: TextureDesc,
    desc: TextureCopyDesc,
    aspect: TextureAspect,
    buffer_offset: u64,
    buffer_size: u64,
    region: BufferImageCopy,
)
    requires
        spec_copy_region(texture, desc, aspect, buffer_offset, buffer_size) == Ok::<_, Problem>(
            region,
        ),
    ensures
        ({
            let mip = mip_extent(texture.extent, region.image_subresource.mip_level);
            let side = texture.format.block_side() as int;
            let right = region.image_offset.x + region.image_extent.width;
            let bottom = region.image_offset.y + region.image_extent.height;
            &&& region.image_offset.x as int % side == 0
            &&& region.image_offset.y as int % side == 0
            &&& right % side == 0 || right == mip.x
            &&& bottom % side == 0 || bottom == mip.y
            &&& texture.format.has_depth() && texture.format.has_stencil() ==> aspect
                == TextureAspect::Depth || aspect == TextureAspect::Stencil
        }),
{
    let side = texture.format.block_side() as int;
    let extent = region.image_extent;
    if extent.width as int % side == 0 {
        sums_of_multiples(region.image_offset.x as int, extent.width as int, side);
    }
    if extent.height as int % side == 0 {
        sums_of_multiples(region.image_offset.y as int, extent.height as int, side);
    }
}

proof fn sums_of_multiples(first: int, second: int, side: int)
    requires
        side > 0,
        first % side == 0,
        second % side == 0,
    ensures
        (first + second) % side == 0,
{
    lemma_add_mod_noop(first, second, side);
    lemma_small_mod(0, side as nat);
}

/// Each mip level is half as large as the one before, rounded down, and never less than one
/// texel. The first is the texture itself.
pub proof fn mips_halve(side: u32, level: u32)
    requires
        level < 31,
        side > 0,
    ensures
        mip_side(side, 0) == side,
        mip_side(side, (level + 1) as u32) == if mip_side(side, level) <= 1 {
            1
        } else {
            mip_side(side, level) / 2
        },
{
    assert(side >> 0u32 == side) by (bit_vector);
    let next = (level + 1) as u32;
    assert((side >> next) == (side >> level) / 2) by (bit_vector)
        requires
            next == level + 1,
            level < 31,
    ;
}

/// How much is copied along one axis: as much as was asked for, or all that is left if
/// nothing was.
pub open spec fn is_wanted(copied: int, asked: u32, whole: u32, start: u32) -> bool {
    if asked > 0 {
        copied == asked
    } else {
        copied + start == whole
    }
}

/// The one part of the texture that is copied: the one that was named, or the only one.
pub open spec fn is_part(mask: ImageAspect, aspect: TextureAspect, format: Format) -> bool {
    &&& mask.depth <==> aspect == TextureAspect::Depth || aspect == TextureAspect::Automatic
        && format.has_depth()
    &&& mask.stencil <==> aspect == TextureAspect::Stencil || aspect == TextureAspect::Automatic
        && format.has_stencil()
    &&& mask.color <==> !mask.depth && !mask.stencil
}

/// A copy touches what its description names: the level, the first layer and the number of
/// layers, or all layers behind the first if none is given; the first texel and the size in
/// the same way; the part of the texture; and the given place in the buffer.
pub proof fn copies_touch_what_was_named(
    texture: &TextureDesc,
    desc: &TextureCopyDesc,
    aspect: TextureAspect,
    buffer_offset: u64,
    buffer_size: u64,
    r: Result<BufferImageCopy, GpuError>,
)
    requires
        call_ensures(texture_copy_region, (texture, desc, aspect, buffer_offset, buffer_size), r),
        r is Ok,
    ensures
        ({
            let region = r->Ok_0;
            let layers = region.image_subresource;
            let mip_x = mip_side(texture.extent.x, desc.mip_level);
            let mip_y = mip_side(texture.extent.y, desc.mip_level);
            let mip_z = mip_side(texture.extent.z, desc.mip_level);
            &&& layers.mip_level == desc.mip_level
            &&& layers.base_array_layer == desc.base_slice
            &&& is_wanted(
                layers.layer_count as int,
                desc.slice_count,
                texture.layer_count,
                desc.base_slice,
            )
            &&& is_part(layers.aspect_mask, aspect, texture.format)
            &&& region.image_offset.x == desc.offset.x
            &&& region.image_offset.y == desc.offset.y
            &&& region.image_offset.z == desc.offset.z
            &&& is_wanted(
                region.image_extent.width as int,
                desc.extent.x,
                mip_x,
                desc.offset.x,
            )
            &&& is_wanted(
                region.image_extent.height as int,
                desc.extent.y,
                mip_y,
                desc.offset.y,
            )
            &&& is_wanted(
                region.image_extent.depth as int,
                desc.extent.z,
                mip_z,
                desc.offset.z,
            )
            &&& region.buffer_offset == buffer_offset
        }),
{
}

/// The bytes of a block: one for a stencil, two or four for a depth, and otherwise those of
/// the format.
pub proof fn parts_have_their_size(format: Format, mask: ImageAspect)
    ensures
        mask.stencil ==> aspect_bytes(format, mask) == 1,
        !mask.stencil && format is D16Unorm ==> aspect_bytes(format, mask) == 2,
        !mask.stencil && (format is D32Float || format is D24UnormS8Uint
            || format is D32FloatS8Uint) ==> aspect_bytes(format, mask) == 4,
        !mask.stencil && !format.has_depth() ==> aspect_bytes(format, mask)
            == format.block_bytes(),
{
}

/// Rows and slices lie as far apart in the buffer as was asked for. Where nothing was asked
/// for they follow one another without a gap.
pub proof fn pitches_are_kept(
    texture: &TextureDesc,
    desc: &TextureCopyDesc,
    aspect: TextureAspect,
    buffer_offset: u64,
    buffer_size: u64,
    r: Result<BufferImageCopy, GpuError>,
)
    requires
        call_ensures(texture_copy_region, (texture, desc, aspect, buffer_offset, buffer_size), r),
        r is Ok,
    ensures
        ({
            let region = r->Ok_0;
            let side = texture.format.block_side() as int;
            let bytes = aspect_bytes(texture.format, region.image_subresource.aspect_mask);
            let row_blocks = region.buffer_row_length as int / side;
            let slice_rows = region.buffer_image_height as int / side;
            &&& region.buffer_row_length as int % side == 0
            &&& region.buffer_image_height as int % side == 0
            &&& desc.row_pitch_bytes > 0 ==> row_blocks * bytes == desc.row_pitch_bytes
            &&& desc.row_pitch_bytes == 0 ==> region.image_extent.width <= row_blocks * side
                < region.image_extent.width + side
            &&& desc.slice_pitch_bytes > 0 ==> slice_rows * (row_blocks * bytes)
                == desc.slice_pitch_bytes
            &&& desc.slice_pitch_bytes == 0 ==> region.image_extent.height <= slice_rows * side
                < region.image_extent.height + side
        }),
{
    let region = r->Ok_0;
    let side = texture.format.block_side() as int;
    let mask = region.image_subresource.aspect_mask;
    let bytes = aspect_bytes(texture.format, mask);
    let extent = copy_extent(*desc, mip_extent(texture.extent, desc.mip_level));
    let layout = copy_layout(*desc, extent, side, bytes)->Ok_0;
    let columns = ceil_div(extent.x as int, side);
    let rows = ceil_div(extent.y as int, side);
    assert(side == 1 || side == 4);
    assert(bytes > 0);
    assert(extent.x > 0 && extent.y > 0);
    assert(columns >= 1 && columns * side >= extent.x && columns * side < extent.x + side);
    assert(rows >= 1 && rows * side >= extent.y && rows * side < extent.y + side);
    let row_blocks = layout.row_pitch / bytes;
    let slice_rows = layout.slice_pitch / layout.row_pitch;
    assert(layout.row_pitch > 0) by {
        assert(columns * bytes > 0) by (nonlinear_arith)
            requires
                columns >= 1,
                bytes > 0,
        ;
    }
    lemma_fundamental_div_mod(layout.row_pitch, bytes);
    lemma_fundamental_div_mod(layout.slice_pitch, layout.row_pitch);
    lemma_mul_is_commutative(row_blocks, bytes);
    lemma_mul_is_commutative(slice_rows, layout.row_pitch);
    lemma_div_multiples_vanish(row_blocks, side);
    lemma_div_multiples_vanish(slice_rows, side);
    lemma_mul_is_commutative(row_blocks, side);
    lemma_mul_is_commutative(slice_rows, side);
    lemma_mod_multiples_basic(row_blocks, side);
    lemma_mod_multiples_basic(slice_rows, side);
    if desc.row_pitch_bytes == 0 {
        lemma_div_multiples_vanish(columns, bytes);
        lemma_mul_is_commutative(columns, bytes);
    }
    if desc.slice_pitch_bytes == 0 {
        lemma_div_multiples_vanish(rows, layout.row_pitch);
    }
}

/// A copy is accepted exactly if it lies in the texture and takes whole blocks, its part
/// exists, its pitches hold its rows and slices and are whole numbers of blocks and rows,
/// the numbers are such as Vulkan takes, and the buffer range holds all of it.
pub proof fn copies_are_judged(
    texture: &TextureDesc,
    desc: &TextureCopyDesc,
    aspect: TextureAspect,
    buffer_offset: u64,
    buffer_size: u64,
    r: Result<BufferImageCopy, GpuError>,
)
    requires
        call_ensures(texture_copy_region, (texture, desc, aspect, buffer_offset, buffer_size), r),
        desc.mip_level < texture.mip_levels,
        desc.base_slice < texture.layer_count,
    ensures
        ({
            let mip_x = mip_side(texture.extent.x, desc.mip_level);
            let mip_y = mip_side(texture.extent.y, desc.mip_level);
            let mip_z = mip_side(texture.extent.z, desc.mip_level);
            let width = if desc.extent.x > 0 {
                desc.extent.x as int
            } else {
                mip_x - desc.offset.x
            };
            let height = if desc.extent.y > 0 {
                desc.extent.y as int
            } else {
                mip_y - desc.offset.y
            };
            let depth = if desc.extent.z > 0 {
                desc.extent.z as int
            } else {
                mip_z - desc.offset.z
            };
            let layers = if desc.slice_count > 0 {
                desc.slice_count as int
            } else {
                texture.layer_count - desc.base_slice
            };
            &&& r is Ok ==> desc.offset.x < mip_x && desc.offset.x + width <= mip_x
            &&& r is Ok ==> desc.offset.y < mip_y && desc.offset.y + height <= mip_y
            &&& r is Ok ==> desc.offset.z < mip_z && desc.offset.z + depth <= mip_z
            &&& r is Ok ==> desc.offset.x <= i32::MAX && desc.offset.y <= i32::MAX && desc.offset.z
                <= i32::MAX
            &&& r is Ok ==> desc.base_slice + layers <= texture.layer_count
            &&& r is Ok ==> !(texture.format is Undefined)
            &&& r is Ok ==> buffer_offset as int % 4 == 0
        }),
        r matches Ok(region) ==> {
            let bytes = aspect_bytes(texture.format, region.image_subresource.aspect_mask);
            buffer_offset as int % bytes == 0
        },
        aspect == TextureAspect::Color && (texture.format.has_depth()
            || texture.format.has_stencil()) ==> r is Err,
        aspect == TextureAspect::Depth && !texture.format.has_depth() ==> r is Err,
        aspect == TextureAspect::Stencil && !texture.format.has_stencil() ==> r is Err,
{
}

/// A whole layer of a texture in plain blocks is copied whenever the buffer range holds it:
/// nothing else is asked of a copy that leaves its size and its pitches open.
pub proof fn plain_copies_are_accepted(
    texture: &TextureDesc,
    desc: &TextureCopyDesc,
    buffer_offset: u64,
    buffer_size: u64,
    r: Result<BufferImageCopy, GpuError>,
)
    requires
        call_ensures(
            texture_copy_region,
            (texture, desc, TextureAspect::Automatic, buffer_offset, buffer_size),
            r,
        ),
        texture.format.block_side() == 1,
        texture.format.block_bytes() > 0,
        !texture.format.has_depth(),
        !texture.format.has_stencil(),
        !(texture.format is Undefined),
        desc.mip_level == 0 && texture.mip_levels > 0,
        desc.base_slice < texture.layer_count,
        desc.slice_count == 1,
        desc.offset == (U32x3 { x: 0, y: 0, z: 0 }),
        desc.extent == (U32x3 { x: 0, y: 0, z: 0 }),
        desc.row_pitch_bytes == 0,
        desc.slice_pitch_bytes == 0,
        0 < texture.extent.x <= 0x4000,
        0 < texture.extent.y <= 0x4000,
        texture.extent.z == 1,
        buffer_offset as int % texture.format.block_bytes() as int == 0,
        buffer_offset as int % 4 == 0,
        texture.extent.x * texture.extent.y * texture.format.block_bytes() <= buffer_size,
    ensures
        r is Ok,
{
    let x = texture.extent.x as int;
    let y = texture.extent.y as int;
    let bytes = texture.format.block_bytes() as int;
    let pitch = x * bytes;
    let side_x = texture.extent.x;
    let side_y = texture.extent.y;
    let side_z = texture.extent.z;
    assert(side_x >> 0u32 == side_x) by (bit_vector);
    assert(side_y >> 0u32 == side_y) by (bit_vector);
    assert(side_z >> 0u32 == side_z) by (bit_vector);
    assert(bytes <= 16);
    assert(0 < pitch <= 0x4_0000) by (nonlinear_arith)
        requires
            0 < x <= 0x4000,
            0 < bytes <= 16,
            pitch == x * bytes,
    ;
    assert(0 < pitch * y <= 0x1_0000_0000) by (nonlinear_arith)
        requires
            0 < pitch <= 0x4_0000,
            0 < y <= 0x4000,
    ;
    assert(pitch % bytes == 0 && pitch / bytes == x) by {
        lemma_mod_multiples_basic(x, bytes);
        lemma_div_multiples_vanish(x, bytes);
        lemma_mul_is_commutative(x, bytes);
    }
    assert((pitch * y) % pitch == 0 && (pitch * y) / pitch == y) by {
        lemma_mod_multiples_basic(y, pitch);
        lemma_div_multiples_vanish(y, pitch);
        lemma_mul_is_commutative(y, pitch);
    }
    assert(pitch * (y - 1) + pitch == x * y * bytes) by (nonlinear_arith)
        requires
            pitch == x * bytes,
    ;
    let extent = copy_extent(*desc, mip_extent(texture.extent, 0));
    assert(extent == (U32x3 { x: texture.extent.x, y: texture.extent.y, z: 1 }));
    assert(ceil_div(x, 1) == x && ceil_div(y, 1) == y);
}

} // verus!
