//! Texture formats.

use crate::types::U32x2;
use crate::vulkan;
use ash::vk;
use vstd::prelude::*;

verus! {

/// Texel formats.
#[derive(Debug, Clone, Copy, PartialEq, Eq, Structural)]
pub enum Format {
    R8Srgb,
    Rg8Srgb,
    Rgba8Srgb,
    Bgra8Srgb,
    Rgba4Unorm,
    R5g5b5a1Unorm,
    R5g6b5Unorm,
    R8Unorm,
    Rg8Unorm,
    Rgba8Unorm,
    Bgra8Unorm,
    R16Unorm,
    Rg16Unorm,
    Rgba16Unorm,
    R8Uint,
    Rg8Uint,
    Rgba8Uint,
    Bgra8Uint,
    R16Uint,
    Rg16Uint,
    Rgba16Uint,
    R32Uint,
    Rg32Uint,
    Rgb32Uint,
    Rgba32Uint,
    R16Float,
    Rg16Float,
    Rgba16Float,
    R32Float,
    Rg32Float,
    Rgb32Float,
    Rgba32Float,
    Rgb10a2Unorm,
    Rg11b10Float,
    D16Unorm,
    D24UnormS8Uint,
    D32Float,
    S8Uint,
    D32FloatS8Uint,
    EacRg,
    Astc4x4Srgb,
    Astc4x4Unorm,
    Bc3Srgb,
    Bc3Unorm,
    Bc5Rg,
    Bc7Srgb,
    Bc7Unorm,
    Undefined,
}

impl Format {
    /// The number that Vulkan gives to the format.
    pub open spec fn spec_code(self) -> i32 {
        match self {
            Format::R8Srgb => 15,
            Format::Rg8Srgb => 22,
            Format::Rgba8Srgb => 43,
            Format::Bgra8Srgb => 50,
            Format::Rgba4Unorm => 2,
            Format::R5g5b5a1Unorm => 6,
            Format::R5g6b5Unorm => 4,
            Format::R8Unorm => 9,
            Format::Rg8Unorm => 16,
            Format::Rgba8Unorm => 37,
            Format::Bgra8Unorm => 44,
            Format::R16Unorm => 70,
            Format::Rg16Unorm => 77,
            Format::Rgba16Unorm => 91,
            Format::R8Uint => 13,
            Format::Rg8Uint => 20,
            Format::Rgba8Uint => 41,
            Format::Bgra8Uint => 48,
            Format::R16Uint => 74,
            Format::Rg16Uint => 81,
            Format::Rgba16Uint => 95,
            Format::R32Uint => 98,
            Format::Rg32Uint => 101,
            Format::Rgb32Uint => 104,
            Format::Rgba32Uint => 107,
            Format::R16Float => 76,
            Format::Rg16Float => 83,
            Format::Rgba16Float => 97,
            Format::R32Float => 100,
            Format::Rg32Float => 103,
            Format::Rgb32Float => 106,
            Format::Rgba32Float => 109,
            Format::Rgb10a2Unorm => 64,
            Format::Rg11b10Float => 122,
            Format::D16Unorm => 124,
            Format::D24UnormS8Uint => 129,
            Format::D32Float => 126,
            Format::S8Uint => 127,
            Format::D32FloatS8Uint => 130,
            Format::EacRg => 155,
            Format::Astc4x4Srgb => 158,
            Format::Astc4x4Unorm => 157,
            Format::Bc3Srgb => 138,
            Format::Bc3Unorm => 137,
            Format::Bc5Rg => 141,
            Format::Bc7Srgb => 146,
            Format::Bc7Unorm => 145,
            Format::Undefined => 0,
        }
    }

    /// The number that Vulkan gives to the format.
    pub fn code(self) -> (r: i32)
        ensures
            r == self.spec_code(),
    {
        match self {
            Format::R8Srgb => 15,
            Format::Rg8Srgb => 22,
            Format::Rgba8Srgb => 43,
            Format::Bgra8Srgb => 50,
            Format::Rgba4Unorm => 2,
            Format::R5g5b5a1Unorm => 6,
            Format::R5g6b5Unorm => 4,
            Format::R8Unorm => 9,
            Format::Rg8Unorm => 16,
            Format::Rgba8Unorm => 37,
            Format::Bgra8Unorm => 44,
            Format::R16Unorm => 70,
            Format::Rg16Unorm => 77,
            Format::Rgba16Unorm => 91,
            Format::R8Uint => 13,
            Format::Rg8Uint => 20,
            Format::Rgba8Uint => 41,
            Format::Bgra8Uint => 48,
            Format::R16Uint => 74,
            Format::Rg16Uint => 81,
            Format::Rgba16Uint => 95,
            Format::R32Uint => 98,
            Format::Rg32Uint => 101,
            Format::Rgb32Uint => 104,
            Format::Rgba32Uint => 107,
            Format::R16Float => 76,
            Format::Rg16Float => 83,
            Format::Rgba16Float => 97,
            Format::R32Float => 100,
            Format::Rg32Float => 103,
            Format::Rgb32Float => 106,
            Format::Rgba32Float => 109,
            Format::Rgb10a2Unorm => 64,
            Format::Rg11b10Float => 122,
            Format::D16Unorm => 124,
            Format::D24UnormS8Uint => 129,
            Format::D32Float => 126,
            Format::S8Uint => 127,
            Format::D32FloatS8Uint => 130,
            Format::EacRg => 155,
            Format::Astc4x4Srgb => 158,
            Format::Astc4x4Unorm => 157,
            Format::Bc3Srgb => 138,
            Format::Bc3Unorm => 137,
            Format::Bc5Rg => 141,
            Format::Bc7Srgb => 146,
            Format::Bc7Unorm => 145,
            Format::Undefined => 0,
        }
    }

    /// The name of the format.
    pub open spec fn spec_name(self) -> &'static str {
        match self {
            Format::R8Srgb => "R8Srgb",
            Format::Rg8Srgb => "Rg8Srgb",
            Format::Rgba8Srgb => "Rgba8Srgb",
            Format::Bgra8Srgb => "Bgra8Srgb",
            Format::Rgba4Unorm => "Rgba4Unorm",
            Format::R5g5b5a1Unorm => "R5g5b5a1Unorm",
            Format::R5g6b5Unorm => "R5g6b5Unorm",
            Format::R8Unorm => "R8Unorm",
            Format::Rg8Unorm => "Rg8Unorm",
            Format::Rgba8Unorm => "Rgba8Unorm",
            Format::Bgra8Unorm => "Bgra8Unorm",
            Format::R16Unorm => "R16Unorm",
            Format::Rg16Unorm => "Rg16Unorm",
            Format::Rgba16Unorm => "Rgba16Unorm",
            Format::R8Uint => "R8Uint",
            Format::Rg8Uint => "Rg8Uint",
            Format::Rgba8Uint => "Rgba8Uint",
            Format::Bgra8Uint => "Bgra8Uint",
            Format::R16Uint => "R16Uint",
            Format::Rg16Uint => "Rg16Uint",
            Format::Rgba16Uint => "Rgba16Uint",
            Format::R32Uint => "R32Uint",
            Format::Rg32Uint => "Rg32Uint",
            Format::Rgb32Uint => "Rgb32Uint",
            Format::Rgba32Uint => "Rgba32Uint",
            Format::R16Float => "R16Float",
            Format::Rg16Float => "Rg16Float",
            Format::Rgba16Float => "Rgba16Float",
            Format::R32Float => "R32Float",
            Format::Rg32Float => "Rg32Float",
            Format::Rgb32Float => "Rgb32Float",
            Format::Rgba32Float => "Rgba32Float",
            Format::Rgb10a2Unorm => "Rgb10a2Unorm",
            Format::Rg11b10Float => "Rg11b10Float",
            Format::D16Unorm => "D16Unorm",
            Format::D24UnormS8Uint => "D24UnormS8Uint",
            Format::D32Float => "D32Float",
            Format::S8Uint => "S8Uint",
            Format::D32FloatS8Uint => "D32FloatS8Uint",
            Format::EacRg => "EacRg",
            Format::Astc4x4Srgb => "Astc4x4Srgb",
            Format::Astc4x4Unorm => "Astc4x4Unorm",
            Format::Bc3Srgb => "Bc3Srgb",
            Format::Bc3Unorm => "Bc3Unorm",
            Format::Bc5Rg => "Bc5Rg",
            Format::Bc7Srgb => "Bc7Srgb",
            Format::Bc7Unorm => "Bc7Unorm",
            Format::Undefined => "Undefined",
        }
    }

    /// The name of the format, as messages show it.
    pub fn name(self) -> (r: &'static str)
        ensures
            r == self.spec_name(),
    {
        match self {
            Format::R8Srgb => "R8Srgb",
            Format::Rg8Srgb => "Rg8Srgb",
            Format::Rgba8Srgb => "Rgba8Srgb",
            Format::Bgra8Srgb => "Bgra8Srgb",
            Format::Rgba4Unorm => "Rgba4Unorm",
            Format::R5g5b5a1Unorm => "R5g5b5a1Unorm",
            Format::R5g6b5Unorm => "R5g6b5Unorm",
            Format::R8Unorm => "R8Unorm",
            Format::Rg8Unorm => "Rg8Unorm",
            Format::Rgba8Unorm => "Rgba8Unorm",
            Format::Bgra8Unorm => "Bgra8Unorm",
            Format::R16Unorm => "R16Unorm",
            Format::Rg16Unorm => "Rg16Unorm",
            Format::Rgba16Unorm => "Rgba16Unorm",
            Format::R8Uint => "R8Uint",
            Format::Rg8Uint => "Rg8Uint",
            Format::Rgba8Uint => "Rgba8Uint",
            Format::Bgra8Uint => "Bgra8Uint",
            Format::R16Uint => "R16Uint",
            Format::Rg16Uint => "Rg16Uint",
            Format::Rgba16Uint => "Rgba16Uint",
            Format::R32Uint => "R32Uint",
            Format::Rg32Uint => "Rg32Uint",
            Format::Rgb32Uint => "Rgb32Uint",
            Format::Rgba32Uint => "Rgba32Uint",
            Format::R16Float => "R16Float",
            Format::Rg16Float => "Rg16Float",
            Format::Rgba16Float => "Rgba16Float",
            Format::R32Float => "R32Float",
            Format::Rg32Float => "Rg32Float",
            Format::Rgb32Float => "Rgb32Float",
            Format::Rgba32Float => "Rgba32Float",
            Format::Rgb10a2Unorm => "Rgb10a2Unorm",
            Format::Rg11b10Float => "Rg11b10Float",
            Format::D16Unorm => "D16Unorm",
            Format::D24UnormS8Uint => "D24UnormS8Uint",
            Format::D32Float => "D32Float",
            Format::S8Uint => "S8Uint",
            Format::D32FloatS8Uint => "D32FloatS8Uint",
            Format::EacRg => "EacRg",
            Format::Astc4x4Srgb => "Astc4x4Srgb",
            Format::Astc4x4Unorm => "Astc4x4Unorm",
            Format::Bc3Srgb => "Bc3Srgb",
            Format::Bc3Unorm => "Bc3Unorm",
            Format::Bc5Rg => "Bc5Rg",
            Format::Bc7Srgb => "Bc7Srgb",
            Format::Bc7Unorm => "Bc7Unorm",
            Format::Undefined => "Undefined",
        }
    }

    /// The format has a depth part.
    pub open spec fn has_depth(self) -> bool {
        self is D16Unorm || self is D24UnormS8Uint || self is D32Float || self is D32FloatS8Uint
    }

    /// The format has a stencil part.
    pub open spec fn has_stencil(self) -> bool {
        self is S8Uint || self is D24UnormS8Uint || self is D32FloatS8Uint
    }

    /// The format stores texels in compressed blocks of four by four.
    pub open spec fn compressed(self) -> bool {
        self is EacRg
            || self is Astc4x4Srgb
            || self is Astc4x4Unorm
            || self is Bc3Srgb
            || self is Bc3Unorm
            || self is Bc5Rg
            || self is Bc7Srgb
            || self is Bc7Unorm
    }

    /// The bytes of one block; a block of an uncompressed format is one texel.
    pub open spec fn block_bytes(self) -> u32 {
        match self {
            Format::R8Srgb
            | Format::R8Unorm
            | Format::R8Uint
            | Format::S8Uint => 1,
            Format::Rg8Srgb
            | Format::Rgba4Unorm
            | Format::R5g5b5a1Unorm
            | Format::R5g6b5Unorm
            | Format::Rg8Unorm
            | Format::R16Unorm
            | Format::Rg8Uint
            | Format::R16Uint
            | Format::R16Float
            | Format::D16Unorm => 2,
            Format::Rgba8Srgb
            | Format::Bgra8Srgb
            | Format::Rgba8Unorm
            | Format::Bgra8Unorm
            | Format::Rg16Unorm
            | Format::Rgba8Uint
            | Format::Bgra8Uint
            | Format::Rg16Uint
            | Format::R32Uint
            | Format::Rg16Float
            | Format::R32Float
            | Format::Rgb10a2Unorm
            | Format::Rg11b10Float
            | Format::D24UnormS8Uint
            | Format::D32Float => 4,
            Format::Rgba16Unorm
            | Format::Rgba16Uint
            | Format::Rg32Uint
            | Format::Rgba16Float
            | Format::Rg32Float
            | Format::D32FloatS8Uint => 8,
            Format::Rgb32Uint
            | Format::Rgb32Float => 12,
            Format::Rgba32Uint
            | Format::Rgba32Float
            | Format::EacRg
            | Format::Astc4x4Srgb
            | Format::Astc4x4Unorm
            | Format::Bc3Srgb
            | Format::Bc3Unorm
            | Format::Bc5Rg
            | Format::Bc7Srgb
            | Format::Bc7Unorm => 16,
            Format::Undefined => 0,
        }
    }

    /// The texels along each side of a block.
    pub open spec fn block_side(self) -> u32 {
        if self is Undefined {
            0
        } else if self.compressed() {
            4
        } else {
            1
        }
    }
}

impl From<Format> for vk::Format {
    fn from(format: Format) -> (r: vk::Format)
        ensures
            vulkan::vk_format_code(r) == format.spec_code(),
    {
        vk::Format::from_raw(format.code())
    }
}

impl vstd::std_specs::convert::FromSpecImpl<Format> for vk::Format {
    /// The value is opaque: `from` states the number inside it, and no more is claimed.
    open spec fn obeys_from_spec() -> bool {
        false
    }

    open spec fn from_spec(format: Format) -> vk::Format {
        choose|r: vk::Format| vulkan::vk_format_code(r) == format.spec_code()
    }
}

/// The layout of a format in memory.
#[derive(Debug, Clone, Copy, PartialEq, Eq, Structural)]
pub struct TextureFormatInfo {
    pub block_extent: U32x2,
    pub bytes_per_block: u32,
    pub depth: bool,
    pub stencil: bool,
}

impl TextureFormatInfo {
    /// The layout of a format.
    pub open spec fn of(format: Format) -> TextureFormatInfo {
        TextureFormatInfo {
            block_extent: U32x2 { x: format.block_side(), y: format.block_side() },
            bytes_per_block: format.block_bytes(),
            depth: format.has_depth(),
            stencil: format.has_stencil(),
        }
    }

    /// Describes the layout of a format.
    pub fn get_texture_format_info(format: Format) -> (r: TextureFormatInfo)
        ensures
            r == TextureFormatInfo::of(format),
    {
        let texel = U32x2 { x: 1, y: 1 };
        match format {
            Format::R8Srgb
            | Format::R8Unorm
            | Format::R8Uint => TextureFormatInfo {
                block_extent: texel,
                bytes_per_block: 1,
                depth: false,
                stencil: false,
            },
            Format::S8Uint => TextureFormatInfo {
                block_extent: texel,
                bytes_per_block: 1,
                depth: false,
                stencil: true,
            },
            Format::Rg8Srgb
            | Format::Rgba4Unorm
            | Format::R5g5b5a1Unorm
            | Format::R5g6b5Unorm
            | Format::Rg8Unorm
            | Format::R16Unorm
            | Format::Rg8Uint
            | Format::R16Uint
            | Format::R16Float => TextureFormatInfo {
                block_extent: texel,
                bytes_per_block: 2,
                depth: false,
                stencil: false,
            },
            Format::D16Unorm => TextureFormatInfo {
                block_extent: texel,
                bytes_per_block: 2,
                depth: true,
                stencil: false,
            },
            Format::Rgba8Srgb
            | Format::Bgra8Srgb
            | Format::Rgba8Unorm
            | Format::Bgra8Unorm
            | Format::Rg16Unorm
            | Format::Rgba8Uint
            | Format::Bgra8Uint
            | Format::Rg16Uint
            | Format::R32Uint
            | Format::Rg16Float
            | Format::R32Float
            | Format::Rgb10a2Unorm
            | Format::Rg11b10Float => TextureFormatInfo {
                block_extent: texel,
                bytes_per_block: 4,
                depth: false,
                stencil: false,
            },
            Format::D32Float => TextureFormatInfo {
                block_extent: texel,
                bytes_per_block: 4,
                depth: true,
                stencil: false,
            },
            Format::D24UnormS8Uint => TextureFormatInfo {
                block_extent: texel,
                bytes_per_block: 4,
                depth: true,
                stencil: true,
            },
            Format::Rgba16Unorm
            | Format::Rgba16Uint
            | Format::Rg32Uint
            | Format::Rgba16Float
            | Format::Rg32Float => TextureFormatInfo {
                block_extent: texel,
                bytes_per_block: 8,
                depth: false,
                stencil: false,
            },
            Format::D32FloatS8Uint => TextureFormatInfo {
                block_extent: texel,
                bytes_per_block: 8,
                depth: true,
                stencil: true,
            },
            Format::Rgb32Uint
            | Format::Rgb32Float => TextureFormatInfo {
                block_extent: texel,
                bytes_per_block: 12,
                depth: false,
                stencil: false,
            },
            Format::Rgba32Uint
            | Format::Rgba32Float => TextureFormatInfo {
                block_extent: texel,
                bytes_per_block: 16,
                depth: false,
                stencil: false,
            },
            Format::EacRg
            | Format::Astc4x4Srgb
            | Format::Astc4x4Unorm
            | Format::Bc3Srgb
            | Format::Bc3Unorm
            | Format::Bc5Rg
            | Format::Bc7Srgb
            | Format::Bc7Unorm => TextureFormatInfo {
                block_extent: U32x2 { x: 4, y: 4 },
                bytes_per_block: 16,
                depth: false,
                stencil: false,
            },
            Format::Undefined => TextureFormatInfo {
                block_extent: U32x2 { x: 0, y: 0 },
                bytes_per_block: 0,
                depth: false,
                stencil: false,
            },
        }
    }
}

/// Every format but `Undefined` has blocks and bytes, and no two formats share a
/// Vulkan number.
pub proof fn formats_are_distinct(a: Format, b: Format)
    ensures
        a.spec_code() == b.spec_code() ==> a == b,
        !(a is Undefined) ==> a.block_side() > 0 && a.block_bytes() > 0,
        a.compressed() ==> !a.has_depth() && !a.has_stencil(),
{
}

/// Two formats convert to the same Vulkan format only if they are the same: the
/// number inside the converted value tells the format.
pub proof fn converted_formats_are_distinct(a: Format, b: Format, x: vk::Format, y: vk::Format)
    requires
        vulkan::vk_format_code(x) == a.spec_code(),
        vulkan::vk_format_code(y) == b.spec_code(),
    ensures
        a != b ==> x != y,
        vulkan::vk_format_code(x) == vulkan::vk_format_code(y) <==> a == b,
{
    formats_are_distinct(a, b);
}

} // verus!
