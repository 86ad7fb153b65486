//! Small public types: extents, enumerations and descriptions.

use crate::flags::TextureUsage;
use crate::float_bits::F32Bits;
use crate::format::Format;
use crate::vulkan;
use ash::vk;
use vstd::prelude::*;

verus! {

/// Required loader and device version: 1.4, packed as Vulkan packs versions.
pub const VULKAN_API_VERSION: u32 = 0x0040_4000;

#[derive(Debug, Clone, Copy, PartialEq, Eq, Structural)]
pub struct U32x2 {
    pub x: u32,
    pub y: u32,
}

impl U32x2 {
    /// Whether two pairs are the same.
    pub fn compare(a: U32x2, b: U32x2) -> (r: bool)
        ensures
            r == (a == b),
    {
        a.x == b.x && a.y == b.y
    }
}

impl Default for U32x2 {
    fn default() -> (r: U32x2)
        ensures
            r == (U32x2 { x: 0, y: 0 }),
    {
        U32x2 { x: 0, y: 0 }
    }
}

#[derive(Debug, Clone, Copy, PartialEq, Eq, Structural)]
pub struct U32x3 {
    pub x: u32,
    pub y: u32,
    pub z: u32,
}

impl U32x3 {
    /// Whether two triples are the same.
    pub fn compare(a: U32x3, b: U32x3) -> (r: bool)
        ensures
            r == (a == b),
    {
        a.x == b.x && a.y == b.y && a.z == b.z
    }
}

impl Default for U32x3 {
    fn default() -> (r: U32x3)
        ensures
            r == (U32x3 { x: 0, y: 0, z: 0 }),
    {
        U32x3 { x: 0, y: 0, z: 0 }
    }
}

#[derive(Debug, Clone, Copy, PartialEq, Eq, Structural)]
pub enum MemoryType {
    CpuVisible,
    GpuOnly,
    Readback,
    TextureDescriptorHeap,
    SamplerDescriptorHeap,
}

#[derive(Debug, Clone, Copy, PartialEq, Eq, Structural)]
pub struct SizeAlign {
    pub size: u64,
    pub align: u64,
}

#[derive(Debug, Clone, Copy, PartialEq, Eq, Structural)]
pub enum TextureType {
    OneD,
    TwoD,
    ThreeD,
    Cube,
    TwoDArray,
    CubeArray,
}

#[derive(Debug, Clone, Copy, PartialEq, Eq, Structural)]
pub enum TextureDescriptorType {
    Sampled,
    Storage,
}

#[derive(Debug, Clone, Copy, PartialEq, Eq, Structural)]
pub enum TextureAspect {
    Automatic,
    Color,
    Depth,
    Stencil,
}

#[derive(Debug, Clone, Copy, PartialEq, Eq, Structural)]
pub enum Filter {
    Nearest,
    Linear,
}

#[derive(Debug, Clone, Copy, PartialEq, Eq, Structural)]
pub enum AddressMode {
    Repeat,
    MirroredRepeat,
    ClampToEdge,
}

#[derive(Debug, Clone, Copy, PartialEq, Eq, Structural)]
pub enum CompareOp {
    Never,
    Less,
    Equal,
    LessEqual,
    Greater,
    NotEqual,
    GreaterEqual,
    Always,
}

#[derive(Debug, Clone, Copy, PartialEq, Eq, Structural)]
pub enum CullMode {
    Disabled,
    Clockwise,
    CounterClockwise,
}

#[derive(Debug, Clone, Copy, PartialEq, Eq, Structural)]
pub enum BlendFactor {
    Zero,
    One,
    SourceColor,
    OneMinusSourceColor,
    DestinationColor,
    OneMinusDestinationColor,
    SourceAlpha,
    OneMinusSourceAlpha,
    DestinationAlpha,
    OneMinusDestinationAlpha,
    SourceAlphaSaturate,
}

#[derive(Debug, Clone, Copy, PartialEq, Eq, Structural)]
pub enum BlendOp {
    Add,
    Subtract,
    ReverseSubtract,
    Minimum,
    Maximum,
}

#[derive(Debug, Clone, Copy, PartialEq, Eq, Structural)]
pub enum IndexType {
    Uint16,
    Uint32,
}

#[derive(Debug, Clone, Copy, PartialEq, Eq, Structural)]
pub enum LoadOp {
    Load,
    Clear,
    Discard,
}

#[derive(Debug, Clone, Copy, PartialEq, Eq, Structural)]
pub enum StoreOp {
    Store,
    Discard,
}

#[derive(Debug, Clone, Copy, PartialEq, Eq, Structural)]
pub enum StencilOp {
    Keep,
    Zero,
    Replace,
    IncrementClamp,
    DecrementClamp,
    Invert,
    IncrementWrap,
    DecrementWrap,
}

/// The parts of an image that an operation touches.
#[derive(Debug, Clone, Copy, PartialEq, Eq, Structural)]
pub struct ImageAspect {
    pub color: bool,
    pub depth: bool,
    pub stencil: bool,
}

impl ImageAspect {
    /// The bits that Vulkan gives to the parts.
    pub open spec fn spec_bits(self) -> u32 {
        ((if self.color { 1int } else { 0 }) + (if self.depth { 2int } else { 0 })
            + (if self.stencil { 4int } else { 0 })) as u32
    }

    /// Exactly one part.
    pub open spec fn spec_single(self) -> bool {
        ||| self.color && !self.depth && !self.stencil
        ||| !self.color && self.depth && !self.stencil
        ||| !self.color && !self.depth && self.stencil
    }

    /// The bits that Vulkan gives to the parts.
    pub fn bits(self) -> (r: u32)
        ensures
            r == self.spec_bits(),
    {
        let color: u32 = if self.color { 1 } else { 0 };
        let depth: u32 = if self.depth { 2 } else { 0 };
        let stencil: u32 = if self.stencil { 4 } else { 0 };
        color + depth + stencil
    }

    /// Whether there is exactly one part.
    pub fn is_single(self) -> (r: bool)
        ensures
            r == self.spec_single(),
    {
        if self.color {
            !self.depth && !self.stencil
        } else {
            self.depth != self.stencil
        }
    }

    /// All parts that a format has.
    pub open spec fn of_format(format: Format) -> ImageAspect {
        ImageAspect {
            color: !format.has_depth() && !format.has_stencil(),
            depth: format.has_depth(),
            stencil: format.has_stencil(),
        }
    }
}

/// Image layouts exposed by this API. Layouts are explicit and never inferred
/// from CPU recording order, which need not match GPU submission order.
#[derive(Debug, Clone, Copy, PartialEq, Eq, Structural)]
pub enum TextureLayout {
    Undefined,
    General,
    Sampled,
    ColorAttachment,
    DepthStencilAttachment,
    TransferSource,
    TransferDestination,
    Present,
}

impl TextureLayout {
    /// The number that Vulkan gives to the layout.
    pub open spec fn spec_code(self) -> i32 {
        match self {
            TextureLayout::Undefined => 0,
            TextureLayout::General => 1,
            TextureLayout::Sampled => 5,
            TextureLayout::ColorAttachment => 2,
            TextureLayout::DepthStencilAttachment => 3,
            TextureLayout::TransferSource => 6,
            TextureLayout::TransferDestination => 7,
            TextureLayout::Present => 1_000_001_002,
        }
    }

    /// The number that Vulkan gives to the layout.
    pub fn code(self) -> (r: i32)
        ensures
            r == self.spec_code(),
    {
        match self {
            TextureLayout::Undefined => 0,
            TextureLayout::General => 1,
            TextureLayout::Sampled => 5,
            TextureLayout::ColorAttachment => 2,
            TextureLayout::DepthStencilAttachment => 3,
            TextureLayout::TransferSource => 6,
            TextureLayout::TransferDestination => 7,
            TextureLayout::Present => 1_000_001_002,
        }
    }
}

impl From<TextureLayout> for vk::ImageLayout {
    fn from(layout: TextureLayout) -> (r: vk::ImageLayout)
        ensures
            vulkan::vk_layout_code(r) == layout.spec_code(),
    {
        vk::ImageLayout::from_raw(layout.code())
    }
}

impl vstd::std_specs::convert::FromSpecImpl<TextureLayout> for vk::ImageLayout {
    /// The value is opaque: `from` states the number inside it, and no more is claimed.
    open spec fn obeys_from_spec() -> bool {
        false
    }

    open spec fn from_spec(layout: TextureLayout) -> vk::ImageLayout {
        choose|r: vk::ImageLayout| vulkan::vk_layout_code(r) == layout.spec_code()
    }
}

#[derive(Debug, Clone, Copy, PartialEq, Eq, Structural)]
pub struct TextureDesc {
    pub texture_type: TextureType,
    pub extent: U32x3,
    pub mip_levels: u32,
    pub layer_count: u32,
    pub format: Format,
    pub mutable_format: bool,
    pub usage: TextureUsage,
}

impl TextureDesc {
    /// A sampled texture of one texel.
    pub open spec fn spec_default() -> TextureDesc {
        TextureDesc {
            texture_type: TextureType::TwoD,
            extent: U32x3 { x: 1, y: 1, z: 1 },
            mip_levels: 1,
            layer_count: 1,
            format: Format::Rgba8Unorm,
            mutable_format: false,
            usage: TextureUsage::SAMPLED(),
        }
    }
}

impl Default for TextureDesc {
    fn default() -> (r: TextureDesc)
        ensures
            r == TextureDesc::spec_default(),
    {
        TextureDesc {
            texture_type: TextureType::TwoD,
            extent: U32x3 { x: 1, y: 1, z: 1 },
            mip_levels: 1,
            layer_count: 1,
            format: Format::Rgba8Unorm,
            mutable_format: false,
            usage: TextureUsage::SAMPLED(),
        }
    }
}

#[derive(Debug, Clone, Copy, PartialEq, Eq, Structural)]
pub struct RenderViewDesc {
    pub mip_level: u32,
    pub slice: u32,
}

impl Default for RenderViewDesc {
    fn default() -> (r: RenderViewDesc)
        ensures
            r == (RenderViewDesc { mip_level: 0, slice: 0 }),
    {
        RenderViewDesc { mip_level: 0, slice: 0 }
    }
}

/// Zero counts mean all remaining levels or layers; an undefined format means the
/// format of the texture.
#[derive(Debug, Clone, Copy, PartialEq, Eq, Structural)]
pub struct TextureDescriptorDesc {
    pub format: Format,
    pub aspect: TextureAspect,
    pub base_mip: u32,
    pub mip_count: u32,
    pub base_layer: u32,
    pub layer_count: u32,
}

impl Default for TextureDescriptorDesc {
    fn default() -> (r: TextureDescriptorDesc)
        ensures
            r == (TextureDescriptorDesc {
                format: Format::Undefined,
                aspect: TextureAspect::Automatic,
                base_mip: 0,
                mip_count: 0,
                base_layer: 0,
                layer_count: 0,
            }),
    {
        TextureDescriptorDesc {
            format: Format::Undefined,
            aspect: TextureAspect::Automatic,
            base_mip: 0,
            mip_count: 0,
            base_layer: 0,
            layer_count: 0,
        }
    }
}

/// Pitches are in bytes; zero pitches mean tightly packed. Zero extents and counts
/// select the remaining extent or layers.
#[derive(Debug, Clone, Copy, PartialEq, Eq, Structural)]
pub struct TextureCopyDesc {
    pub mip_level: u32,
    pub base_slice: u32,
    pub slice_count: u32,
    pub offset: U32x3,
    pub extent: U32x3,
    pub row_pitch_bytes: u64,
    pub slice_pitch_bytes: u64,
}

impl Default for TextureCopyDesc {
    fn default() -> (r: TextureCopyDesc)
        ensures
            r == (TextureCopyDesc {
                mip_level: 0,
                base_slice: 0,
                slice_count: 0,
                offset: U32x3 { x: 0, y: 0, z: 0 },
                extent: U32x3 { x: 0, y: 0, z: 0 },
                row_pitch_bytes: 0,
                slice_pitch_bytes: 0,
            }),
    {
        TextureCopyDesc {
            mip_level: 0,
            base_slice: 0,
            slice_count: 0,
            offset: U32x3 { x: 0, y: 0, z: 0 },
            extent: U32x3 { x: 0, y: 0, z: 0 },
            row_pitch_bytes: 0,
            slice_pitch_bytes: 0,
        }
    }
}

#[derive(Debug, Clone, Copy, PartialEq, Eq, Structural)]
pub struct SamplerDesc {
    pub min_filter: Filter,
    pub mag_filter: Filter,
    pub mip_filter: Filter,
    pub address_u: AddressMode,
    pub address_v: AddressMode,
    pub address_w: AddressMode,
    pub anisotropic: bool,
    pub compare_enabled: bool,
    pub compare: CompareOp,
}

impl Default for SamplerDesc {
    fn default() -> (r: SamplerDesc)
        ensures
            r == (SamplerDesc {
                min_filter: Filter::Linear,
                mag_filter: Filter::Linear,
                mip_filter: Filter::Linear,
                address_u: AddressMode::Repeat,
                address_v: AddressMode::Repeat,
                address_w: AddressMode::Repeat,
                anisotropic: false,
                compare_enabled: false,
                compare: CompareOp::LessEqual,
            }),
    {
        SamplerDesc {
            min_filter: Filter::Linear,
            mag_filter: Filter::Linear,
            mip_filter: Filter::Linear,
            address_u: AddressMode::Repeat,
            address_v: AddressMode::Repeat,
            address_w: AddressMode::Repeat,
            anisotropic: false,
            compare_enabled: false,
            compare: CompareOp::LessEqual,
        }
    }
}

#[derive(Debug, Clone, Copy, PartialEq, Eq, Structural)]
pub struct BlendComponentState {
    pub source: BlendFactor,
    pub destination: BlendFactor,
    pub operation: BlendOp,
}

impl BlendComponentState {
    /// The source replaces the destination.
    pub open spec fn spec_default() -> BlendComponentState {
        BlendComponentState {
            source: BlendFactor::One,
            destination: BlendFactor::Zero,
            operation: BlendOp::Add,
        }
    }
}

impl Default for BlendComponentState {
    fn default() -> (r: BlendComponentState)
        ensures
            r == BlendComponentState::spec_default(),
    {
        BlendComponentState {
            source: BlendFactor::One,
            destination: BlendFactor::Zero,
            operation: BlendOp::Add,
        }
    }
}

#[derive(Debug, Clone, Copy, PartialEq, Eq, Structural)]
pub struct BlendState {
    pub enabled: bool,
    pub color: BlendComponentState,
    pub alpha: BlendComponentState,
}

impl BlendState {
    /// No blending.
    pub open spec fn spec_default() -> BlendState {
        BlendState {
            enabled: false,
            color: BlendComponentState::spec_default(),
            alpha: BlendComponentState::spec_default(),
        }
    }
}

impl Default for BlendState {
    fn default() -> (r: BlendState)
        ensures
            r == BlendState::spec_default(),
    {
        BlendState {
            enabled: false,
            color: BlendComponentState::default(),
            alpha: BlendComponentState::default(),
        }
    }
}

#[derive(Debug, Clone, Copy, PartialEq, Eq, Structural)]
pub struct ColorTargetDesc {
    pub format: Format,
    pub blend: BlendState,
    pub write_mask: u8,
}

impl Default for ColorTargetDesc {
    fn default() -> (r: ColorTargetDesc)
        ensures
            r == (ColorTargetDesc {
                format: Format::Undefined,
                blend: BlendState::spec_default(),
                write_mask: 0xf,
            }),
    {
        ColorTargetDesc {
            format: Format::Undefined,
            blend: BlendState::default(),
            write_mask: 0xf,
        }
    }
}

#[derive(Debug, Clone, Copy, PartialEq, Eq, Structural)]
pub struct RasterizationState {
    pub cull: CullMode,
    pub depth_bias_constant: F32Bits,
    pub depth_bias_clamp: F32Bits,
    pub depth_bias_slope: F32Bits,
}

impl RasterizationState {
    /// No culling and no depth bias.
    pub open spec fn spec_default() -> RasterizationState {
        RasterizationState {
            cull: CullMode::Disabled,
            depth_bias_constant: F32Bits::ZERO(),
            depth_bias_clamp: F32Bits::ZERO(),
            depth_bias_slope: F32Bits::ZERO(),
        }
    }
}

impl Default for RasterizationState {
    fn default() -> (r: RasterizationState)
        ensures
            r == RasterizationState::spec_default(),
    {
        RasterizationState {
            cull: CullMode::Disabled,
            depth_bias_constant: F32Bits::ZERO(),
            depth_bias_clamp: F32Bits::ZERO(),
            depth_bias_slope: F32Bits::ZERO(),
        }
    }
}

#[derive(Debug, Clone, Copy, PartialEq, Eq, Structural)]
pub struct Viewport {
    pub x: F32Bits,
    pub y: F32Bits,
    pub width: F32Bits,
    pub height: F32Bits,
    pub min_depth: F32Bits,
    pub max_depth: F32Bits,
}

impl Default for Viewport {
    fn default() -> (r: Viewport)
        ensures
            r == (Viewport {
                x: F32Bits::ZERO(),
                y: F32Bits::ZERO(),
                width: F32Bits::ONE(),
                height: F32Bits::ONE(),
                min_depth: F32Bits::ZERO(),
                max_depth: F32Bits::ONE(),
            }),
    {
        Viewport {
            x: F32Bits::ZERO(),
            y: F32Bits::ZERO(),
            width: F32Bits::ONE(),
            height: F32Bits::ONE(),
            min_depth: F32Bits::ZERO(),
            max_depth: F32Bits::ONE(),
        }
    }
}

#[derive(Debug, Clone, Copy, PartialEq, Eq, Structural)]
pub struct Scissor {
    pub x: i32,
    pub y: i32,
    pub width: u32,
    pub height: u32,
}

impl Default for Scissor {
    fn default() -> (r: Scissor)
        ensures
            r == (Scissor { x: 0, y: 0, width: 1, height: 1 }),
    {
        Scissor { x: 0, y: 0, width: 1, height: 1 }
    }
}

#[derive(Debug, Clone, Copy, PartialEq, Eq, Structural)]
pub struct StencilFaceState {
    pub compare: CompareOp,
    pub fail: StencilOp,
    pub pass: StencilOp,
    pub depth_fail: StencilOp,
    pub reference: u8,
}

impl StencilFaceState {
    /// Everything passes and nothing is written.
    pub open spec fn spec_default() -> StencilFaceState {
        StencilFaceState {
            compare: CompareOp::Always,
            fail: StencilOp::Keep,
            pass: StencilOp::Keep,
            depth_fail: StencilOp::Keep,
            reference: 0,
        }
    }
}

impl Default for StencilFaceState {
    fn default() -> (r: StencilFaceState)
        ensures
            r == StencilFaceState::spec_default(),
    {
        StencilFaceState {
            compare: CompareOp::Always,
            fail: StencilOp::Keep,
            pass: StencilOp::Keep,
            depth_fail: StencilOp::Keep,
            reference: 0,
        }
    }
}

#[derive(Debug, Clone, Copy, PartialEq, Eq, Structural)]
pub struct DepthStencilState {
    pub depth_test: bool,
    pub depth_write: bool,
    pub depth_compare: CompareOp,
    pub stencil_test: bool,
    pub stencil_read_mask: u8,
    pub stencil_write_mask: u8,
    pub front: StencilFaceState,
    pub back: StencilFaceState,
}

impl DepthStencilState {
    /// Neither test.
    pub open spec fn spec_default() -> DepthStencilState {
        DepthStencilState {
            depth_test: false,
            depth_write: false,
            depth_compare: CompareOp::LessEqual,
            stencil_test: false,
            stencil_read_mask: 0xff,
            stencil_write_mask: 0xff,
            front: StencilFaceState::spec_default(),
            back: StencilFaceState::spec_default(),
        }
    }
}

impl Default for DepthStencilState {
    fn default() -> (r: DepthStencilState)
        ensures
            r == DepthStencilState::spec_default(),
    {
        DepthStencilState {
            depth_test: false,
            depth_write: false,
            depth_compare: CompareOp::LessEqual,
            stencil_test: false,
            stencil_read_mask: 0xff,
            stencil_write_mask: 0xff,
            front: StencilFaceState::default(),
            back: StencilFaceState::default(),
        }
    }
}

/// A clear value for a color attachment.
#[derive(Debug, Clone, Copy, PartialEq, Eq, Structural)]
pub struct ClearColor {
    pub x: F32Bits,
    pub y: F32Bits,
    pub z: F32Bits,
    pub w: F32Bits,
}

impl ClearColor {
    /// Opaque black.
    pub open spec fn spec_default() -> ClearColor {
        ClearColor {
            x: F32Bits::ZERO(),
            y: F32Bits::ZERO(),
            z: F32Bits::ZERO(),
            w: F32Bits::ONE(),
        }
    }

    /// Clear an unsigned-integer color attachment. Preserves the integer bits in
    /// Vulkan's clear-value union; ordinary struct fields represent float clears.
    pub fn from_uint(value: [u32; 4]) -> (r: ClearColor)
        ensures
            r == (ClearColor {
                x: F32Bits(value@[0]),
                y: F32Bits(value@[1]),
                z: F32Bits(value@[2]),
                w: F32Bits(value@[3]),
            }),
    {
        ClearColor {
            x: F32Bits(value[0]),
            y: F32Bits(value[1]),
            z: F32Bits(value[2]),
            w: F32Bits(value[3]),
        }
    }
}

impl Default for ClearColor {
    fn default() -> (r: ClearColor)
        ensures
            r == ClearColor::spec_default(),
    {
        ClearColor {
            x: F32Bits::ZERO(),
            y: F32Bits::ZERO(),
            z: F32Bits::ZERO(),
            w: F32Bits::ONE(),
        }
    }
}

// ---------------------------------------------------------------------------
// Laws
// ---------------------------------------------------------------------------

/// Two layouts convert to the same Vulkan layout only if they are the same: the
/// number inside the converted value tells the layout.
pub proof fn converted_layouts_are_distinct(
    a: TextureLayout,
    b: TextureLayout,
    x: vk::ImageLayout,
    y: vk::ImageLayout,
)
    requires
        vulkan::vk_layout_code(x) == a.spec_code(),
        vulkan::vk_layout_code(y) == b.spec_code(),
    ensures
        a != b ==> x != y,
        vulkan::vk_layout_code(x) == vulkan::vk_layout_code(y) <==> a == b,
{
}

} // verus!
