use no_graphics_api::error::{driver_result, error_of_code, unsupported};
use no_graphics_api::flags::{access_mask_bits, stage_mask_bits};
use no_graphics_api::text;
use no_graphics_api::texture::compare_number;
use no_graphics_api::{
    Access, AddressMode, BaseFeatures, BlendComponentState, BlendFactor, BlendOp, BlendState,
    ClearColor, ColorAttachment, ColorTargetDesc, CompareOp, CullMode, DepthAttachment,
    DepthStencilState, DeviceDesc, F32Bits, Filter, Format, GpuError, GraphicsPSODesc, ImageAspect,
    ImageCreateFlags, ImageType, LoadOp, MeshPSODesc, RasterizationState, RenderViewDesc,
    RenderingDesc, SamplerDesc, Scissor, Stage, StencilAttachment, StencilFaceState, StencilOp,
    StoreOp, TextureAspect, TextureCopyDesc, TextureDesc, TextureDescriptorDesc, TextureFormatInfo,
    TextureLayout, TextureType, TextureUsage, U32x2, U32x3, VULKAN_API_VERSION, ViewType, Viewport,
    Vulkan12Features, Vulkan13Features, blend_factor, image_usage, required_features,
    texture_copy_region, validate_texture_desc, vk,
};

#[test]
fn rejection_lists_all_missing_requirements() {
    let missing = required_features(
        vk::API_VERSION_1_3,
        &BaseFeatures::default(),
        &Vulkan12Features::default(),
        &Vulkan13Features::default(),
        false,
    );
    for expected in [
        "Vulkan 1.4",
        "bufferDeviceAddress",
        "timelineSemaphore",
        "dynamicRendering",
        "synchronization2",
        "VK_EXT_descriptor_buffer / descriptorBuffer",
        "runtimeDescriptorArray",
        "shaderStorageImageArrayNonUniformIndexing",
    ] {
        assert!(missing.contains(&expected), "missing diagnostic: {expected}");
    }
    assert_eq!(GpuError::from(vk::Result::TIMEOUT), GpuError::Timeout);
    assert_eq!(
        GpuError::from(vk::Result::ERROR_DEVICE_LOST),
        GpuError::DeviceLost
    );
    assert_eq!(
        GpuError::from(vk::Result::ERROR_OUT_OF_HOST_MEMORY),
        GpuError::DriverError(vk::Result::ERROR_OUT_OF_HOST_MEMORY)
    );
}

#[test]
fn pitched_array_copy_uses_last_texel_not_full_padding() {
    let texture = TextureDesc {
        texture_type: TextureType::TwoDArray,
        extent: U32x3 { x: 3, y: 2, z: 1 },
        layer_count: 2,
        ..TextureDesc::default()
    };
    let copy = TextureCopyDesc {
        row_pitch_bytes: 16,
        slice_pitch_bytes: 48,
        ..TextureCopyDesc::default()
    };
    // 48 bytes to layer 1, 16 to its final row, then 12 bytes of actual texels.
    let region = texture_copy_region(&texture, &copy, TextureAspect::Automatic, 0, 76).unwrap();
    assert_eq!(region.buffer_row_length, 4);
    assert_eq!(region.buffer_image_height, 3);
    assert_eq!(region.image_subresource.layer_count, 2);
    assert!(texture_copy_region(&texture, &copy, TextureAspect::Automatic, 0, 75).is_err());
}

#[test]
fn compressed_copy_accepts_partial_edge_blocks_only() {
    let texture = TextureDesc {
        format: Format::Bc7Unorm,
        extent: U32x3 { x: 7, y: 5, z: 1 },
        ..TextureDesc::default()
    };
    assert!(
        texture_copy_region(
            &texture,
            &TextureCopyDesc::default(),
            TextureAspect::Automatic,
            0,
            64
        )
        .is_ok()
    );
    let partial = TextureCopyDesc {
        extent: U32x3 { x: 3, y: 4, z: 1 },
        ..TextureCopyDesc::default()
    };
    assert!(texture_copy_region(&texture, &partial, TextureAspect::Automatic, 0, 64).is_err());
    let edge = TextureCopyDesc {
        offset: U32x3 { x: 4, y: 4, z: 0 },
        ..TextureCopyDesc::default()
    };
    let region = texture_copy_region(&texture, &edge, TextureAspect::Automatic, 16, 16).unwrap();
    assert_eq!(region.image_extent.width, 3);
    assert_eq!(region.image_extent.height, 1);
    assert!(texture_copy_region(&texture, &edge, TextureAspect::Automatic, 4, 16).is_err());
}

#[test]
fn depth_stencil_copy_uses_aspect_specific_texel_size() {
    let texture = TextureDesc {
        format: Format::D32FloatS8Uint,
        extent: U32x3 { x: 4, y: 1, z: 1 },
        ..TextureDesc::default()
    };
    let copy = TextureCopyDesc::default();
    assert!(texture_copy_region(&texture, &copy, TextureAspect::Automatic, 0, 32).is_err());
    assert!(texture_copy_region(&texture, &copy, TextureAspect::Depth, 0, 16).is_ok());
    assert!(texture_copy_region(&texture, &copy, TextureAspect::Depth, 0, 15).is_err());
    assert!(texture_copy_region(&texture, &copy, TextureAspect::Stencil, 0, 4).is_ok());
    assert!(texture_copy_region(&texture, &copy, TextureAspect::Stencil, 0, 3).is_err());
}

#[test]
fn copy_rejects_pitch_overflow_and_invalid_subresources() {
    let texture = TextureDesc {
        extent: U32x3 { x: 8, y: 8, z: 1 },
        mip_levels: 4,
        ..TextureDesc::default()
    };
    let copies = [
        TextureCopyDesc {
            row_pitch_bytes: u64::MAX - 3,
            ..TextureCopyDesc::default()
        },
        TextureCopyDesc {
            row_pitch_bytes: 31,
            ..TextureCopyDesc::default()
        },
        TextureCopyDesc {
            slice_pitch_bytes: 255,
            ..TextureCopyDesc::default()
        },
        TextureCopyDesc {
            mip_level: 4,
            ..TextureCopyDesc::default()
        },
        TextureCopyDesc {
            base_slice: 1,
            ..TextureCopyDesc::default()
        },
        TextureCopyDesc {
            offset: U32x3 { x: 8, y: 0, z: 0 },
            ..TextureCopyDesc::default()
        },
    ];
    for copy in copies {
        assert!(
            texture_copy_region(&texture, &copy, TextureAspect::Automatic, 0, u64::MAX).is_err()
        );
    }
    let last_mip = TextureCopyDesc {
        mip_level: 3,
        ..TextureCopyDesc::default()
    };
    assert_eq!(
        texture_copy_region(&texture, &last_mip, TextureAspect::Automatic, 0, 4)
            .unwrap()
            .image_extent
            .width,
        1
    );
}

#[test]
fn texture_shape_and_mips_are_validated_before_driver_calls() {
    let mut desc = TextureDesc {
        texture_type: TextureType::Cube,
        extent: U32x3 { x: 16, y: 16, z: 1 },
        layer_count: 6,
        mip_levels: 5,
        ..TextureDesc::default()
    };
    assert!(
        validate_texture_desc(&desc)
            .unwrap()
            .1
            .contains(ImageCreateFlags::CUBE_COMPATIBLE())
    );
    desc.mip_levels = 6;
    assert!(validate_texture_desc(&desc).is_err());
    desc.mip_levels = 1;
    desc.layer_count = 7;
    assert!(validate_texture_desc(&desc).is_err());
    desc.texture_type = TextureType::ThreeD;
    assert!(validate_texture_desc(&desc).is_err());
    desc.layer_count = 1;
    assert!(validate_texture_desc(&desc).is_ok());
}

#[test]
fn synchronization_masks_are_not_raw_api_enum_values() {
    assert_eq!(
        vk::PipelineStageFlags2::from(Stage::TRANSFER() | Stage::COMPUTE()),
        vk::PipelineStageFlags2::ALL_TRANSFER | vk::PipelineStageFlags2::COMPUTE_SHADER
    );
    assert_eq!(
        vk::PipelineStageFlags2::from(Stage::DEPTH_STENCIL_TESTS()),
        vk::PipelineStageFlags2::EARLY_FRAGMENT_TESTS
            | vk::PipelineStageFlags2::LATE_FRAGMENT_TESTS
    );
    assert_eq!(
        vk::AccessFlags2::from(Access::DESCRIPTOR_READ() | Access::HOST_WRITE()),
        vk::AccessFlags2::DESCRIPTOR_BUFFER_READ_EXT | vk::AccessFlags2::HOST_WRITE
    );
    assert_eq!(
        vk::ImageLayout::from(TextureLayout::Present),
        vk::ImageLayout::PRESENT_SRC_KHR
    );
}

// ---------------------------------------------------------------------------
// Vulkan's numbers
// ---------------------------------------------------------------------------

fn formats() -> Vec<(Format, vk::Format)> {
    vec![
        (Format::R8Srgb, vk::Format::R8_SRGB),
        (Format::Rg8Srgb, vk::Format::R8G8_SRGB),
        (Format::Rgba8Srgb, vk::Format::R8G8B8A8_SRGB),
        (Format::Bgra8Srgb, vk::Format::B8G8R8A8_SRGB),
        (Format::Rgba4Unorm, vk::Format::R4G4B4A4_UNORM_PACK16),
        (Format::R5g5b5a1Unorm, vk::Format::R5G5B5A1_UNORM_PACK16),
        (Format::R5g6b5Unorm, vk::Format::R5G6B5_UNORM_PACK16),
        (Format::R8Unorm, vk::Format::R8_UNORM),
        (Format::Rg8Unorm, vk::Format::R8G8_UNORM),
        (Format::Rgba8Unorm, vk::Format::R8G8B8A8_UNORM),
        (Format::Bgra8Unorm, vk::Format::B8G8R8A8_UNORM),
        (Format::R16Unorm, vk::Format::R16_UNORM),
        (Format::Rg16Unorm, vk::Format::R16G16_UNORM),
        (Format::Rgba16Unorm, vk::Format::R16G16B16A16_UNORM),
        (Format::R8Uint, vk::Format::R8_UINT),
        (Format::Rg8Uint, vk::Format::R8G8_UINT),
        (Format::Rgba8Uint, vk::Format::R8G8B8A8_UINT),
        (Format::Bgra8Uint, vk::Format::B8G8R8A8_UINT),
        (Format::R16Uint, vk::Format::R16_UINT),
        (Format::Rg16Uint, vk::Format::R16G16_UINT),
        (Format::Rgba16Uint, vk::Format::R16G16B16A16_UINT),
        (Format::R32Uint, vk::Format::R32_UINT),
        (Format::Rg32Uint, vk::Format::R32G32_UINT),
        (Format::Rgb32Uint, vk::Format::R32G32B32_UINT),
        (Format::Rgba32Uint, vk::Format::R32G32B32A32_UINT),
        (Format::R16Float, vk::Format::R16_SFLOAT),
        (Format::Rg16Float, vk::Format::R16G16_SFLOAT),
        (Format::Rgba16Float, vk::Format::R16G16B16A16_SFLOAT),
        (Format::R32Float, vk::Format::R32_SFLOAT),
        (Format::Rg32Float, vk::Format::R32G32_SFLOAT),
        (Format::Rgb32Float, vk::Format::R32G32B32_SFLOAT),
        (Format::Rgba32Float, vk::Format::R32G32B32A32_SFLOAT),
        (Format::Rgb10a2Unorm, vk::Format::A2B10G10R10_UNORM_PACK32),
        (Format::Rg11b10Float, vk::Format::B10G11R11_UFLOAT_PACK32),
        (Format::D16Unorm, vk::Format::D16_UNORM),
        (Format::D24UnormS8Uint, vk::Format::D24_UNORM_S8_UINT),
        (Format::D32Float, vk::Format::D32_SFLOAT),
        (Format::S8Uint, vk::Format::S8_UINT),
        (Format::D32FloatS8Uint, vk::Format::D32_SFLOAT_S8_UINT),
        (Format::EacRg, vk::Format::EAC_R11G11_UNORM_BLOCK),
        (Format::Astc4x4Srgb, vk::Format::ASTC_4X4_SRGB_BLOCK),
        (Format::Astc4x4Unorm, vk::Format::ASTC_4X4_UNORM_BLOCK),
        (Format::Bc3Srgb, vk::Format::BC3_SRGB_BLOCK),
        (Format::Bc3Unorm, vk::Format::BC3_UNORM_BLOCK),
        (Format::Bc5Rg, vk::Format::BC5_UNORM_BLOCK),
        (Format::Bc7Srgb, vk::Format::BC7_SRGB_BLOCK),
        (Format::Bc7Unorm, vk::Format::BC7_UNORM_BLOCK),
        (Format::Undefined, vk::Format::UNDEFINED),
    ]
}

#[test]
fn formats_have_vulkan_counterparts_of_their_own() {
    let all = formats();
    assert_eq!(all.len(), 48);
    for (index, (format, raw)) in all.iter().enumerate() {
        assert_eq!(vk::Format::from(*format), *raw);
        assert_eq!(format.code(), raw.as_raw());
        assert_eq!(format.name(), format!("{format:?}"));
        for (other, _) in &all[..index] {
            assert_ne!(other.code(), format.code());
        }
    }
}

#[test]
fn blocks_and_aspects_of_formats() {
    let info = |format| TextureFormatInfo::get_texture_format_info(format);
    assert_eq!(
        info(Format::Undefined),
        TextureFormatInfo {
            block_extent: U32x2 { x: 0, y: 0 },
            bytes_per_block: 0,
            depth: false,
            stencil: false,
        }
    );
    for (format, bytes) in [
        (Format::R8Unorm, 1),
        (Format::R5g6b5Unorm, 2),
        (Format::Rgba8Srgb, 4),
        (Format::Rg11b10Float, 4),
        (Format::Rgba16Float, 8),
        (Format::Rgb32Float, 12),
        (Format::Rgba32Uint, 16),
    ] {
        let info = info(format);
        assert_eq!(info.block_extent, U32x2 { x: 1, y: 1 });
        assert_eq!(info.bytes_per_block, bytes);
        assert!(!info.depth && !info.stencil);
    }
    for format in [Format::EacRg, Format::Astc4x4Srgb, Format::Bc3Unorm, Format::Bc5Rg] {
        assert_eq!(info(format).block_extent, U32x2 { x: 4, y: 4 });
        assert_eq!(info(format).bytes_per_block, 16);
    }
    let aspects = |format| (info(format).depth, info(format).stencil);
    assert_eq!(aspects(Format::D16Unorm), (true, false));
    assert_eq!(aspects(Format::D32Float), (true, false));
    assert_eq!(aspects(Format::S8Uint), (false, true));
    assert_eq!(aspects(Format::D24UnormS8Uint), (true, true));
    assert_eq!(aspects(Format::D32FloatS8Uint), (true, true));
}

#[test]
fn different_values_convert_apart() {
    let all = formats();
    for (a, _) in &all {
        for (b, _) in &all {
            assert_eq!(vk::Format::from(*a) == vk::Format::from(*b), a == b);
        }
    }
    let layouts = [
        TextureLayout::Undefined,
        TextureLayout::General,
        TextureLayout::Sampled,
        TextureLayout::ColorAttachment,
        TextureLayout::DepthStencilAttachment,
        TextureLayout::TransferSource,
        TextureLayout::TransferDestination,
        TextureLayout::Present,
    ];
    for a in layouts {
        for b in layouts {
            assert_eq!(vk::ImageLayout::from(a) == vk::ImageLayout::from(b), a == b);
        }
    }
    for a in 0..0x800u64 {
        let next = vk::PipelineStageFlags2::from(Stage(a + 1));
        assert!(a == 0x7ff || vk::PipelineStageFlags2::from(Stage(a)) != next);
    }
    for a in 0..0x2000u64 {
        let next = vk::AccessFlags2::from(Access(a + 1));
        assert!(a == 0x1fff || vk::AccessFlags2::from(Access(a)) != next);
    }
}

#[test]
fn every_stage_has_its_mask() {
    for (stage, raw) in [
        (Stage::NONE(), vk::PipelineStageFlags2::empty()),
        (Stage::INDIRECT(), vk::PipelineStageFlags2::DRAW_INDIRECT),
        (Stage::INDEX_INPUT(), vk::PipelineStageFlags2::INDEX_INPUT),
        (Stage::VERTEX(), vk::PipelineStageFlags2::VERTEX_SHADER),
        (Stage::MESH(), vk::PipelineStageFlags2::MESH_SHADER_EXT),
        (
            Stage::DEPTH_STENCIL_TESTS(),
            vk::PipelineStageFlags2::EARLY_FRAGMENT_TESTS
                | vk::PipelineStageFlags2::LATE_FRAGMENT_TESTS,
        ),
        (Stage::FRAGMENT(), vk::PipelineStageFlags2::FRAGMENT_SHADER),
        (
            Stage::COLOR_OUTPUT(),
            vk::PipelineStageFlags2::COLOR_ATTACHMENT_OUTPUT,
        ),
        (Stage::COMPUTE(), vk::PipelineStageFlags2::COMPUTE_SHADER),
        (Stage::TRANSFER(), vk::PipelineStageFlags2::ALL_TRANSFER),
        (Stage::HOST(), vk::PipelineStageFlags2::HOST),
        (Stage::ALL_COMMANDS(), vk::PipelineStageFlags2::ALL_COMMANDS),
        (Stage(1 << 40), vk::PipelineStageFlags2::empty()),
    ] {
        assert_eq!(vk::PipelineStageFlags2::from(stage), raw);
        assert_eq!(stage_mask_bits(stage), raw.as_raw());
    }
}

#[test]
fn every_access_has_its_mask() {
    for (access, raw) in [
        (Access::NONE(), vk::AccessFlags2::empty()),
        (Access::TRANSFER_READ(), vk::AccessFlags2::TRANSFER_READ),
        (Access::TRANSFER_WRITE(), vk::AccessFlags2::TRANSFER_WRITE),
        (Access::SHADER_READ(), vk::AccessFlags2::SHADER_READ),
        (Access::SHADER_WRITE(), vk::AccessFlags2::SHADER_WRITE),
        (Access::COLOR_READ(), vk::AccessFlags2::COLOR_ATTACHMENT_READ),
        (Access::COLOR_WRITE(), vk::AccessFlags2::COLOR_ATTACHMENT_WRITE),
        (
            Access::DEPTH_STENCIL_READ(),
            vk::AccessFlags2::DEPTH_STENCIL_ATTACHMENT_READ,
        ),
        (
            Access::DEPTH_STENCIL_WRITE(),
            vk::AccessFlags2::DEPTH_STENCIL_ATTACHMENT_WRITE,
        ),
        (Access::INDIRECT_READ(), vk::AccessFlags2::INDIRECT_COMMAND_READ),
        (Access::INDEX_READ(), vk::AccessFlags2::INDEX_READ),
        (Access::HOST_READ(), vk::AccessFlags2::HOST_READ),
        (Access::HOST_WRITE(), vk::AccessFlags2::HOST_WRITE),
        (
            Access::DESCRIPTOR_READ(),
            vk::AccessFlags2::DESCRIPTOR_BUFFER_READ_EXT,
        ),
    ] {
        assert_eq!(vk::AccessFlags2::from(access), raw);
        assert_eq!(access_mask_bits(access), raw.as_raw());
    }
}

#[test]
fn every_usage_has_its_mask() {
    for (usage, raw) in [
        (TextureUsage::NONE(), vk::ImageUsageFlags::empty()),
        (TextureUsage::SAMPLED(), vk::ImageUsageFlags::SAMPLED),
        (TextureUsage::STORAGE(), vk::ImageUsageFlags::STORAGE),
        (
            TextureUsage::COLOR_ATTACHMENT(),
            vk::ImageUsageFlags::COLOR_ATTACHMENT,
        ),
        (
            TextureUsage::DEPTH_STENCIL_ATTACHMENT(),
            vk::ImageUsageFlags::DEPTH_STENCIL_ATTACHMENT,
        ),
        (
            TextureUsage::TRANSFER_SOURCE(),
            vk::ImageUsageFlags::TRANSFER_SRC,
        ),
        (
            TextureUsage::TRANSFER_DESTINATION(),
            vk::ImageUsageFlags::TRANSFER_DST,
        ),
    ] {
        assert_eq!(image_usage(usage), raw.as_raw());
    }
    assert_eq!(
        image_usage(TextureUsage::SAMPLED() | TextureUsage::TRANSFER_DESTINATION()),
        (vk::ImageUsageFlags::SAMPLED | vk::ImageUsageFlags::TRANSFER_DST).as_raw()
    );
}

#[test]
fn unions_contain_their_parts() {
    let mut stages = Stage::VERTEX() | Stage::HOST();
    assert!(stages.contains(Stage::VERTEX()) && stages.contains(Stage::HOST()));
    assert!(!stages.contains(Stage::VERTEX() | Stage::MESH()));
    assert!(stages.intersects(Stage::VERTEX() | Stage::MESH()));
    assert_eq!(stages & Stage::HOST(), Stage::HOST());
    stages |= Stage::MESH();
    assert_eq!(stages.bits(), (1 << 1) | (1 << 5) | (1 << 9));
    let mut access = Access::HOST_READ() | Access::INDEX_READ();
    assert!(access.contains(Access::INDEX_READ()) && !access.intersects(Access::HOST_WRITE()));
    access |= Access::HOST_WRITE();
    assert_eq!((access & Access::HOST_WRITE()).bits(), 1 << 12);
    assert_eq!(access.bits(), (1 << 10) | (1 << 9) | (1 << 12));
    let mut usage = TextureUsage::SAMPLED() | TextureUsage::STORAGE();
    usage |= TextureUsage::TRANSFER_SOURCE();
    assert_eq!(usage.bits(), 1 | 2 | 16);
    assert!(usage.contains(TextureUsage::STORAGE()));
    assert!(!usage.intersects(TextureUsage::COLOR_ATTACHMENT()));
}

#[test]
fn layouts_have_vulkan_counterparts() {
    for (layout, raw) in [
        (TextureLayout::Undefined, vk::ImageLayout::UNDEFINED),
        (TextureLayout::General, vk::ImageLayout::GENERAL),
        (
            TextureLayout::Sampled,
            vk::ImageLayout::SHADER_READ_ONLY_OPTIMAL,
        ),
        (
            TextureLayout::ColorAttachment,
            vk::ImageLayout::COLOR_ATTACHMENT_OPTIMAL,
        ),
        (
            TextureLayout::DepthStencilAttachment,
            vk::ImageLayout::DEPTH_STENCIL_ATTACHMENT_OPTIMAL,
        ),
        (
            TextureLayout::TransferSource,
            vk::ImageLayout::TRANSFER_SRC_OPTIMAL,
        ),
        (
            TextureLayout::TransferDestination,
            vk::ImageLayout::TRANSFER_DST_OPTIMAL,
        ),
        (TextureLayout::Present, vk::ImageLayout::PRESENT_SRC_KHR),
    ] {
        assert_eq!(vk::ImageLayout::from(layout), raw);
        assert_eq!(layout.code(), raw.as_raw());
    }
}

#[test]
fn shapes_and_aspects_have_vulkan_numbers() {
    assert_eq!(ImageType::OneD.code(), vk::ImageType::TYPE_1D.as_raw());
    assert_eq!(ImageType::TwoD.code(), vk::ImageType::TYPE_2D.as_raw());
    assert_eq!(ImageType::ThreeD.code(), vk::ImageType::TYPE_3D.as_raw());
    for (view, raw) in [
        (ViewType::OneD, vk::ImageViewType::TYPE_1D),
        (ViewType::TwoD, vk::ImageViewType::TYPE_2D),
        (ViewType::ThreeD, vk::ImageViewType::TYPE_3D),
        (ViewType::Cube, vk::ImageViewType::CUBE),
        (ViewType::TwoDArray, vk::ImageViewType::TYPE_2D_ARRAY),
        (ViewType::CubeArray, vk::ImageViewType::CUBE_ARRAY),
    ] {
        assert_eq!(view.code(), raw.as_raw());
    }
    assert_eq!(
        ImageCreateFlags::MUTABLE_FORMAT().0,
        vk::ImageCreateFlags::MUTABLE_FORMAT.as_raw()
    );
    assert_eq!(
        ImageCreateFlags::CUBE_COMPATIBLE().0,
        vk::ImageCreateFlags::CUBE_COMPATIBLE.as_raw()
    );
    let both = ImageAspect { color: false, depth: true, stencil: true };
    assert_eq!(
        both.bits(),
        (vk::ImageAspectFlags::DEPTH | vk::ImageAspectFlags::STENCIL).as_raw()
    );
    assert!(!both.is_single());
    let color = ImageAspect { color: true, depth: false, stencil: false };
    assert_eq!(color.bits(), vk::ImageAspectFlags::COLOR.as_raw());
    assert!(color.is_single());
}

#[test]
fn comparisons_and_factors_have_vulkan_numbers() {
    for (compare, raw) in [
        (CompareOp::Never, vk::CompareOp::NEVER),
        (CompareOp::Less, vk::CompareOp::LESS),
        (CompareOp::Equal, vk::CompareOp::EQUAL),
        (CompareOp::LessEqual, vk::CompareOp::LESS_OR_EQUAL),
        (CompareOp::Greater, vk::CompareOp::GREATER),
        (CompareOp::NotEqual, vk::CompareOp::NOT_EQUAL),
        (CompareOp::GreaterEqual, vk::CompareOp::GREATER_OR_EQUAL),
        (CompareOp::Always, vk::CompareOp::ALWAYS),
    ] {
        assert_eq!(compare_number(compare), raw.as_raw());
    }
    for (factor, raw) in [
        (BlendFactor::Zero, vk::BlendFactor::ZERO),
        (BlendFactor::One, vk::BlendFactor::ONE),
        (BlendFactor::SourceColor, vk::BlendFactor::SRC_COLOR),
        (BlendFactor::OneMinusSourceColor, vk::BlendFactor::ONE_MINUS_SRC_COLOR),
        (BlendFactor::DestinationColor, vk::BlendFactor::DST_COLOR),
        (
            BlendFactor::OneMinusDestinationColor,
            vk::BlendFactor::ONE_MINUS_DST_COLOR,
        ),
        (BlendFactor::SourceAlpha, vk::BlendFactor::SRC_ALPHA),
        (BlendFactor::OneMinusSourceAlpha, vk::BlendFactor::ONE_MINUS_SRC_ALPHA),
        (BlendFactor::DestinationAlpha, vk::BlendFactor::DST_ALPHA),
        (
            BlendFactor::OneMinusDestinationAlpha,
            vk::BlendFactor::ONE_MINUS_DST_ALPHA,
        ),
        (BlendFactor::SourceAlphaSaturate, vk::BlendFactor::SRC_ALPHA_SATURATE),
    ] {
        assert_eq!(blend_factor(factor), raw.as_raw());
    }
}

// ---------------------------------------------------------------------------
// Errors and text
// ---------------------------------------------------------------------------

#[test]
fn driver_results_become_errors() {
    for (result, error) in [
        (vk::Result::ERROR_DEVICE_LOST, GpuError::DeviceLost),
        (vk::Result::TIMEOUT, GpuError::Timeout),
        (vk::Result::NOT_READY, GpuError::Timeout),
        (vk::Result::ERROR_OUT_OF_DATE_KHR, GpuError::OutOfDate),
        (vk::Result::ERROR_SURFACE_LOST_KHR, GpuError::SurfaceLost),
        (
            vk::Result::ERROR_FORMAT_NOT_SUPPORTED,
            GpuError::DriverError(vk::Result::ERROR_FORMAT_NOT_SUPPORTED),
        ),
    ] {
        assert_eq!(GpuError::from(result), error);
        assert_eq!(error_of_code(result.as_raw(), result), error);
        assert_eq!(driver_result::<u8>(Err(result)), Err(error.clone()));
    }
    assert_eq!(driver_result(Ok(5)), Ok(5));
}

#[test]
fn errors_have_messages() {
    let driver = vk::Result::ERROR_OUT_OF_HOST_MEMORY;
    for (error, message) in [
        (unsupported("mesh"), "unsupported: mesh".to_string()),
        (
            GpuError::InvalidArgument("no acquired frame"),
            "invalid argument: no acquired frame".to_string(),
        ),
        (
            GpuError::Loader("no library".to_string()),
            "Vulkan loader: no library".to_string(),
        ),
        (GpuError::DriverError(driver), format!("Vulkan: {driver}")),
        (GpuError::DeviceLost, "DeviceLost".to_string()),
        (GpuError::Timeout, "Timeout".to_string()),
        (GpuError::OutOfDate, "OutOfDate".to_string()),
        (GpuError::SurfaceLost, "SurfaceLost".to_string()),
        (GpuError::WindowMinimized, "WindowMinimized".to_string()),
        (
            GpuError::unterminated_name(),
            "invalid argument: driver returned an unterminated name".to_string(),
        ),
    ] {
        assert_eq!(error.message(), message);
        assert_eq!(error.clone(), error);
    }
    assert_eq!(
        GpuError::DriverError(driver).message_with("text"),
        "Vulkan: text"
    );
}

#[test]
fn texts_are_joined() {
    assert_eq!(text::decimal(0), "0");
    assert_eq!(text::decimal(4_294_967_295), "4294967295");
    let parts = vec!["a".to_string(), "b".to_string(), "c".to_string()];
    assert_eq!(text::join(&parts, "; "), "a; b; c");
    assert_eq!(text::join(&Vec::new(), "; "), "");
    assert_eq!(text::join_literals(&vec!["x", "y"], ", "), "x, y");
    assert_eq!(text::concat("ab", "cd"), "abcd");
    assert!(text::contains_name(&parts, "b"));
    assert!(!text::contains_name(&parts, "bb"));
}

// ---------------------------------------------------------------------------
// Numbers
// ---------------------------------------------------------------------------

#[test]
fn integers_become_the_nearest_float() {
    for value in [
        0,
        1,
        2,
        3,
        640,
        16_777_215,
        16_777_216,
        16_777_217,
        16_777_218,
        16_777_219,
        33_554_434,
        33_554_435,
        2_147_483_647,
        4_294_967_167,
        4_294_967_168,
        4_294_967_295,
    ] {
        assert_eq!(F32Bits::from_u32(value).0, (value as f32).to_bits());
    }
}

#[test]
fn patterns_compare_as_numbers() {
    let values = [
        f32::NEG_INFINITY,
        -2.5,
        -0.0,
        0.0,
        1.0e-40,
        0.5,
        1.0,
        1.5,
        f32::MAX,
        f32::INFINITY,
        f32::NAN,
    ];
    for first in values {
        let bits = F32Bits(first.to_bits());
        assert_eq!(bits.is_finite(), first.is_finite());
        assert_eq!(bits.is_zero(), first == 0.0);
        assert_eq!(bits.is_in_unit_range(), (0.0..=1.0).contains(&first));
        assert_eq!(bits.abs().0, first.abs().to_bits());
        for second in values {
            assert_eq!(bits.less_than(F32Bits(second.to_bits())), first < second);
        }
    }
    assert_eq!(F32Bits::ZERO().0, 0.0_f32.to_bits());
    assert_eq!(F32Bits::ONE().0, 1.0_f32.to_bits());
}

#[test]
fn integer_clears_keep_their_bits() {
    let clear = ClearColor::from_uint([1, 0x7fc0_0001, 0, u32::MAX]);
    assert_eq!(clear.x, F32Bits(1));
    assert_eq!(clear.y, F32Bits(0x7fc0_0001));
    assert_eq!(clear.z, F32Bits(0));
    assert_eq!(clear.w, F32Bits(u32::MAX));
}

#[test]
fn extents_compare_by_component() {
    assert!(U32x2::compare(U32x2 { x: 1, y: 2 }, U32x2 { x: 1, y: 2 }));
    assert!(!U32x2::compare(U32x2 { x: 1, y: 2 }, U32x2 { x: 2, y: 2 }));
    assert!(U32x3::compare(U32x3 { x: 1, y: 2, z: 3 }, U32x3 { x: 1, y: 2, z: 3 }));
    assert!(!U32x3::compare(U32x3 { x: 1, y: 2, z: 3 }, U32x3 { x: 1, y: 2, z: 4 }));
    assert_eq!(U32x2::default(), U32x2 { x: 0, y: 0 });
    assert_eq!(U32x3::default(), U32x3 { x: 0, y: 0, z: 0 });
}

#[test]
fn defaults_are_the_documented_ones() {
    let texture = TextureDesc::default();
    assert_eq!(texture.texture_type, TextureType::TwoD);
    assert_eq!(texture.extent, U32x3 { x: 1, y: 1, z: 1 });
    assert_eq!((texture.mip_levels, texture.layer_count), (1, 1));
    assert_eq!(texture.format, Format::Rgba8Unorm);
    assert_eq!(texture.usage, TextureUsage::SAMPLED());
    assert_eq!(RenderViewDesc::default(), RenderViewDesc { mip_level: 0, slice: 0 });
    let view = TextureDescriptorDesc::default();
    assert_eq!(view.format, Format::Undefined);
    assert_eq!(view.aspect, TextureAspect::Automatic);
    let sampler = SamplerDesc::default();
    assert_eq!(sampler.min_filter, Filter::Linear);
    assert_eq!(sampler.address_w, AddressMode::Repeat);
    assert_eq!(sampler.compare, CompareOp::LessEqual);
    let component = BlendComponentState::default();
    assert_eq!(component.source, BlendFactor::One);
    assert_eq!(component.destination, BlendFactor::Zero);
    assert_eq!(component.operation, BlendOp::Add);
    assert_eq!(
        BlendState::default(),
        BlendState { enabled: false, color: component, alpha: component }
    );
    let target = ColorTargetDesc::default();
    assert_eq!((target.format, target.write_mask), (Format::Undefined, 0xf));
    assert_eq!(RasterizationState::default().cull, CullMode::Disabled);
    let viewport = Viewport::default();
    assert_eq!((viewport.width, viewport.max_depth), (F32Bits::ONE(), F32Bits::ONE()));
    assert_eq!(Scissor::default(), Scissor { x: 0, y: 0, width: 1, height: 1 });
    let face = StencilFaceState::default();
    assert_eq!((face.compare, face.pass), (CompareOp::Always, StencilOp::Keep));
    let depth = DepthStencilState::default();
    assert_eq!(depth.depth_compare, CompareOp::LessEqual);
    assert_eq!((depth.stencil_read_mask, depth.stencil_write_mask), (0xff, 0xff));
    assert_eq!(ClearColor::default().w, F32Bits::ONE());
    let color = ColorAttachment::default();
    assert_eq!((color.load, color.store), (LoadOp::Load, StoreOp::Store));
    assert_eq!(DepthAttachment::default().clear, F32Bits::ONE());
    assert_eq!(StencilAttachment::default().clear, 0);
    assert!(RenderingDesc::default().colors.is_empty());
    assert!(GraphicsPSODesc::default().vertex_spirv.is_empty());
    assert!(MeshPSODesc::default().mesh_spirv.is_empty());
    let device = DeviceDesc::default();
    assert_eq!(device.desired_swapchain_image_count, 2);
    assert_eq!(device.timestamp_query_count, 256);
    assert_eq!(device.descriptor_count, 1024);
    assert!(!device.validation && !device.windowed);
    assert_eq!(VULKAN_API_VERSION, vk::make_api_version(0, 1, 4, 0));
}

// ---------------------------------------------------------------------------
// Copies and shapes, case by case
// ---------------------------------------------------------------------------

#[test]
fn copy_regions_are_filled_in() {
    let texture = TextureDesc {
        texture_type: TextureType::ThreeD,
        extent: U32x3 { x: 16, y: 8, z: 4 },
        mip_levels: 2,
        format: Format::Rg16Uint,
        ..TextureDesc::default()
    };
    let copy = TextureCopyDesc {
        mip_level: 1,
        offset: U32x3 { x: 2, y: 1, z: 1 },
        ..TextureCopyDesc::default()
    };
    // The level is 8 by 4 by 2; 6 by 3 by 1 texels remain.
    let region = texture_copy_region(&texture, &copy, TextureAspect::Color, 8, 72).unwrap();
    assert_eq!(region.buffer_offset, 8);
    assert_eq!(region.buffer_row_length, 6);
    assert_eq!(region.buffer_image_height, 3);
    assert_eq!(region.image_subresource.mip_level, 1);
    assert_eq!(region.image_subresource.base_array_layer, 0);
    assert!(region.image_subresource.aspect_mask.color);
    let offset = region.image_offset;
    assert_eq!((offset.x, offset.y, offset.z), (2, 1, 1));
    let extent = region.image_extent;
    assert_eq!((extent.width, extent.height, extent.depth), (6, 3, 1));
    assert!(texture_copy_region(&texture, &copy, TextureAspect::Color, 8, 71).is_err());
}

#[test]
fn each_copy_error_has_its_input() {
    let texture = TextureDesc {
        texture_type: TextureType::TwoDArray,
        extent: U32x3 { x: 8, y: 8, z: 1 },
        layer_count: 3,
        ..TextureDesc::default()
    };
    let plain = TextureCopyDesc::default();
    let try_copy = |texture: &TextureDesc, copy: &TextureCopyDesc, aspect, offset, size| {
        match texture_copy_region(texture, copy, aspect, offset, size) {
            Err(GpuError::InvalidArgument(message)) => message,
            _ => "accepted",
        }
    };
    let refused = |copy: TextureCopyDesc| {
        try_copy(&texture, &copy, TextureAspect::Automatic, 0, u64::MAX)
    };
    assert_eq!(
        refused(TextureCopyDesc { mip_level: 1, ..plain }),
        "copy subresource out of bounds"
    );
    assert_eq!(
        refused(TextureCopyDesc { offset: U32x3 { x: 0, y: 8, z: 0 }, ..plain }),
        "copy offset out of bounds"
    );
    assert_eq!(
        refused(TextureCopyDesc { extent: U32x3 { x: 9, y: 0, z: 0 }, ..plain }),
        "copy extent out of bounds"
    );
    assert_eq!(
        refused(TextureCopyDesc { base_slice: 1, slice_count: 3, ..plain }),
        "copy layers out of bounds"
    );
    assert_eq!(
        refused(TextureCopyDesc { row_pitch_bytes: 34, ..plain }),
        "row pitch is too small or not block aligned"
    );
    assert_eq!(
        refused(TextureCopyDesc { row_pitch_bytes: 1 << 62, ..plain }),
        "copy pitch overflow"
    );
    assert_eq!(
        refused(TextureCopyDesc { slice_pitch_bytes: 260, ..plain }),
        "slice pitch is too small or not a multiple of row pitch"
    );
    assert_eq!(
        refused(TextureCopyDesc { row_pitch_bytes: 1 << 32, ..plain }),
        "copy pitch exceeds Vulkan limits"
    );
    assert_eq!(
        refused(TextureCopyDesc { slice_pitch_bytes: 32 * ((1 << 32) - 1), ..plain }),
        "accepted"
    );
    let huge = TextureDesc { extent: U32x3 { x: u32::MAX, y: 8, z: 1 }, ..texture };
    let far = TextureCopyDesc { offset: U32x3 { x: 1 << 31, y: 0, z: 0 }, ..plain };
    assert_eq!(
        try_copy(&huge, &far, TextureAspect::Automatic, 0, u64::MAX),
        "copy offsets exceed signed coordinate bounds"
    );
    let combined = TextureDesc { format: Format::D24UnormS8Uint, ..texture };
    assert_eq!(
        try_copy(&combined, &plain, TextureAspect::Automatic, 0, u64::MAX),
        "select Depth or Stencil for combined formats"
    );
    assert_eq!(
        try_copy(&combined, &plain, TextureAspect::Color, 0, u64::MAX),
        "copy aspect incompatible with texture"
    );
    let undefined = TextureDesc { format: Format::Undefined, ..texture };
    assert_eq!(
        try_copy(&undefined, &plain, TextureAspect::Color, 0, u64::MAX),
        "undefined copy format"
    );
    assert_eq!(
        try_copy(&texture, &plain, TextureAspect::Automatic, 2, u64::MAX),
        "copy needs block-aligned offsets/extent and aligned buffer offset"
    );
    assert_eq!(
        try_copy(&texture, &plain, TextureAspect::Automatic, 0, 767),
        "buffer range is too small for pitched copy"
    );
    assert_eq!(try_copy(&texture, &plain, TextureAspect::Automatic, 0, 768), "accepted");
    let deep = TextureDesc {
        texture_type: TextureType::ThreeD,
        extent: U32x3 { x: 1, y: 1, z: u32::MAX },
        layer_count: u32::MAX,
        ..texture
    };
    assert_eq!(
        try_copy(
            &deep,
            &TextureCopyDesc { row_pitch_bytes: 1 << 30, ..plain },
            TextureAspect::Automatic,
            0,
            u64::MAX
        ),
        "copy size overflow"
    );
}

#[test]
fn each_shape_error_has_its_input() {
    let plain = TextureDesc::default();
    let refused = |desc: TextureDesc| match validate_texture_desc(&desc) {
        Err(GpuError::InvalidArgument(message)) => message,
        _ => "accepted",
    };
    let empty = "texture dimensions, levels, layers, format and usage must be nonempty";
    assert_eq!(refused(TextureDesc { extent: U32x3 { x: 0, y: 1, z: 1 }, ..plain }), empty);
    assert_eq!(refused(TextureDesc { mip_levels: 0, ..plain }), empty);
    assert_eq!(refused(TextureDesc { layer_count: 0, ..plain }), empty);
    assert_eq!(refused(TextureDesc { format: Format::Undefined, ..plain }), empty);
    assert_eq!(refused(TextureDesc { usage: TextureUsage::NONE(), ..plain }), empty);
    assert_eq!(
        refused(TextureDesc {
            texture_type: TextureType::OneD,
            extent: U32x3 { x: 4, y: 2, z: 1 },
            ..plain
        }),
        "1D texture needs height/depth/layers = 1"
    );
    assert_eq!(
        refused(TextureDesc { texture_type: TextureType::ThreeD, layer_count: 2, ..plain }),
        "3D textures cannot have array layers"
    );
    assert_eq!(
        refused(TextureDesc { extent: U32x3 { x: 1, y: 1, z: 2 }, ..plain }),
        "2D/cube texture depth must be 1"
    );
    assert_eq!(
        refused(TextureDesc { layer_count: 2, ..plain }),
        "use TwoDArray for array layers"
    );
    assert_eq!(
        refused(TextureDesc {
            texture_type: TextureType::CubeArray,
            extent: U32x3 { x: 2, y: 1, z: 1 },
            layer_count: 12,
            ..plain
        }),
        "cube textures must be square with six layers per cube"
    );
    let wide = TextureDesc { extent: U32x3 { x: 1 << 31, y: 1, z: 1 }, ..plain };
    assert_eq!(refused(TextureDesc { mip_levels: 33, ..wide }), "too many mip levels");
    assert_eq!(refused(TextureDesc { mip_levels: 32, ..wide }), "accepted");
    let (shape, flags) = validate_texture_desc(&TextureDesc {
        mutable_format: true,
        ..plain
    })
    .unwrap();
    assert_eq!(shape, ImageType::TwoD);
    assert_eq!(flags, ImageCreateFlags::MUTABLE_FORMAT());
}
