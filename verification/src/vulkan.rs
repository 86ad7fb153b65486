//! What the library takes from the `ash` bindings on trust.
//!
//! The Vulkan enumerations and flag sets of `ash` are opaque to the verifier. Each
//! is a number in a wrapper: `from_raw` wraps a number and `as_raw` unwraps it.

use ash::vk;
use ash::vk::Format as VkFormat;
use vstd::prelude::*;

verus! {

/// `ash::vk::Format`.
#[verifier::external_type_specification]
#[verifier::external_body]
pub struct ExFormat(VkFormat);

/// `ash::vk::ImageLayout`.
#[verifier::external_type_specification]
#[verifier::external_body]
pub struct ExImageLayout(vk::ImageLayout);

/// `ash::vk::PipelineStageFlags2`.
#[verifier::external_type_specification]
#[verifier::external_body]
pub struct ExPipelineStageFlags2(vk::PipelineStageFlags2);

/// `ash::vk::AccessFlags2`.
#[verifier::external_type_specification]
#[verifier::external_body]
pub struct ExAccessFlags2(vk::AccessFlags2);

/// `ash::vk::Result`.
#[verifier::external_type_specification]
#[verifier::external_body]
pub struct ExResult(vk::Result);

/// The number inside a format.
pub uninterp spec fn vk_format_code(format: VkFormat) -> i32;

/// The number inside an image layout.
pub uninterp spec fn vk_layout_code(layout: vk::ImageLayout) -> i32;

/// The bits inside a set of pipeline stages.
pub uninterp spec fn vk_stage_bits(stages: vk::PipelineStageFlags2) -> u64;

/// The bits inside a set of access kinds.
pub uninterp spec fn vk_access_bits(accesses: vk::AccessFlags2) -> u64;

/// The number of a result.
pub uninterp spec fn vk_result_code(result: vk::Result) -> i32;

/// The text that a result displays.
pub uninterp spec fn vk_result_text(result: vk::Result) -> Seq<char>;

/// `ash::vk::Format::from_raw` wraps the number and does nothing else, so that the
/// number inside the format is the one it was made of.
pub assume_specification[ VkFormat::from_raw ](x: i32) -> (r: VkFormat)
    ensures
        vk_format_code(r) == x,
;

/// `ash::vk::ImageLayout::from_raw` wraps the number and does nothing else, so that
/// the number inside the layout is the one it was made of.
pub assume_specification[ vk::ImageLayout::from_raw ](x: i32) -> (r: vk::ImageLayout)
    ensures
        vk_layout_code(r) == x,
;

/// `ash::vk::PipelineStageFlags2::from_raw` wraps the bits and does nothing else, so
/// that the bits inside the set are those it was made of.
pub assume_specification[ vk::PipelineStageFlags2::from_raw ](x: u64) -> (r:
    vk::PipelineStageFlags2)
    ensures
        vk_stage_bits(r) == x,
;

/// `ash::vk::AccessFlags2::from_raw` wraps the bits and does nothing else, so that
/// the bits inside the set are those it was made of.
pub assume_specification[ vk::AccessFlags2::from_raw ](x: u64) -> (r: vk::AccessFlags2)
    ensures
        vk_access_bits(r) == x,
;

/// `ash::vk::Result::as_raw` reads the number out of a result, so that equal
/// results have equal numbers.
pub assume_specification[ vk::Result::as_raw ](self_: vk::Result) -> (r: i32)
    ensures
        r == vk_result_code(self_),
;

/// The `Display` text of `ash::vk::Result`, which depends on the result alone.
#[verifier::external_body]
pub(crate) fn result_text(result: vk::Result) -> (r: String)
    ensures
        r@ == vk_result_text(result),
{
    format!("{}", result)
}

/// `ash::vk::api_version_major` reads bits 22 to 28 of a packed version.
pub assume_specification[ vk::api_version_major ](version: u32) -> (r: u32)
    ensures
        r == (version >> 22) & 0x7f,
;

/// `ash::vk::api_version_minor` reads bits 12 to 21 of a packed version.
pub assume_specification[ vk::api_version_minor ](version: u32) -> (r: u32)
    ensures
        r == (version >> 12) & 0x3ff,
;

} // verus!
