//! Sets of texture uses, pipeline stages and access kinds.

use ash::vk;
use vstd::prelude::*;
use crate::vulkan;

verus! {

/// What a texture is used for.
#[derive(Debug, Clone, Copy, PartialEq, Eq, Structural)]
pub struct TextureUsage(pub u32);

#[allow(non_snake_case)]
impl TextureUsage {
    /// No use.
    #[verifier::allow_in_spec]
    pub fn NONE() -> (r: Self)
        returns
            TextureUsage(0),
    {
        TextureUsage(0)
    }

    /// Read through a sampler.
    #[verifier::allow_in_spec]
    pub fn SAMPLED() -> (r: Self)
        returns
            TextureUsage(0x01),
    {
        TextureUsage(0x01)
    }

    /// Read and written by shaders.
    #[verifier::allow_in_spec]
    pub fn STORAGE() -> (r: Self)
        returns
            TextureUsage(0x02),
    {
        TextureUsage(0x02)
    }

    /// Rendered to.
    #[verifier::allow_in_spec]
    pub fn COLOR_ATTACHMENT() -> (r: Self)
        returns
            TextureUsage(0x04),
    {
        TextureUsage(0x04)
    }

    /// Depth or stencil target.
    #[verifier::allow_in_spec]
    pub fn DEPTH_STENCIL_ATTACHMENT() -> (r: Self)
        returns
            TextureUsage(0x08),
    {
        TextureUsage(0x08)
    }

    /// Copied from.
    #[verifier::allow_in_spec]
    pub fn TRANSFER_SOURCE() -> (r: Self)
        returns
            TextureUsage(0x10),
    {
        TextureUsage(0x10)
    }

    /// Copied to.
    #[verifier::allow_in_spec]
    pub fn TRANSFER_DESTINATION() -> (r: Self)
        returns
            TextureUsage(0x20),
    {
        TextureUsage(0x20)
    }

    /// Every member of `other` is a member.
    pub open spec fn has_all(self, other: Self) -> bool {
        self.0 & other.0 == other.0
    }

    /// Some member of `other` is a member.
    pub open spec fn has_any(self, other: Self) -> bool {
        self.0 & other.0 != 0
    }

    /// The members of both.
    pub open spec fn union(self, other: Self) -> Self {
        TextureUsage(self.0 | other.0)
    }

    /// Whether every member of `other` is a member.
    pub fn contains(self, other: Self) -> (r: bool)
        ensures
            r == self.has_all(other),
    {
        (self.0 & other.0) == other.0
    }

    /// Whether some member of `other` is a member.
    pub fn intersects(self, other: Self) -> (r: bool)
        ensures
            r == self.has_any(other),
    {
        (self.0 & other.0) != 0
    }

    /// The members as bits.
    pub fn bits(self) -> (r: u32)
        ensures
            r == self.0,
    {
        self.0
    }
}

impl std::ops::BitOr for TextureUsage {
    type Output = Self;

    fn bitor(self, rhs: Self) -> (r: Self) {
        TextureUsage(self.0 | rhs.0)
    }
}

impl vstd::std_specs::ops::BitOrSpecImpl for TextureUsage {
    open spec fn obeys_bitor_spec() -> bool {
        true
    }

    open spec fn bitor_req(self, rhs: Self) -> bool {
        true
    }

    open spec fn bitor_spec(self, rhs: Self) -> Self {
        self.union(rhs)
    }
}

impl std::ops::BitOrAssign for TextureUsage {
    fn bitor_assign(&mut self, rhs: Self)
        ensures
            *final(self) == old(self).union(rhs),
    {
        self.0 = self.0 | rhs.0;
    }
}

/// Pipeline stages.
#[derive(Debug, Clone, Copy, PartialEq, Eq, Structural)]
pub struct Stage(pub u64);

#[allow(non_snake_case)]
impl Stage {
    /// No stage.
    #[verifier::allow_in_spec]
    pub fn NONE() -> (r: Self)
        returns
            Stage(0),
    {
        Stage(0)
    }

    /// Reading indirect arguments.
    #[verifier::allow_in_spec]
    pub fn INDIRECT() -> (r: Self)
        returns
            Stage(0x40),
    {
        Stage(0x40)
    }

    /// Reading indices.
    #[verifier::allow_in_spec]
    pub fn INDEX_INPUT() -> (r: Self)
        returns
            Stage(0x80),
    {
        Stage(0x80)
    }

    /// Vertex shading.
    #[verifier::allow_in_spec]
    pub fn VERTEX() -> (r: Self)
        returns
            Stage(0x02),
    {
        Stage(0x02)
    }

    /// Mesh shading.
    #[verifier::allow_in_spec]
    pub fn MESH() -> (r: Self)
        returns
            Stage(0x200),
    {
        Stage(0x200)
    }

    /// Early and late depth and stencil tests.
    #[verifier::allow_in_spec]
    pub fn DEPTH_STENCIL_TESTS() -> (r: Self)
        returns
            Stage(0x100),
    {
        Stage(0x100)
    }

    /// Fragment shading.
    #[verifier::allow_in_spec]
    pub fn FRAGMENT() -> (r: Self)
        returns
            Stage(0x04),
    {
        Stage(0x04)
    }

    /// Writing color attachments.
    #[verifier::allow_in_spec]
    pub fn COLOR_OUTPUT() -> (r: Self)
        returns
            Stage(0x10),
    {
        Stage(0x10)
    }

    /// Compute shading.
    #[verifier::allow_in_spec]
    pub fn COMPUTE() -> (r: Self)
        returns
            Stage(0x08),
    {
        Stage(0x08)
    }

    /// Copies.
    #[verifier::allow_in_spec]
    pub fn TRANSFER() -> (r: Self)
        returns
            Stage(0x01),
    {
        Stage(0x01)
    }

    /// Access by the host.
    #[verifier::allow_in_spec]
    pub fn HOST() -> (r: Self)
        returns
            Stage(0x20),
    {
        Stage(0x20)
    }

    /// Every stage.
    #[verifier::allow_in_spec]
    pub fn ALL_COMMANDS() -> (r: Self)
        returns
            Stage(0x400),
    {
        Stage(0x400)
    }

    /// Every member of `other` is a member.
    pub open spec fn has_all(self, other: Self) -> bool {
        self.0 & other.0 == other.0
    }

    /// Some member of `other` is a member.
    pub open spec fn has_any(self, other: Self) -> bool {
        self.0 & other.0 != 0
    }

    /// The members of both.
    pub open spec fn union(self, other: Self) -> Self {
        Stage(self.0 | other.0)
    }

    /// Whether every member of `other` is a member.
    pub fn contains(self, other: Self) -> (r: bool)
        ensures
            r == self.has_all(other),
    {
        (self.0 & other.0) == other.0
    }

    /// Whether some member of `other` is a member.
    pub fn intersects(self, other: Self) -> (r: bool)
        ensures
            r == self.has_any(other),
    {
        (self.0 & other.0) != 0
    }

    /// The members as bits.
    pub fn bits(self) -> (r: u64)
        ensures
            r == self.0,
    {
        self.0
    }
}

impl std::ops::BitOr for Stage {
    type Output = Self;

    fn bitor(self, rhs: Self) -> (r: Self) {
        Stage(self.0 | rhs.0)
    }
}

impl vstd::std_specs::ops::BitOrSpecImpl for Stage {
    open spec fn obeys_bitor_spec() -> bool {
        true
    }

    open spec fn bitor_req(self, rhs: Self) -> bool {
        true
    }

    open spec fn bitor_spec(self, rhs: Self) -> Self {
        self.union(rhs)
    }
}

impl std::ops::BitOrAssign for Stage {
    fn bitor_assign(&mut self, rhs: Self)
        ensures
            *final(self) == old(self).union(rhs),
    {
        self.0 = self.0 | rhs.0;
    }
}

impl std::ops::BitAnd for Stage {
    type Output = Self;

    fn bitand(self, rhs: Self) -> (r: Self) {
        Stage(self.0 & rhs.0)
    }
}

impl vstd::std_specs::ops::BitAndSpecImpl for Stage {
    open spec fn obeys_bitand_spec() -> bool {
        true
    }

    open spec fn bitand_req(self, rhs: Self) -> bool {
        true
    }

    open spec fn bitand_spec(self, rhs: Self) -> Self {
        Stage(self.0 & rhs.0)
    }
}

/// Kinds of memory access.
#[derive(Debug, Clone, Copy, PartialEq, Eq, Structural)]
pub struct Access(pub u64);

#[allow(non_snake_case)]
impl Access {
    /// No access.
    #[verifier::allow_in_spec]
    pub fn NONE() -> (r: Self)
        returns
            Access(0),
    {
        Access(0)
    }

    /// Copied from.
    #[verifier::allow_in_spec]
    pub fn TRANSFER_READ() -> (r: Self)
        returns
            Access(0x01),
    {
        Access(0x01)
    }

    /// Copied to.
    #[verifier::allow_in_spec]
    pub fn TRANSFER_WRITE() -> (r: Self)
        returns
            Access(0x02),
    {
        Access(0x02)
    }

    /// Read by a shader.
    #[verifier::allow_in_spec]
    pub fn SHADER_READ() -> (r: Self)
        returns
            Access(0x04),
    {
        Access(0x04)
    }

    /// Written by a shader.
    #[verifier::allow_in_spec]
    pub fn SHADER_WRITE() -> (r: Self)
        returns
            Access(0x08),
    {
        Access(0x08)
    }

    /// Color attachment read.
    #[verifier::allow_in_spec]
    pub fn COLOR_READ() -> (r: Self)
        returns
            Access(0x10),
    {
        Access(0x10)
    }

    /// Color attachment written.
    #[verifier::allow_in_spec]
    pub fn COLOR_WRITE() -> (r: Self)
        returns
            Access(0x20),
    {
        Access(0x20)
    }

    /// Depth or stencil attachment read.
    #[verifier::allow_in_spec]
    pub fn DEPTH_STENCIL_READ() -> (r: Self)
        returns
            Access(0x40),
    {
        Access(0x40)
    }

    /// Depth or stencil attachment written.
    #[verifier::allow_in_spec]
    pub fn DEPTH_STENCIL_WRITE() -> (r: Self)
        returns
            Access(0x80),
    {
        Access(0x80)
    }

    /// Indirect arguments read.
    #[verifier::allow_in_spec]
    pub fn INDIRECT_READ() -> (r: Self)
        returns
            Access(0x100),
    {
        Access(0x100)
    }

    /// Indices read.
    #[verifier::allow_in_spec]
    pub fn INDEX_READ() -> (r: Self)
        returns
            Access(0x200),
    {
        Access(0x200)
    }

    /// Read by the host.
    #[verifier::allow_in_spec]
    pub fn HOST_READ() -> (r: Self)
        returns
            Access(0x400),
    {
        Access(0x400)
    }

    /// Descriptors read.
    #[verifier::allow_in_spec]
    pub fn DESCRIPTOR_READ() -> (r: Self)
        returns
            Access(0x800),
    {
        Access(0x800)
    }

    /// Written by the host.
    #[verifier::allow_in_spec]
    pub fn HOST_WRITE() -> (r: Self)
        returns
            Access(0x1000),
    {
        Access(0x1000)
    }

    /// Every member of `other` is a member.
    pub open spec fn has_all(self, other: Self) -> bool {
        self.0 & other.0 == other.0
    }

    /// Some member of `other` is a member.
    pub open spec fn has_any(self, other: Self) -> bool {
        self.0 & other.0 != 0
    }

    /// The members of both.
    pub open spec fn union(self, other: Self) -> Self {
        Access(self.0 | other.0)
    }

    /// Whether every member of `other` is a member.
    pub fn contains(self, other: Self) -> (r: bool)
        ensures
            r == self.has_all(other),
    {
        (self.0 & other.0) == other.0
    }

    /// Whether some member of `other` is a member.
    pub fn intersects(self, other: Self) -> (r: bool)
        ensures
            r == self.has_any(other),
    {
        (self.0 & other.0) != 0
    }

    /// The members as bits.
    pub fn bits(self) -> (r: u64)
        ensures
            r == self.0,
    {
        self.0
    }
}

impl std::ops::BitOr for Access {
    type Output = Self;

    fn bitor(self, rhs: Self) -> (r: Self) {
        Access(self.0 | rhs.0)
    }
}

impl vstd::std_specs::ops::BitOrSpecImpl for Access {
    open spec fn obeys_bitor_spec() -> bool {
        true
    }

    open spec fn bitor_req(self, rhs: Self) -> bool {
        true
    }

    open spec fn bitor_spec(self, rhs: Self) -> Self {
        self.union(rhs)
    }
}

impl std::ops::BitOrAssign for Access {
    fn bitor_assign(&mut self, rhs: Self)
        ensures
            *final(self) == old(self).union(rhs),
    {
        self.0 = self.0 | rhs.0;
    }
}

impl std::ops::BitAnd for Access {
    type Output = Self;

    fn bitand(self, rhs: Self) -> (r: Self) {
        Access(self.0 & rhs.0)
    }
}

impl vstd::std_specs::ops::BitAndSpecImpl for Access {
    open spec fn obeys_bitand_spec() -> bool {
        true
    }

    open spec fn bitand_req(self, rhs: Self) -> bool {
        true
    }

    open spec fn bitand_spec(self, rhs: Self) -> Self {
        Access(self.0 & rhs.0)
    }
}

// ---------------------------------------------------------------------------
// Vulkan bits
// ---------------------------------------------------------------------------

/// The bits that stand for one member, if it is a member.
pub open spec fn part_u64(bits: u64, source: u64, target: u64) -> u64 {
    if bits & source != 0 {
        target
    } else {
        0
    }
}

fn pick_u64(bits: u64, source: u64, target: u64) -> (r: u64)
    ensures
        r == part_u64(bits, source, target),
{
    if bits & source != 0 {
        target
    } else {
        0
    }
}

/// The bits that stand for one member, if it is a member.
pub open spec fn part_u32(bits: u32, source: u32, target: u32) -> u32 {
    if bits & source != 0 {
        target
    } else {
        0
    }
}

fn pick_u32(bits: u32, source: u32, target: u32) -> (r: u32)
    ensures
        r == part_u32(bits, source, target),
{
    if bits & source != 0 {
        target
    } else {
        0
    }
}

/// The Vulkan pipeline stages of a set of stages.
pub open spec fn stage_mask(stage: Stage) -> u64 {
    part_u64(stage.0, 0x40, 0x2)
        | part_u64(stage.0, 0x80, 0x10_0000_0000)
        | part_u64(stage.0, 0x02, 0x8)
        | part_u64(stage.0, 0x200, 0x10_0000)
        | part_u64(stage.0, 0x100, 0x300)
        | part_u64(stage.0, 0x04, 0x80)
        | part_u64(stage.0, 0x10, 0x400)
        | part_u64(stage.0, 0x08, 0x800)
        | part_u64(stage.0, 0x01, 0x1000)
        | part_u64(stage.0, 0x20, 0x4000)
        | part_u64(stage.0, 0x400, 0x1_0000)
}

/// Computes the Vulkan bits.
pub fn stage_mask_bits(stage: Stage) -> (r: u64)
    ensures
        r == stage_mask(stage),
{
    pick_u64(stage.0, 0x40, 0x2)
        | pick_u64(stage.0, 0x80, 0x10_0000_0000)
        | pick_u64(stage.0, 0x02, 0x8)
        | pick_u64(stage.0, 0x200, 0x10_0000)
        | pick_u64(stage.0, 0x100, 0x300)
        | pick_u64(stage.0, 0x04, 0x80)
        | pick_u64(stage.0, 0x10, 0x400)
        | pick_u64(stage.0, 0x08, 0x800)
        | pick_u64(stage.0, 0x01, 0x1000)
        | pick_u64(stage.0, 0x20, 0x4000)
        | pick_u64(stage.0, 0x400, 0x1_0000)
}

/// The Vulkan access kinds of a set of accesses.
pub open spec fn access_mask(access: Access) -> u64 {
    part_u64(access.0, 0x01, 0x800)
        | part_u64(access.0, 0x02, 0x1000)
        | part_u64(access.0, 0x04, 0x20)
        | part_u64(access.0, 0x08, 0x40)
        | part_u64(access.0, 0x10, 0x80)
        | part_u64(access.0, 0x20, 0x100)
        | part_u64(access.0, 0x40, 0x200)
        | part_u64(access.0, 0x80, 0x400)
        | part_u64(access.0, 0x100, 0x1)
        | part_u64(access.0, 0x200, 0x2)
        | part_u64(access.0, 0x400, 0x2000)
        | part_u64(access.0, 0x1000, 0x4000)
        | part_u64(access.0, 0x800, 0x200_0000_0000)
}

/// Computes the Vulkan bits.
pub fn access_mask_bits(access: Access) -> (r: u64)
    ensures
        r == access_mask(access),
{
    pick_u64(access.0, 0x01, 0x800)
        | pick_u64(access.0, 0x02, 0x1000)
        | pick_u64(access.0, 0x04, 0x20)
        | pick_u64(access.0, 0x08, 0x40)
        | pick_u64(access.0, 0x10, 0x80)
        | pick_u64(access.0, 0x20, 0x100)
        | pick_u64(access.0, 0x40, 0x200)
        | pick_u64(access.0, 0x80, 0x400)
        | pick_u64(access.0, 0x100, 0x1)
        | pick_u64(access.0, 0x200, 0x2)
        | pick_u64(access.0, 0x400, 0x2000)
        | pick_u64(access.0, 0x1000, 0x4000)
        | pick_u64(access.0, 0x800, 0x200_0000_0000)
}

/// The Vulkan image uses of a set of uses.
pub open spec fn usage_mask(usage: TextureUsage) -> u32 {
    part_u32(usage.0, 0x01, 0x4)
        | part_u32(usage.0, 0x02, 0x8)
        | part_u32(usage.0, 0x04, 0x10)
        | part_u32(usage.0, 0x08, 0x20)
        | part_u32(usage.0, 0x10, 0x1)
        | part_u32(usage.0, 0x20, 0x2)
}

/// Computes the Vulkan bits.
pub fn image_usage(usage: TextureUsage) -> (r: u32)
    ensures
        r == usage_mask(usage),
{
    pick_u32(usage.0, 0x01, 0x4)
        | pick_u32(usage.0, 0x02, 0x8)
        | pick_u32(usage.0, 0x04, 0x10)
        | pick_u32(usage.0, 0x08, 0x20)
        | pick_u32(usage.0, 0x10, 0x1)
        | pick_u32(usage.0, 0x20, 0x2)
}

impl From<Stage> for vk::PipelineStageFlags2 {
    fn from(stage: Stage) -> (r: vk::PipelineStageFlags2)
        ensures
            vulkan::vk_stage_bits(r) == stage_mask(stage),
    {
        vk::PipelineStageFlags2::from_raw(stage_mask_bits(stage))
    }
}

impl vstd::std_specs::convert::FromSpecImpl<Stage> for vk::PipelineStageFlags2 {
    /// The value is opaque: `from` states the bits inside it, and no more is claimed.
    open spec fn obeys_from_spec() -> bool {
        false
    }

    open spec fn from_spec(stage: Stage) -> vk::PipelineStageFlags2 {
        choose|r: vk::PipelineStageFlags2| vulkan::vk_stage_bits(r) == stage_mask(stage)
    }
}

impl From<Access> for vk::AccessFlags2 {
    fn from(access: Access) -> (r: vk::AccessFlags2)
        ensures
            vulkan::vk_access_bits(r) == access_mask(access),
    {
        vk::AccessFlags2::from_raw(access_mask_bits(access))
    }
}

impl vstd::std_specs::convert::FromSpecImpl<Access> for vk::AccessFlags2 {
    /// The value is opaque: `from` states the bits inside it, and no more is claimed.
    open spec fn obeys_from_spec() -> bool {
        false
    }

    open spec fn from_spec(access: Access) -> vk::AccessFlags2 {
        choose|r: vk::AccessFlags2| vulkan::vk_access_bits(r) == access_mask(access)
    }
}

// ---------------------------------------------------------------------------
// Laws
// ---------------------------------------------------------------------------

/// A union contains exactly the sets that both of its parts need to be contained
/// in: whatever contains the union contains each part, and the other way round.
pub proof fn usage_union_contains(a: TextureUsage, b: TextureUsage, c: TextureUsage)
    ensures
        a.union(b).has_all(a),
        a.union(b).has_all(b),
        c.has_all(a.union(b)) <==> c.has_all(a) && c.has_all(b),
        a.union(b).has_any(c) <==> a.has_any(c) || b.has_any(c),
{
    let (a, b, c) = (a.0, b.0, c.0);
    assert((a | b) & a == a && (a | b) & b == b) by (bit_vector);
    assert((c & (a | b) == a | b) <==> (c & a == a && c & b == b)) by (bit_vector);
    assert(((a | b) & c != 0) <==> (a & c != 0 || b & c != 0)) by (bit_vector);
}

/// A union contains exactly the sets that both of its parts need to be contained
/// in: whatever contains the union contains each part, and the other way round.
pub proof fn stage_union_contains(a: Stage, b: Stage, c: Stage)
    ensures
        a.union(b).has_all(a),
        a.union(b).has_all(b),
        c.has_all(a.union(b)) <==> c.has_all(a) && c.has_all(b),
        a.union(b).has_any(c) <==> a.has_any(c) || b.has_any(c),
{
    let (a, b, c) = (a.0, b.0, c.0);
    assert((a | b) & a == a && (a | b) & b == b) by (bit_vector);
    assert((c & (a | b) == a | b) <==> (c & a == a && c & b == b)) by (bit_vector);
    assert(((a | b) & c != 0) <==> (a & c != 0 || b & c != 0)) by (bit_vector);
}

/// A union contains exactly the sets that both of its parts need to be contained
/// in: whatever contains the union contains each part, and the other way round.
pub proof fn access_union_contains(a: Access, b: Access, c: Access)
    ensures
        a.union(b).has_all(a),
        a.union(b).has_all(b),
        c.has_all(a.union(b)) <==> c.has_all(a) && c.has_all(b),
        a.union(b).has_any(c) <==> a.has_any(c) || b.has_any(c),
{
    let (a, b, c) = (a.0, b.0, c.0);
    assert((a | b) & a == a && (a | b) & b == b) by (bit_vector);
    assert((c & (a | b) == a | b) <==> (c & a == a && c & b == b)) by (bit_vector);
    assert(((a | b) & c != 0) <==> (a & c != 0 || b & c != 0)) by (bit_vector);
}

/// The Vulkan bits of a union are the Vulkan bits of its parts together.
pub proof fn stage_mask_of_union(a: Stage, b: Stage)
    ensures
        stage_mask(a.union(b)) == stage_mask(a) | stage_mask(b),
{
    let (x, y) = (a.0, b.0);
    assert(stage_mask(Stage(x | y)) == stage_mask(Stage(x)) | stage_mask(Stage(y))) by (bit_vector);
}

/// The Vulkan bits of a union are the Vulkan bits of its parts together.
pub proof fn access_mask_of_union(a: Access, b: Access)
    ensures
        access_mask(a.union(b)) == access_mask(a) | access_mask(b),
{
    let (x, y) = (a.0, b.0);
    assert(access_mask(Access(x | y)) == access_mask(Access(x)) | access_mask(Access(y))) by (bit_vector);
}

/// The Vulkan bits of a union are the Vulkan bits of its parts together.
pub proof fn usage_mask_of_union(a: TextureUsage, b: TextureUsage)
    ensures
        usage_mask(a.union(b)) == usage_mask(a) | usage_mask(b),
{
    let (x, y) = (a.0, b.0);
    assert(usage_mask(TextureUsage(x | y)) == usage_mask(TextureUsage(x)) | usage_mask(TextureUsage(y))) by (bit_vector);
}

/// Two sets of named stages convert to the same Vulkan set only if they are the
/// same.
pub proof fn converted_stages_are_distinct(
    a: Stage,
    b: Stage,
    x: vk::PipelineStageFlags2,
    y: vk::PipelineStageFlags2,
)
    requires
        a.0 <= 0x7ff,
        b.0 <= 0x7ff,
        vulkan::vk_stage_bits(x) == stage_mask(a),
        vulkan::vk_stage_bits(y) == stage_mask(b),
    ensures
        a != b ==> x != y,
        vulkan::vk_stage_bits(x) == vulkan::vk_stage_bits(y) <==> a == b,
{
    let (m, n) = (a.0, b.0);
    assert(m <= 0x7ff && n <= 0x7ff && stage_mask(Stage(m)) == stage_mask(Stage(n)) ==> m == n)
        by (bit_vector);
}

/// Two sets of named accesses convert to the same Vulkan set only if they are the
/// same.
pub proof fn converted_accesses_are_distinct(
    a: Access,
    b: Access,
    x: vk::AccessFlags2,
    y: vk::AccessFlags2,
)
    requires
        a.0 <= 0x1fff,
        b.0 <= 0x1fff,
        vulkan::vk_access_bits(x) == access_mask(a),
        vulkan::vk_access_bits(y) == access_mask(b),
    ensures
        a != b ==> x != y,
        vulkan::vk_access_bits(x) == vulkan::vk_access_bits(y) <==> a == b,
{
    let (m, n) = (a.0, b.0);
    assert(m <= 0x1fff && n <= 0x1fff && access_mask(Access(m)) == access_mask(Access(n)) ==> m
        == n) by (bit_vector);
}

} // verus!
