//! Descriptors with which raw WebGL textures are wrapped as wgpu textures.
//!
//! Usages are carried as the bits of `wgpu::TextureUsages` (a `u32`), and the
//! hal-level usage as the bits of `wgpu::TextureUses` (a `u16`).

use vstd::prelude::*;

verus! {

/// `wgpu::TextureUsages::COPY_SRC`.
pub const USAGE_COPY_SRC: u32 = 0x1;
/// `wgpu::TextureUsages::COPY_DST`.
pub const USAGE_COPY_DST: u32 = 0x2;
/// `wgpu::TextureUsages::TEXTURE_BINDING`.
pub const USAGE_TEXTURE_BINDING: u32 = 0x4;
/// `wgpu::TextureUsages::STORAGE_BINDING`.
pub const USAGE_STORAGE_BINDING: u32 = 0x8;
/// `wgpu::TextureUsages::RENDER_ATTACHMENT`.
pub const USAGE_RENDER_ATTACHMENT: u32 = 0x10;

/// Width and height that the demo gives both shared textures.
pub const TEXTURE_SIDE: u32 = 512;

/// What a wrapped texture is created with, besides its fixed format
/// (`Rgba8UnormSrgb`) and dimension (2D), and besides the raw handle.
#[derive(Clone, Copy, Debug, PartialEq, Eq)]
pub struct WrappedTextureDesc {
    pub width: u32,
    pub height: u32,
    pub depth_or_array_layers: u32,
    pub mip_level_count: u32,
    pub sample_count: u32,
    /// Bits of `wgpu::TextureUsages`.
    pub usage: u32,
    /// Bits of the `wgpu::TextureUses` handed to the hal descriptor.
    pub hal_uses: u16,
}

/// Usage of a wrapped texture: every wrapped texture can be sampled; a render
/// target can also be drawn into.
pub open spec fn spec_texture_usage(is_render_target: bool) -> u32 {
    if is_render_target {
        (USAGE_RENDER_ATTACHMENT + USAGE_TEXTURE_BINDING) as u32
    } else {
        USAGE_TEXTURE_BINDING
    }
}

/// Whether every bit of `flag` is set in `bits`.
pub open spec fn has_usage(bits: u32, flag: u32) -> bool {
    bits & flag == flag
}

/// The hal usage that a wgpu usage is turned into: its low sixteen bits, read
/// as `wgpu::TextureUses`, or no usage at all where one of those bits names
/// no flag of `TextureUses` (only bit 15 does not).
pub open spec fn spec_hal_texture_uses(usage: u32) -> u16 {
    let low = (usage % 0x1_0000) as u16;
    if low <= 0x7fff {
        low
    } else {
        0
    }
}

/// The descriptor of a wrapped texture of the given size.
pub open spec fn spec_wrapped_texture_desc(
    width: u32,
    height: u32,
    is_render_target: bool,
) -> WrappedTextureDesc {
    WrappedTextureDesc {
        width,
        height,
        depth_or_array_layers: 1,
        mip_level_count: 1,
        sample_count: 1,
        usage: spec_texture_usage(is_render_target),
        hal_uses: spec_hal_texture_uses(spec_texture_usage(is_render_target)),
    }
}

/// A wrapped texture can always be sampled, can be drawn into exactly when it
/// is a render target, and keeps its usage bits unchanged at the hal level.
pub proof fn lemma_wrapped_usages(width: u32, height: u32, is_render_target: bool)
    ensures
        ({
            let desc = spec_wrapped_texture_desc(width, height, is_render_target);
            &&& has_usage(desc.usage, USAGE_TEXTURE_BINDING)
            &&& has_usage(desc.usage, USAGE_RENDER_ATTACHMENT) == is_render_target
            &&& desc.hal_uses as u32 == desc.usage
        }),
        USAGE_RENDER_ATTACHMENT | USAGE_TEXTURE_BINDING == spec_texture_usage(true),
{
    assert(16u32 | 4u32 == 20u32) by (bit_vector);
    assert(20u32 & 4u32 == 4u32) by (bit_vector);
    assert(20u32 & 16u32 == 16u32) by (bit_vector);
    assert(4u32 & 16u32 == 0u32) by (bit_vector);
    assert(4u32 & 4u32 == 4u32) by (bit_vector);
}

/// A wrapped texture has exactly the requested size, one layer, one mip
/// level and one sample.
pub proof fn lemma_wrapped_desc_size(width: u32, height: u32, is_render_target: bool)
    ensures
        ({
            let desc = spec_wrapped_texture_desc(width, height, is_render_target);
            &&& desc.width == width
            &&& desc.height == height
            &&& desc.depth_or_array_layers == 1
            &&& desc.mip_level_count == 1
            &&& desc.sample_count == 1
        }),
{
}

/// The hal usage keeps the low sixteen bits of the wgpu usage exactly when bit
/// 15 (which no `TextureUses` flag names) is clear, and is empty otherwise.
pub proof fn lemma_hal_uses_bits(usage: u32)
    ensures
        usage & 0x8000 == 0 ==> spec_hal_texture_uses(usage) as u32 == usage & 0xffff,
        usage & 0x8000 != 0 ==> spec_hal_texture_uses(usage) == 0,
{
    assert(usage % 0x1_0000 == usage & 0xffff) by (bit_vector);
    assert((usage & 0x8000 == 0) == (usage & 0xffff <= 0x7fff)) by (bit_vector);
}

/// `wgpu::TextureUses::from_bits(bits)`, taken back to its bits.
///
/// `from_bits` (bitflags 2) gives `Some` exactly when no bit outside the
/// named flags is set. The named flags of `TextureUses` in wgpu-types 30
/// (`UNINITIALIZED = 1 << 0` through `UNKNOWN = 1 << 14`) cover bits 0 to 14,
/// so the value is kept exactly when it is at most `0x7fff`.
#[verifier::external_body]
fn texture_uses_from_bits(bits: u16) -> (uses: Option<u16>)
    ensures
        uses == (if bits <= 0x7fff { Some(bits) } else { None::<u16> }),
{
    match wgpu::TextureUses::from_bits(bits) {
        Some(uses) => Some(uses.bits()),
        None => None,
    }
}

/// The usage bits of a wrapped texture.
pub fn texture_usage(is_render_target: bool) -> (usage: u32)
    ensures
        usage == spec_texture_usage(is_render_target),
        usage == (if is_render_target { 20u32 } else { 4u32 }),
        has_usage(usage, USAGE_TEXTURE_BINDING),
        has_usage(usage, USAGE_RENDER_ATTACHMENT) == is_render_target,
{
    proof {
        lemma_wrapped_usages(0, 0, is_render_target);
    }
    if is_render_target {
        USAGE_RENDER_ATTACHMENT | USAGE_TEXTURE_BINDING
    } else {
        USAGE_TEXTURE_BINDING
    }
}

/// Converts wgpu usage bits into the hal usage of the wrapped texture: the
/// bits are cut to sixteen and read as `wgpu::TextureUses`; a value that
/// `TextureUses` refuses becomes the empty usage.
pub fn hal_texture_uses(usage: u32) -> (uses: u16)
    ensures
        uses == spec_hal_texture_uses(usage),
        usage % 0x1_0000 <= 0x7fff ==> uses as int == usage % 0x1_0000,
        usage % 0x1_0000 > 0x7fff ==> uses == 0,
        usage & 0x8000 == 0 ==> uses as u32 == usage & 0xffff,
        usage & 0x8000 != 0 ==> uses == 0,
{
    proof {
        lemma_hal_uses_bits(usage);
    }
    let low = (usage % 0x1_0000) as u16;
    match texture_uses_from_bits(low) {
        Some(uses) => uses,
        None => 0,
    }
}

/// The descriptor with which a raw texture of `width` by `height` texels is
/// wrapped: one layer, one mip level, one sample, sampled usage, and render
/// attachment usage too when it is a render target.
pub fn wrapped_texture_desc(width: u32, height: u32, is_render_target: bool) -> (desc:
    WrappedTextureDesc)
    ensures
        desc == spec_wrapped_texture_desc(width, height, is_render_target),
        desc.width == width,
        desc.height == height,
        desc.depth_or_array_layers == 1,
        desc.mip_level_count == 1,
        desc.sample_count == 1,
        desc.usage == (if is_render_target { 20u32 } else { 4u32 }),
        desc.hal_uses as u32 == desc.usage,
{
    proof {
        lemma_wrapped_usages(width, height, is_render_target);
        lemma_wrapped_desc_size(width, height, is_render_target);
    }
    let usage = texture_usage(is_render_target);
    WrappedTextureDesc {
        width,
        height,
        depth_or_array_layers: 1,
        mip_level_count: 1,
        sample_count: 1,
        usage,
        hal_uses: hal_texture_uses(usage),
    }
}

} // verus!
