use wgpu_notan_test::texture::{
    hal_texture_uses, texture_usage, wrapped_texture_desc, WrappedTextureDesc, TEXTURE_SIDE,
    USAGE_COPY_DST, USAGE_COPY_SRC, USAGE_RENDER_ATTACHMENT, USAGE_STORAGE_BINDING,
    USAGE_TEXTURE_BINDING,
};

#[test]
fn usage_constants_match_wgpu() {
    assert_eq!(USAGE_COPY_SRC, wgpu::TextureUsages::COPY_SRC.bits());
    assert_eq!(USAGE_COPY_DST, wgpu::TextureUsages::COPY_DST.bits());
    assert_eq!(USAGE_TEXTURE_BINDING, wgpu::TextureUsages::TEXTURE_BINDING.bits());
    assert_eq!(USAGE_STORAGE_BINDING, wgpu::TextureUsages::STORAGE_BINDING.bits());
    assert_eq!(USAGE_RENDER_ATTACHMENT, wgpu::TextureUsages::RENDER_ATTACHMENT.bits());
}

#[test]
fn render_target_usage_is_attachment_and_binding() {
    let expected =
        (wgpu::TextureUsages::RENDER_ATTACHMENT | wgpu::TextureUsages::TEXTURE_BINDING).bits();
    assert_eq!(texture_usage(true), expected);
    assert_eq!(texture_usage(true), 20);
}

#[test]
fn sampled_usage_is_binding_only() {
    assert_eq!(texture_usage(false), wgpu::TextureUsages::TEXTURE_BINDING.bits());
    assert_eq!(texture_usage(false), 4);
}

#[test]
fn hal_uses_keep_known_bits() {
    assert_eq!(hal_texture_uses(20), 20);
    assert_eq!(hal_texture_uses(4), 4);
    assert_eq!(hal_texture_uses(0x7fff), 0x7fff);
    assert_eq!(hal_texture_uses(0), 0);
}

#[test]
fn hal_uses_refuse_unknown_bit() {
    assert_eq!(hal_texture_uses(0x8000), 0);
    assert_eq!(hal_texture_uses(0x8004), 0);
}

#[test]
fn hal_uses_cut_to_sixteen_bits() {
    let storage_atomic = wgpu::TextureUsages::STORAGE_ATOMIC.bits();
    assert_eq!(storage_atomic, 1 << 16);
    assert_eq!(hal_texture_uses(storage_atomic), 0);
    assert_eq!(hal_texture_uses(storage_atomic | 4), 4);
    assert_eq!(hal_texture_uses(0x1_8000), 0);
}

#[test]
fn hal_uses_match_texture_uses_from_bits() {
    for bits in [0u32, 4, 20, 0x7fff, 0x8000, 0x1_0014, 0xffff_ffff] {
        let expected = wgpu::TextureUses::from_bits(bits as u16)
            .unwrap_or(wgpu::TextureUses::empty())
            .bits();
        assert_eq!(hal_texture_uses(bits), expected);
    }
}

#[test]
fn output_texture_descriptor() {
    let desc = wrapped_texture_desc(TEXTURE_SIDE, TEXTURE_SIDE, true);
    assert_eq!(
        desc,
        WrappedTextureDesc {
            width: 512,
            height: 512,
            depth_or_array_layers: 1,
            mip_level_count: 1,
            sample_count: 1,
            usage: 20,
            hal_uses: 20,
        }
    );
}

#[test]
fn input_texture_descriptor() {
    let desc = wrapped_texture_desc(640, 480, false);
    assert_eq!(desc.width, 640);
    assert_eq!(desc.height, 480);
    assert_eq!(desc.depth_or_array_layers, 1);
    assert_eq!(desc.mip_level_count, 1);
    assert_eq!(desc.sample_count, 1);
    assert_eq!(desc.usage, 4);
    assert_eq!(desc.hal_uses, 4);
}
