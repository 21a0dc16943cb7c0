use std::cell::Cell;

use wgpu_notan_test::processor::{
    WgpuProcessor, PASS_BIND_GROUP_INDEX, PASS_INSTANCE_COUNT, PASS_VERTEX_COUNT,
};
use wgpu_notan_test::texture::{wrapped_texture_desc, WrappedTextureDesc};
use wgpu_notan_test::uniform::time_uniform_bytes;

#[derive(Debug, Clone, PartialEq)]
struct FakeTexture {
    name: String,
    desc: WrappedTextureDesc,
}

fn wrap_named<'a>(
    tag: &'a str,
    calls: &'a Cell<u32>,
) -> impl FnOnce(WrappedTextureDesc, WrappedTextureDesc) -> (FakeTexture, FakeTexture, String) + 'a {
    move |input_desc, output_desc| {
        calls.set(calls.get() + 1);
        (
            FakeTexture { name: format!("{}-input", tag), desc: input_desc },
            FakeTexture { name: format!("{}-output", tag), desc: output_desc },
            format!("{}-bind-group", tag),
        )
    }
}

#[test]
fn new_uses_first_surface_format() {
    let processor: WgpuProcessor<u32, FakeTexture, String> = WgpuProcessor::new(&vec![7, 3, 9]);
    assert_eq!(*processor.format(), 7);
    assert!(!processor.is_initialized());
}

#[test]
fn new_with_wgpu_formats() {
    let formats = vec![wgpu::TextureFormat::Rgba8UnormSrgb, wgpu::TextureFormat::Bgra8Unorm];
    let processor: WgpuProcessor<wgpu::TextureFormat, FakeTexture, String> =
        WgpuProcessor::new(&formats);
    assert_eq!(*processor.format(), wgpu::TextureFormat::Rgba8UnormSrgb);
}

#[test]
fn first_init_wraps_both_textures() {
    let calls = Cell::new(0);
    let mut processor: WgpuProcessor<u32, FakeTexture, String> = WgpuProcessor::new(&vec![1]);
    processor.init_textures(512, 512, wrap_named("first", &calls));
    assert_eq!(calls.get(), 1);
    assert!(processor.is_initialized());
    let pass = processor.process(0);
    assert_eq!(pass.target.name, "first-output");
    assert_eq!(pass.target.desc, wrapped_texture_desc(512, 512, true));
    assert_eq!(pass.target_desc, wrapped_texture_desc(512, 512, true));
    assert_eq!(pass.bind_group.as_str(), "first-bind-group");
}

#[test]
fn init_textures_runs_once() {
    let calls = Cell::new(0);
    let mut processor: WgpuProcessor<u32, FakeTexture, String> = WgpuProcessor::new(&vec![1]);
    processor.init_textures(512, 512, wrap_named("first", &calls));
    processor.init_textures(256, 128, wrap_named("second", &calls));
    processor.init_textures(512, 512, wrap_named("third", &calls));
    assert_eq!(calls.get(), 1);
    let pass = processor.process(0);
    assert_eq!(pass.target.name, "first-output");
    assert_eq!(pass.target_desc.width, 512);
    assert_eq!(pass.bind_group.as_str(), "first-bind-group");
}

#[test]
fn wrap_receives_input_then_output_descriptor() {
    let mut seen: Option<(WrappedTextureDesc, WrappedTextureDesc)> = None;
    let mut processor: WgpuProcessor<u32, u32, u32> = WgpuProcessor::new(&vec![1]);
    processor.init_textures(300, 200, |input, output| {
        seen = Some((input, output));
        (1, 2, 3)
    });
    let (input, output) = seen.unwrap();
    assert_eq!(input, wrapped_texture_desc(300, 200, false));
    assert_eq!(output, wrapped_texture_desc(300, 200, true));
    let pass = processor.process(0);
    assert_eq!(*pass.target, 2);
    assert_eq!(*pass.bind_group, 3);
}

#[test]
fn process_draws_two_triangles_once() {
    let mut processor: WgpuProcessor<u32, u32, u32> = WgpuProcessor::new(&vec![1]);
    processor.init_textures(512, 512, |_, _| (10, 20, 30));
    let time: f32 = 1.25;
    let pass = processor.process(time.to_bits());
    assert_eq!(pass.vertex_count, 6);
    assert_eq!(pass.instance_count, 1);
    assert_eq!(pass.bind_group_index, 0);
    assert_eq!(PASS_VERTEX_COUNT, 6);
    assert_eq!(PASS_INSTANCE_COUNT, 1);
    assert_eq!(PASS_BIND_GROUP_INDEX, 0);
    assert_eq!(pass.uniform_bytes, time_uniform_bytes(time.to_bits()));
    assert_eq!(&pass.uniform_bytes[0..4], &time.to_ne_bytes()[..]);
    assert_eq!(pass.uniform_bytes.len(), 16);
}
