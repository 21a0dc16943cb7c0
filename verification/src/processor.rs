//! The hue-rotation processor: it picks the surface format once, wraps the two
//! shared textures once, and then, frame after frame, renders the input
//! texture into the output texture with a fresh time uniform.
//!
//! The GPU objects themselves (textures, bind group) are created by the
//! caller; the processor holds them as values of the type parameters and
//! decides when they are made and which of them each pass uses.

use vstd::prelude::*;

use crate::texture::{
    has_usage, lemma_wrapped_usages, spec_wrapped_texture_desc, wrapped_texture_desc,
    WrappedTextureDesc, USAGE_RENDER_ATTACHMENT, USAGE_TEXTURE_BINDING,
};
use crate::uniform::{
    decode_word, is_native_encoding, native_little_endian, spec_time_uniform_bytes,
    time_uniform_bytes, time_uniform_words,
};

verus! {

/// Vertices drawn by one hue-rotation pass: two triangles covering the target.
pub const PASS_VERTEX_COUNT: u32 = 6;

/// Instances drawn by one hue-rotation pass.
pub const PASS_INSTANCE_COUNT: u32 = 1;

/// Bind group slot at which the pass binds its texture, sampler and time.
pub const PASS_BIND_GROUP_INDEX: u32 = 0;

/// The shared textures once they have been wrapped, with the bind group that
/// samples the input.
pub struct TextureCache<Tex, Bind> {
    /// The texture notan draws into; the pass samples it.
    pub input: Tex,
    /// The texture the pass draws into; notan shows it.
    pub output: Tex,
    /// Binds the input texture, the sampler and the time buffer.
    pub bind_group: Bind,
    pub input_desc: WrappedTextureDesc,
    pub output_desc: WrappedTextureDesc,
}

/// One frame's hue-rotation pass: what to upload, what to draw into, and what
/// to bind.
pub struct HueRotatePass<'a, Tex, Bind> {
    /// Written at offset 0 of the time buffer before the pass.
    pub uniform_bytes: Vec<u8>,
    /// Color attachment, cleared to black and stored.
    pub target: &'a Tex,
    pub target_desc: WrappedTextureDesc,
    pub bind_group: &'a Bind,
    pub bind_group_index: u32,
    pub vertex_count: u32,
    pub instance_count: u32,
}

/// The state of the hue-rotation processor.
pub struct WgpuProcessor<Fmt, Tex, Bind> {
    format: Fmt,
    cache: Option<TextureCache<Tex, Bind>>,
}

impl<Fmt, Tex, Bind> WgpuProcessor<Fmt, Tex, Bind> {
    /// Both cached textures have one size; the input is wrapped for sampling
    /// and the output as a render target.
    #[verifier::type_invariant]
    spec fn cache_wrapped_alike(self) -> bool {
        self.cache matches Some(c) ==> {
            &&& c.input_desc == spec_wrapped_texture_desc(
                c.input_desc.width,
                c.input_desc.height,
                false,
            )
            &&& c.output_desc == spec_wrapped_texture_desc(
                c.input_desc.width,
                c.input_desc.height,
                true,
            )
        }
    }

    /// The wrapped textures, once they exist.
    pub closed spec fn cached(&self) -> Option<TextureCache<Tex, Bind>> {
        self.cache
    }

    /// Format of the canvas surface.
    pub closed spec fn surface_format(&self) -> Fmt {
        self.format
    }

    /// Format of the canvas surface.
    pub fn format(&self) -> (format: &Fmt)
        ensures
            *format == self.surface_format(),
    {
        &self.format
    }

    /// A processor for a surface that supports `surface_formats`, in the
    /// surface's order of preference; it uses the first of them. No texture
    /// is wrapped yet.
    pub fn new(surface_formats: &Vec<Fmt>) -> (processor: Self) where Fmt: Copy
        requires
            surface_formats.len() > 0,
        ensures
            processor.surface_format() == surface_formats@[0],
            processor.cached() is None,
    {
        WgpuProcessor { format: surface_formats[0], cache: None }
    }

    /// Whether the shared textures have been wrapped.
    pub fn is_initialized(&self) -> (initialized: bool)
        ensures
            initialized == (self.cached() is Some),
    {
        self.cache.is_some()
    }

    /// Wraps the shared textures, once: on the first call `wrap` gets the
    /// descriptors of the input (sampled only) and of the output (render
    /// target too), both `width` by `height`, and what it makes is kept; on
    /// every later call nothing is made and nothing changes.
    pub fn init_textures<F>(&mut self, width: u32, height: u32, wrap: F) where
        F: FnOnce(WrappedTextureDesc, WrappedTextureDesc) -> (Tex, Tex, Bind),
        requires
            old(self).cached() is None ==> call_requires(
                wrap,
                (
                    spec_wrapped_texture_desc(width, height, false),
                    spec_wrapped_texture_desc(width, height, true),
                ),
            ),
        ensures
            old(self).cached() is Some ==> *final(self) == *old(self),
            old(self).cached() is None ==> {
                &&& final(self).cached() matches Some(c)
                &&& c.input_desc == spec_wrapped_texture_desc(width, height, false)
                &&& c.output_desc == spec_wrapped_texture_desc(width, height, true)
                &&& c.input_desc.width == width && c.input_desc.height == height
                &&& c.output_desc.width == width && c.output_desc.height == height
                &&& call_ensures(
                    wrap,
                    (c.input_desc, c.output_desc),
                    (c.input, c.output, c.bind_group),
                )
            },
            final(self).surface_format() == old(self).surface_format(),
    {
        if self.cache.is_some() {
            return ;
        }
        let input_desc = wrapped_texture_desc(width, height, false);
        let output_desc = wrapped_texture_desc(width, height, true);
        let (input, output, bind_group) = wrap(input_desc, output_desc);
        self.cache = Some(TextureCache { input, output, bind_group, input_desc, output_desc });
    }

    /// The hue-rotation pass of a frame at time `time_bits` (the bits of the
    /// `f32` time in seconds): upload the time uniform, then draw two
    /// triangles into the output texture with the bind group of the input.
    pub fn process(&self, time_bits: u32) -> (pass: HueRotatePass<'_, Tex, Bind>)
        requires
            self.cached() is Some,
        ensures
            is_native_encoding(pass.uniform_bytes@, time_uniform_words(time_bits)),
            pass.uniform_bytes@ == spec_time_uniform_bytes(time_bits),
            decode_word(pass.uniform_bytes@.subrange(0, 4), native_little_endian()) == time_bits,
            forall|i: int| 4 <= i < 16 ==> pass.uniform_bytes@[i] == 0,
            pass.uniform_bytes@.len() == 16,
            *pass.target == self.cached().unwrap().output,
            pass.target_desc == self.cached().unwrap().output_desc,
            *pass.bind_group == self.cached().unwrap().bind_group,
            pass.bind_group_index == PASS_BIND_GROUP_INDEX,
            pass.vertex_count == PASS_VERTEX_COUNT,
            pass.instance_count == PASS_INSTANCE_COUNT,
            has_usage(pass.target_desc.usage, USAGE_RENDER_ATTACHMENT),
            has_usage(self.cached().unwrap().input_desc.usage, USAGE_TEXTURE_BINDING),
            !has_usage(self.cached().unwrap().input_desc.usage, USAGE_RENDER_ATTACHMENT),
            pass.target_desc.width == self.cached().unwrap().input_desc.width,
            pass.target_desc.height == self.cached().unwrap().input_desc.height,
    {
        proof {
            use_type_invariant(self);
            let c = self.cache.unwrap();
            lemma_wrapped_usages(c.input_desc.width, c.input_desc.height, false);
            lemma_wrapped_usages(c.input_desc.width, c.input_desc.height, true);
        }
        let uniform_bytes = time_uniform_bytes(time_bits);
        let cache = self.cache.as_ref().unwrap();
        HueRotatePass {
            uniform_bytes,
            target: &cache.output,
            target_desc: cache.output_desc,
            bind_group: &cache.bind_group,
            bind_group_index: PASS_BIND_GROUP_INDEX,
            vertex_count: PASS_VERTEX_COUNT,
            instance_count: PASS_INSTANCE_COUNT,
        }
    }
}

} // verus!
