//! Verified core of a demo that shares WebGL2 textures between notan and wgpu:
//! the byte layout of the shader's time uniform, the descriptors with which raw
//! textures are wrapped, and the once-only texture cache of the hue-rotation pass.

pub mod processor;
pub mod texture;
pub mod uniform;
