# wgpu_notan_test

A WebGL2 demo in which notan and wgpu share one context and two raw
textures: notan draws an image into the first, wgpu rotates its hue into the
second, and notan shows the result.

- `src/` is verified with Verus: the byte layout of the time uniform
  (`uniform`), the descriptors with which raw textures are wrapped
  (`texture`), and the processor that wraps the shared textures once and
  plans each frame's hue-rotation pass (`processor`).
- `app/` is the browser program around it (DOM, notan, wgpu device and
  render pass encoding). It relies on patched notan, glow and wgpu builds
  that expose raw WebGL texture handles.
- `tests/` runs the library on concrete values.
