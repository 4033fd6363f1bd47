# rust_game_engine

A small wgpu renderer that draws a grid of textured quads, each sampled
through a different sampler. The crate is split in two:

- `src/` — the verified library (Verus): grid mesh topology and index
  buffer (`mesh`), texture decoding and upload layout (`texture`), sampler
  settings (`sampler`), surface sizing, surface-format choice and the
  per-frame draw plan (`renderer`), and window-event routing (`events`).
- `app/` — the program around it: the winit event loop, the wgpu device,
  surface, pipeline and buffers, the floating-point placement of the grid in
  clip space, and the camera.

At run time the program reads `assets/shader.wgsl` and
`assets/happy-tree.png` relative to the working directory.
