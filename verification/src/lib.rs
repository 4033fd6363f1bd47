//! Verified core of a small wgpu renderer: mesh topology for a grid of
//! textured quads, texture decoding and upload layout, sampler settings,
//! the per-frame draw plan, surface sizing, and window-event routing.
//!
//! Everything that touches the GPU, the window system or floating point
//! values lives in the application crate, which feeds this library plain
//! values and acts on the plain values it returns.

pub mod mesh;
pub mod texture;
pub mod sampler;
pub mod renderer;
pub mod events;
