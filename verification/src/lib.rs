//! A glyph atlas and text layout engine.
//!
//! The library rasterizes font glyphs on demand through an external rasterizer
//! backend, packs them into texture pages keyed by Unicode code point, and
//! turns strings into batches of positioned, textured quads with kerning-aware
//! pen advancement.  All geometry is kept in exact integer units: 26.6
//! fixed-point values as delivered by the rasterizer, whole pixels for texture
//! regions, and thirds of a pixel for layout coordinates.  GPU work is never
//! performed here; operations that need the GPU return a stream of
//! [`gpu::Command`] values for the caller to execute.

pub mod atlas;
pub mod error;
pub mod face;
pub mod fixed_26_6;
pub mod font;
pub mod gpu;
pub mod math;
pub mod shader;
pub mod text;
