use vstd::prelude::*;

verus! {

/// The error kinds surfaced by this library.
///
/// `GlyphNotFound` and `NoKerningData` are non-fatal: a code point without a
/// glyph is recorded as absent and skipped during layout, and a missing
/// kerning pair is treated as a zero adjustment.  `RegionOverflow` reports a
/// rasterizer that returned a bitmap larger than the region reserved for it
/// during the measure pass; the page load is aborted, since truncating would
/// corrupt adjacent glyphs in the shared texture.  `Backend` carries any other
/// failure of the rasterizer backend.
#[derive(Clone, Copy, Debug, PartialEq, Eq, Structural)]
pub enum FontError {
    /// The face has no glyph for the requested code point.
    GlyphNotFound,
    /// The face has no kerning data for the requested pair.
    NoKerningData,
    /// A rendered bitmap exceeded the region reserved by the measure pass.
    RegionOverflow,
    /// Any other failure reported by the rasterizer backend.
    Backend,
}

} // verus!
