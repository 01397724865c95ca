use vstd::prelude::*;

use crate::error::FontError;
use crate::math::Vector2I;

verus! {

/// The largest glyph extent, in whole pixels, that the engine will pack into
/// a texture page.  A measured glyph wider or taller than this (or with a
/// negative extent) is treated as unrenderable; the bound also keeps every
/// page and layout coordinate far away from integer overflow.
pub const MAX_GLYPH_PX: i32 = 1048576;

/// Glyph metrics as delivered by the rasterizer backend, in 26.6 fixed-point
/// subpixels.
#[derive(Clone, Copy, Debug, PartialEq, Eq, Structural)]
pub struct GlyphMetrics {
    pub width: i32,
    pub height: i32,
    pub hori_bearing_x: i32,
    pub hori_bearing_y: i32,
    pub hori_advance: i32,
    pub vert_bearing_x: i32,
    pub vert_bearing_y: i32,
    pub vert_advance: i32,
}

/// A rasterized glyph image: a row-major single-channel coverage buffer whose
/// rows are `pitch` bytes apart (the pitch may exceed `width` because of
/// backend padding).
#[derive(Clone, Debug)]
pub struct RenderedGlyph {
    pub width: i32,
    pub rows: i32,
    pub pitch: i32,
    pub data: Vec<u8>,
}

#[verifier::external_type_specification]
#[verifier::external_body]
#[verifier::reject_recursive_types(BYTES)]
pub struct ExFtFace<BYTES>(freetype::face::Face<BYTES>);

#[verifier::external_type_specification]
#[verifier::external_body]
pub struct ExFtError(freetype::error::Error);

/// Relies on freetype's `FT_Set_Pixel_Sizes`
/// (`freetype::face::Face::set_pixel_sizes`): selects the pixel size used by
/// later glyph loads on this face.  Nothing is assumed of the outcome beyond
/// success or failure.
#[verifier::external_body]
fn ft_set_pixel_sizes(face: &freetype::face::Face, size_px: u32) -> (r: Result<
    (),
    freetype::error::Error,
>) {
    face.set_pixel_sizes(0, size_px)
}

/// Relies on freetype's `FT_Get_Char_Index`
/// (`freetype::face::Face::get_char_index`): `None` exactly when the face's
/// character map has no glyph for the code point.  Which code points are
/// mapped depends on the font file behind the face, so nothing is assumed of
/// the answer.
#[verifier::external_body]
fn ft_char_index(face: &freetype::face::Face, code: u32) -> (r: Option<u32>) {
    face.get_char_index(code as usize)
}

/// Relies on freetype's `FT_Load_Char` (`freetype::face::Face::load_char`)
/// and the glyph-slot metrics accessor
/// (`freetype::glyph_slot::GlyphSlot::metrics`): loads the glyph for the code
/// point into the face's single glyph slot and reads its 26.6 fixed-point
/// metrics, narrowed to `i32`.  The values depend on the font file behind the
/// face, so nothing is assumed of them.
#[verifier::external_body]
fn ft_load_metrics(face: &freetype::face::Face, code: u32) -> (r: Result<
    GlyphMetrics,
    freetype::error::Error,
>) {
    face.load_char(code as usize, freetype::face::LoadFlag::DEFAULT)?;
    let m = face.glyph().metrics();
    Ok(GlyphMetrics {
        width: m.width as i32,
        height: m.height as i32,
        hori_bearing_x: m.horiBearingX as i32,
        hori_bearing_y: m.horiBearingY as i32,
        hori_advance: m.horiAdvance as i32,
        vert_bearing_x: m.vertBearingX as i32,
        vert_bearing_y: m.vertBearingY as i32,
        vert_advance: m.vertAdvance as i32,
    })
}

/// Relies on freetype's `FT_Load_Char` with `FT_LOAD_RENDER`
/// (`freetype::face::Face::load_char`) and the glyph-slot bitmap accessors
/// (`freetype::bitmap::Bitmap`): rasterizes the glyph and copies out its
/// coverage buffer.  Per the freetype-rs source, `Bitmap::buffer` is a slice
/// of `|pitch| * rows` bytes, or empty when that product is not positive; the
/// clause below restates this for the non-negative, non-overflowing case.
/// The pixel data depends on the font file, so nothing is assumed of it.
#[verifier::external_body]
fn ft_render(face: &freetype::face::Face, code: u32) -> (r: Result<
    RenderedGlyph,
    freetype::error::Error,
>)
    ensures
        r matches Ok(g) ==> ((0 <= g.pitch && 0 <= g.rows && g.pitch * g.rows < 0x8000_0000)
            ==> g.data@.len() == g.pitch * g.rows),
{
    face.load_char(code as usize, freetype::face::LoadFlag::RENDER)?;
    let b = face.glyph().bitmap();
    Ok(RenderedGlyph { width: b.width(), rows: b.rows(), pitch: b.pitch(), data: b.buffer().to_vec() })
}

/// Relies on freetype's `FT_Get_Kerning` (`freetype::face::Face::get_kerning`)
/// with the default kerning mode: the 26.6 fixed-point adjustment vector for
/// an ordered pair of glyph indices, narrowed to `i32`.  The values depend on
/// the font file, so nothing is assumed of them.
#[verifier::external_body]
fn ft_get_kerning(face: &freetype::face::Face, left: u32, right: u32) -> (r: Result<
    Vector2I,
    freetype::error::Error,
>) {
    let v = face.get_kerning(left, right, freetype::face::KerningMode::KerningDefault)?;
    Ok(Vector2I { x: v.x as i32, y: v.y as i32 })
}

/// An open font face at a fixed pixel size: the adapter between the engine
/// and the rasterizer backend.
///
/// Glyph loading mutates the single glyph slot inside the backend face, so a
/// `Face` must not be shared across threads.  Opening the font file itself is
/// the caller's job; a `Face` is built from an already-open backend face.
pub struct FontFace {
    pub face: freetype::face::Face,
    pub size_px: u32,
}

impl FontFace {
    /// A face is well formed when its pixel size respects the engine's
    /// packing bound.
    pub open spec fn wf(self) -> bool {
        self.size_px <= MAX_GLYPH_PX
    }

    /// Fixes the pixel size of an already-open backend face.  Failures of the
    /// backend are fatal for construction and surface as `Backend`.
    pub fn from_ft(face: freetype::face::Face, size_px: u32) -> (r: Result<FontFace, FontError>)
        requires
            size_px <= MAX_GLYPH_PX,
        ensures
            r matches Ok(f) ==> f.wf() && f.size_px == size_px,
            r matches Err(e) ==> e == FontError::Backend,
    {
        match ft_set_pixel_sizes(&face, size_px) {
            Ok(_) => Ok(FontFace { face, size_px }),
            Err(_) => Err(FontError::Backend),
        }
    }

    /// Measures the glyph for one code point without rendering it.
    ///
    /// Fails with `GlyphNotFound` when the face's character map has no entry
    /// for the code point, or when the backend cannot load the glyph; the
    /// caller treats such a code point as unrenderable.
    pub fn measure_code(&self, code: u32) -> (r: Result<GlyphMetrics, FontError>)
        ensures
            r matches Err(e) ==> e == FontError::GlyphNotFound,
    {
        if ft_char_index(&self.face, code).is_none() {
            return Err(FontError::GlyphNotFound);
        }
        match ft_load_metrics(&self.face, code) {
            Ok(m) => Ok(m),
            Err(_) => Err(FontError::GlyphNotFound),
        }
    }

    /// Measures the glyph for one character.  See [`FontFace::measure_code`].
    pub fn measure(&self, c: char) -> (r: Result<GlyphMetrics, FontError>)
        ensures
            r matches Err(e) ==> e == FontError::GlyphNotFound,
    {
        self.measure_code(c as u32)
    }

    /// Rasterizes the glyph for one code point and returns its coverage
    /// bitmap.  Fails with `GlyphNotFound` exactly as [`FontFace::measure_code`]
    /// does.
    pub fn render_code(&self, code: u32) -> (r: Result<RenderedGlyph, FontError>)
        ensures
            r matches Err(e) ==> e == FontError::GlyphNotFound,
            r matches Ok(g) ==> ((0 <= g.pitch && 0 <= g.rows && g.pitch * g.rows < 0x8000_0000)
                ==> g.data@.len() == g.pitch * g.rows),
    {
        if ft_char_index(&self.face, code).is_none() {
            return Err(FontError::GlyphNotFound);
        }
        match ft_render(&self.face, code) {
            Ok(g) => Ok(g),
            Err(_) => Err(FontError::GlyphNotFound),
        }
    }

    /// The kerning adjustment for an ordered pair of characters, in 26.6
    /// fixed-point units.
    ///
    /// Fails with `NoKerningData` when either character is unmapped in the
    /// face or the backend reports no kerning; callers treat that as a zero
    /// adjustment.
    pub fn kerning(&self, c0: char, c1: char) -> (r: Result<Vector2I, FontError>)
        ensures
            r matches Err(e) ==> e == FontError::NoKerningData,
    {
        let i0 = match ft_char_index(&self.face, c0 as u32) {
            Some(i) => i,
            None => {
                return Err(FontError::NoKerningData);
            },
        };
        let i1 = match ft_char_index(&self.face, c1 as u32) {
            Some(i) => i,
            None => {
                return Err(FontError::NoKerningData);
            },
        };
        match ft_get_kerning(&self.face, i0, i1) {
            Ok(v) => Ok(v),
            Err(_) => Err(FontError::NoKerningData),
        }
    }
}

} // verus!
