use vstd::prelude::*;

use crate::atlas::{Atlas, AtlasGlyph, UvRect};
use crate::error::FontError;
use crate::face::FontFace;
use crate::gpu::{Command, Texture};
use crate::math::Vector2I;

verus! {

/// A font: one rasterizer face at a fixed pixel size coupled with the atlas
/// of texture pages built from it.
///
/// The atlas grows monotonically — pages are added on demand and never
/// removed.  GPU work required by page loads is queued on `pending`; the
/// caller drains it with [`Font::take_commands`] and executes it before
/// drawing.
pub struct Font {
    pub face: FontFace,
    pub atlas: Atlas,
    pub pending: Vec<Command>,
}

impl Font {
    pub open spec fn wf(self) -> bool {
        self.face.wf() && self.atlas.wf()
    }

    /// Builds a font over an open face and loads page 0, the page covering
    /// ASCII, up front.
    pub fn new(face: FontFace) -> (r: Result<Font, FontError>)
        requires
            face.wf(),
        ensures
            r matches Ok(f) ==> f.wf() && f.atlas.page_loaded(0) && f.face == face,
            r matches Err(e) ==> e == FontError::RegionOverflow,
    {
        let atlas = Atlas::new();
        let mut font = Font { face, atlas, pending: Vec::new() };
        match font.load_page(0) {
            Ok(_) => Ok(font),
            Err(e) => Err(e),
        }
    }

    /// Ensures one atlas page is loaded, queuing the GPU work this requires.
    ///
    /// Loading is idempotent: a page already present is left untouched and
    /// queues nothing.  Pages already loaded are never disturbed.  A
    /// `RegionOverflow` from the rasterizer aborts the load and leaves the
    /// font unchanged.
    pub fn load_page(&mut self, page_num: u32) -> (r: Result<(), FontError>)
        requires
            old(self).wf(),
            page_num < 256,
        ensures
            final(self).wf(),
            final(self).face == old(self).face,
            r is Ok ==> final(self).atlas.page_loaded(page_num as int),
            r matches Err(e) ==> e == FontError::RegionOverflow && *final(self) == *old(self),
            old(self).atlas.page_loaded(page_num as int) ==> r is Ok && *final(self)
                == *old(self),
            forall|q: int|
                old(self).atlas.page_loaded(q) ==> final(self).atlas.page_loaded(q)
                    && final(self).atlas.spec_page(q) == old(self).atlas.spec_page(q),
            old(self).pending@.is_prefix_of(final(self).pending@),
    {
        let mut cmds = match self.atlas.load_page(page_num, &self.face) {
            Ok(c) => c,
            Err(e) => {
                return Err(e);
            },
        };
        proof {
            assert forall|q: int| old(self).atlas.page_loaded(q) implies self.atlas.page_loaded(q)
                && self.atlas.spec_page(q) == old(self).atlas.spec_page(q) by {
            }
        }
        if cmds.len() > 0 {
            self.pending.append(&mut cmds);
        }
        proof {
            assert(self.pending@.subrange(0, old(self).pending@.len() as int) =~= old(
                self,
            ).pending@);
        }
        Ok(())
    }

    /// Hands over the queued GPU commands, leaving the queue empty.
    pub fn take_commands(&mut self) -> (cmds: Vec<Command>)
        ensures
            cmds@ == old(self).pending@,
            final(self).pending@.len() == 0,
            final(self).face == old(self).face,
            final(self).atlas == old(self).atlas,
    {
        let mut out: Vec<Command> = Vec::new();
        core::mem::swap(&mut out, &mut self.pending);
        out
    }

    /// The glyph cached for a character, or `None` when its page is not yet
    /// loaded or the face has no glyph for it.
    pub fn glyph(&self, c: char) -> (r: Option<AtlasGlyph>)
        requires
            self.wf(),
            (c as u32) < 65536,
        ensures
            r == self.atlas.spec_glyph(c as u32 as int),
    {
        self.atlas.glyph(c)
    }

    /// The texture handle of a loaded page.
    pub fn texture(&self, page_num: u32) -> (r: Option<Texture>)
        requires
            self.wf(),
            page_num < 256,
        ensures
            r is Some <==> self.atlas.page_loaded(page_num as int),
            r matches Some(t) ==> t == (Texture { id: (page_num + 1) as u32 }),
    {
        self.atlas.texture(page_num)
    }

    /// The texture region of a character's glyph, with the page texture size
    /// as the normalization denominators.
    pub fn tex_coords(&self, c: char) -> (r: Option<UvRect>)
        requires
            self.wf(),
            (c as u32) < 65536,
        ensures
            r is Some <==> self.atlas.spec_glyph(c as u32 as int) is Some,
            r matches Some(uv) ==> {
                let g = self.atlas.spec_glyph(c as u32 as int).unwrap();
                &&& uv.min == g.tex_coords.min
                &&& uv.max == g.tex_coords.max
                &&& 0 <= uv.min.x <= uv.max.x < uv.tex_size.x
                &&& 0 <= uv.min.y <= uv.max.y < uv.tex_size.y
            },
    {
        self.atlas.tex_coords(c)
    }

    /// The fixed pixel size of the font's face.
    pub fn size_px(&self) -> (s: u32)
        ensures
            s == self.face.size_px,
    {
        self.face.size_px
    }

    /// The kerning adjustment between an ordered pair of characters, in 26.6
    /// fixed-point units; `NoKerningData` is treated as zero by layout.
    pub fn kerning(&self, c0: char, c1: char) -> (r: Result<Vector2I, FontError>)
        ensures
            r matches Err(e) ==> e == FontError::NoKerningData,
    {
        self.face.kerning(c0, c1)
    }
}

} // verus!
