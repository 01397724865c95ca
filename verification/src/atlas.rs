use vstd::prelude::*;

use crate::error::FontError;
use crate::face::{FontFace, GlyphMetrics, MAX_GLYPH_PX};
use crate::fixed_26_6::{ceil_to_i32, spec_ceil_px};
use crate::gpu::{Command, Texture};
use crate::math::{spec_disjoint, RectangleI, Vector2I};

verus! {

/// Whether a measured glyph can be packed: its extents must be non-negative
/// and at most [`MAX_GLYPH_PX`] whole pixels in each direction.  A glyph
/// outside these bounds is physically impossible for a real rasterizer and is
/// treated as unrenderable, exactly like a failed metric lookup.
pub open spec fn spec_usable(m: GlyphMetrics) -> bool {
    &&& 0 <= m.width
    &&& 0 <= m.height
    &&& spec_ceil_px(m.width as int) <= MAX_GLYPH_PX
    &&& spec_ceil_px(m.height as int) <= MAX_GLYPH_PX
}

/// The packing-slot width of a glyph: its measured width rounded up to whole
/// pixels.
pub open spec fn spec_slot_w(m: GlyphMetrics) -> int {
    spec_ceil_px(m.width as int)
}

/// The packing-slot height of a glyph: its measured height rounded up to
/// whole pixels.
pub open spec fn spec_slot_h(m: GlyphMetrics) -> int {
    spec_ceil_px(m.height as int)
}

/// The x offset at which slot `i` is placed by single-row shelf packing: the
/// sum of `slot width + 1` over every usable slot before `i` (the one-pixel
/// gap prevents bilinear-filter bleed between adjacent glyphs).  With `i` at
/// the table size, this is the width of the packed page.
pub open spec fn spec_shelf_x(ms: Seq<Option<GlyphMetrics>>, i: int) -> int
    decreases i,
{
    if i <= 0 {
        0
    } else {
        spec_shelf_x(ms, i - 1) + match ms[i - 1] {
            Some(m) => if spec_usable(m) {
                spec_slot_w(m) + 1
            } else {
                0
            },
            None => 0,
        }
    }
}

/// The height of the packed shelf over the first `i` slots: the maximum of
/// `slot height + 1` over the usable ones, and `0` when there are none.
pub open spec fn spec_shelf_h(ms: Seq<Option<GlyphMetrics>>, i: int) -> int
    decreases i,
{
    if i <= 0 {
        0
    } else {
        let rest = spec_shelf_h(ms, i - 1);
        match ms[i - 1] {
            Some(m) => if spec_usable(m) && spec_slot_h(m) + 1 > rest {
                spec_slot_h(m) + 1
            } else {
                rest
            },
            None => rest,
        }
    }
}

/// Per-code-point data held by a loaded atlas page.
///
/// `tex_coords` is the glyph's pixel region inside the page texture; all
/// other fields are the rasterizer's 26.6 fixed-point metrics.
#[derive(Clone, Copy, Debug, PartialEq, Eq, Structural)]
pub struct AtlasGlyph {
    pub tex_coords: RectangleI,
    pub size: Vector2I,
    pub horizontal_bearing: Vector2I,
    pub vertical_bearing: Vector2I,
    pub horizontal_advance: i32,
    pub vertical_advance: i32,
}

impl AtlasGlyph {
    /// The glyph's width in 26.6 fixed-point units.
    pub fn width(&self) -> (w: i32)
        ensures
            w == self.size.x,
    {
        self.size.x
    }

    /// The glyph's height in 26.6 fixed-point units.
    pub fn height(&self) -> (h: i32)
        ensures
            h == self.size.y,
    {
        self.size.y
    }
}

/// The table entry that shelf packing assigns to slot `i`: `None` for an
/// absent or unusable measurement, otherwise the glyph's metrics with its
/// region placed at `spec_shelf_x` on the single shelf row.
pub open spec fn spec_glyph_at(ms: Seq<Option<GlyphMetrics>>, i: int) -> Option<AtlasGlyph> {
    match ms[i] {
        Some(m) => if spec_usable(m) {
            Some(
                AtlasGlyph {
                    tex_coords: RectangleI {
                        min: Vector2I { x: spec_shelf_x(ms, i) as i32, y: 0 },
                        max: Vector2I {
                            x: (spec_shelf_x(ms, i) + spec_slot_w(m)) as i32,
                            y: spec_slot_h(m) as i32,
                        },
                    },
                    size: Vector2I { x: m.width, y: m.height },
                    horizontal_bearing: Vector2I { x: m.hori_bearing_x, y: m.hori_bearing_y },
                    vertical_bearing: Vector2I { x: m.vert_bearing_x, y: m.vert_bearing_y },
                    horizontal_advance: m.hori_advance,
                    vertical_advance: m.vert_advance,
                },
            )
        } else {
            None
        },
        None => None,
    }
}

/// Shelf offsets are non-negative and grow by at most `MAX_GLYPH_PX + 1` per
/// slot.
pub proof fn lemma_shelf_x_bounds(ms: Seq<Option<GlyphMetrics>>, i: int)
    requires
        0 <= i,
    ensures
        0 <= spec_shelf_x(ms, i) <= i * (MAX_GLYPH_PX + 1),
    decreases i,
{
    if i > 0 {
        lemma_shelf_x_bounds(ms, i - 1);
        assert(i * (MAX_GLYPH_PX + 1) == (i - 1) * (MAX_GLYPH_PX + 1) + (MAX_GLYPH_PX + 1));
    }
}

/// Shelf offsets are monotone in the slot index.
pub proof fn lemma_shelf_x_mono(ms: Seq<Option<GlyphMetrics>>, i: int, j: int)
    requires
        0 <= i <= j,
    ensures
        spec_shelf_x(ms, i) <= spec_shelf_x(ms, j),
    decreases j,
{
    if i < j {
        lemma_shelf_x_mono(ms, i, j - 1);
    }
}

/// The shelf height is non-negative and at most `MAX_GLYPH_PX + 1`.
pub proof fn lemma_shelf_h_bounds(ms: Seq<Option<GlyphMetrics>>, i: int)
    requires
        0 <= i,
    ensures
        0 <= spec_shelf_h(ms, i) <= MAX_GLYPH_PX + 1,
    decreases i,
{
    if i > 0 {
        lemma_shelf_h_bounds(ms, i - 1);
    }
}

/// The shelf height is monotone in the slot index.
pub proof fn lemma_shelf_h_mono(ms: Seq<Option<GlyphMetrics>>, i: int, j: int)
    requires
        0 <= i <= j,
    ensures
        spec_shelf_h(ms, i) <= spec_shelf_h(ms, j),
    decreases j,
{
    if i < j {
        lemma_shelf_h_mono(ms, i, j - 1);
    }
}

/// Every usable slot fits under the final shelf height.
pub proof fn lemma_shelf_h_covers(ms: Seq<Option<GlyphMetrics>>, i: int, n: int)
    requires
        0 <= i < n,
        ms[i] matches Some(m) && spec_usable(m),
    ensures
        (match ms[i] {
            Some(m) => spec_slot_h(m) + 1 <= spec_shelf_h(ms, n),
            None => true,
        }),
{
    lemma_shelf_h_mono(ms, i + 1, n);
}

/// A measured extent whose pixel ceiling is bounded is itself bounded.
proof fn lemma_ceil_px_le(x: int, c: int)
    requires
        0 <= x,
        0 <= c,
        spec_ceil_px(x) <= c,
    ensures
        x <= 64 * c,
{
    assert((x + 63) / 64 <= c ==> x <= 64 * c) by (nonlinear_arith)
        requires 0 <= x && 0 <= c;
}

/// One texture page covering 256 contiguous code points.
///
/// The page is created once, at its final size, and never grows: `width` and
/// `height` are fixed when the page is packed, and `glyphs` maps each slot
/// (the low byte of a code point) to its metrics and texture region, or to
/// `None` when the face has no usable glyph there.
pub struct AtlasPage {
    pub texture: Texture,
    pub width: i32,
    pub height: i32,
    pub glyphs: Vec<Option<AtlasGlyph>>,
}

impl AtlasPage {
    /// Conditions on one glyph entry: its region is well-formed, sits on the
    /// shelf row, lies strictly inside the page texture, and its 26.6 size
    /// respects the packing bound.
    pub open spec fn spec_glyph_ok(self, i: int) -> bool {
        match self.glyphs@[i] {
            Some(g) => {
                &&& 0 <= g.tex_coords.min.x
                &&& g.tex_coords.min.y == 0
                &&& g.tex_coords.min.x <= g.tex_coords.max.x
                &&& g.tex_coords.min.y <= g.tex_coords.max.y
                &&& g.tex_coords.max.x < self.width
                &&& g.tex_coords.max.y < self.height
                &&& 0 <= g.size.x <= 64 * (MAX_GLYPH_PX as int)
                &&& 0 <= g.size.y <= 64 * (MAX_GLYPH_PX as int)
            },
            None => true,
        }
    }

    /// Regions of two distinct glyph entries are ordered left to right along
    /// the shelf.
    pub open spec fn spec_pair_ordered(self, i: int, j: int) -> bool {
        match (self.glyphs@[i], self.glyphs@[j]) {
            (Some(a), Some(b)) => a.tex_coords.max.x <= b.tex_coords.min.x,
            _ => true,
        }
    }

    /// The page invariant: a full 256-entry table whose occupied regions lie
    /// inside the texture and never overlap.
    pub open spec fn wf(self) -> bool {
        &&& self.glyphs@.len() == 256
        &&& 0 <= self.width
        &&& 0 <= self.height
        &&& forall|i: int| 0 <= i < 256 ==> self.spec_glyph_ok(i)
        &&& forall|i: int, j: int| 0 <= i < j < 256 ==> self.spec_pair_ordered(i, j)
    }

    /// Whether this page is exactly the shelf packing of the given
    /// measurements, backed by the given texture handle.
    pub open spec fn spec_is_packing(self, ms: Seq<Option<GlyphMetrics>>, texture: Texture) -> bool {
        &&& self.texture == texture
        &&& self.width == spec_shelf_x(ms, 256)
        &&& self.height == spec_shelf_h(ms, 256)
        &&& self.glyphs@.len() == 256
        &&& forall|i: int| 0 <= i < 256 ==> self.glyphs@[i] == spec_glyph_at(ms, i)
    }

    /// The measure-pass half of page loading: places every usable glyph on a
    /// single shelf row, assigning each an integral pixel region with a
    /// one-pixel gap from its neighbour, and sizes the page to the resulting
    /// total width and tallest slot.
    pub fn pack(measures: &Vec<Option<GlyphMetrics>>, texture: Texture) -> (page: AtlasPage)
        requires
            measures@.len() == 256,
        ensures
            page.spec_is_packing(measures@, texture),
            page.wf(),
    {
        let ghost ms = measures@;
        let mut glyphs: Vec<Option<AtlasGlyph>> = Vec::new();
        let mut width: i32 = 0;
        let mut height: i32 = 0;
        let mut idx: usize = 0;
        while idx < 256
            invariant
                measures@.len() == 256,
                ms == measures@,
                idx <= 256,
                glyphs@.len() == idx,
                width == spec_shelf_x(ms, idx as int),
                height == spec_shelf_h(ms, idx as int),
                forall|i: int| 0 <= i < idx ==> glyphs@[i] == spec_glyph_at(ms, i),
            decreases 256 - idx,
        {
            proof {
                lemma_shelf_x_bounds(ms, idx as int);
                lemma_shelf_h_bounds(ms, idx as int);
            }
            let m_opt = measures[idx];
            match m_opt {
                Some(m) => {
                    let w = ceil_to_i32(m.width);
                    let h = ceil_to_i32(m.height);
                    if m.width >= 0 && m.height >= 0 && w <= MAX_GLYPH_PX && h <= MAX_GLYPH_PX {
                        let rect = RectangleI::new(Vector2I::new(width, 0), w, h);
                        glyphs.push(
                            Some(
                                AtlasGlyph {
                                    tex_coords: rect,
                                    size: Vector2I::new(m.width, m.height),
                                    horizontal_bearing: Vector2I::new(
                                        m.hori_bearing_x,
                                        m.hori_bearing_y,
                                    ),
                                    vertical_bearing: Vector2I::new(
                                        m.vert_bearing_x,
                                        m.vert_bearing_y,
                                    ),
                                    horizontal_advance: m.hori_advance,
                                    vertical_advance: m.vert_advance,
                                },
                            ),
                        );
                        width = width + w + 1;
                        if h + 1 > height {
                            height = h + 1;
                        }
                    } else {
                        glyphs.push(None);
                    }
                },
                None => {
                    glyphs.push(None);
                },
            }
            idx = idx + 1;
        }
        let page = AtlasPage { texture, width, height, glyphs };
        proof {
            lemma_shelf_x_bounds(ms, 256);
            lemma_shelf_h_bounds(ms, 256);
            assert forall|i: int| 0 <= i < 256 implies page.spec_glyph_ok(i) by {
                assert(page.glyphs@[i] == spec_glyph_at(ms, i));
                lemma_shelf_x_bounds(ms, i);
                lemma_shelf_x_mono(ms, i + 1, 256);
                match ms[i] {
                    Some(m) => {
                        if spec_usable(m) {
                            lemma_shelf_h_covers(ms, i, 256);
                            lemma_ceil_px_le(m.width as int, MAX_GLYPH_PX as int);
                            lemma_ceil_px_le(m.height as int, MAX_GLYPH_PX as int);
                        }
                    },
                    None => {},
                }
            }
            assert forall|i: int, j: int| 0 <= i < j < 256 implies page.spec_pair_ordered(i, j) by {
                assert(page.glyphs@[i] == spec_glyph_at(ms, i));
                assert(page.glyphs@[j] == spec_glyph_at(ms, j));
                lemma_shelf_x_bounds(ms, i);
                lemma_shelf_x_bounds(ms, j);
                lemma_shelf_x_mono(ms, i + 1, j);
            }
        }
        page
    }
}

/// Packing non-overlap: in a well-formed page, the regions of two distinct
/// glyphs are disjoint, and each lies within `[0, width) x [0, height)` of
/// the page texture.
pub proof fn lemma_packing_non_overlap(page: AtlasPage, i: int, j: int)
    requires
        page.wf(),
        0 <= i < 256,
        0 <= j < 256,
        i != j,
        page.glyphs@[i] is Some,
        page.glyphs@[j] is Some,
    ensures
        spec_disjoint(page.glyphs@[i].unwrap().tex_coords, page.glyphs@[j].unwrap().tex_coords),
        0 <= page.glyphs@[i].unwrap().tex_coords.min.x,
        0 <= page.glyphs@[i].unwrap().tex_coords.min.y,
        page.glyphs@[i].unwrap().tex_coords.max.x < page.width,
        page.glyphs@[i].unwrap().tex_coords.max.y < page.height,
{
    assert(page.spec_glyph_ok(i));
    assert(page.spec_glyph_ok(j));
    if i < j {
        assert(page.spec_pair_ordered(i, j));
    } else {
        assert(page.spec_pair_ordered(j, i));
    }
}

/// The byte at row `r`, column `c` of a row-major buffer whose rows are
/// `stride` bytes apart.
pub open spec fn spec_row_byte(s: Seq<u8>, r: int, c: int, stride: int) -> u8 {
    s[r * stride + c]
}

/// Copies the meaningful bytes out of a padded row-major buffer: row `r` of
/// the result is the first `width` bytes of row `r` of `data`, whose rows are
/// `pitch` bytes apart.
pub fn extract_rows(data: &Vec<u8>, width: usize, rows: usize, pitch: usize) -> (out: Vec<u8>)
    requires
        width <= pitch,
        rows * pitch <= data@.len(),
    ensures
        out@.len() == rows * width,
        forall|r: int, c: int|
            0 <= r < rows && 0 <= c < width ==> spec_row_byte(out@, r, c, width as int)
                == spec_row_byte(data@, r, c, pitch as int),
{
    let n: usize = data.len();
    let mut out: Vec<u8> = Vec::new();
    let mut r: usize = 0;
    while r < rows
        invariant
            width <= pitch,
            n == data@.len(),
            rows * pitch <= data@.len(),
            r <= rows,
            out@.len() == r * width,
            forall|rr: int, c: int|
                0 <= rr < r && 0 <= c < width ==> spec_row_byte(out@, rr, c, width as int)
                    == spec_row_byte(data@, rr, c, pitch as int),
        decreases rows - r,
    {
        proof {
            assert((r + 1) * pitch <= rows * pitch) by (nonlinear_arith)
                requires r < rows && 0 <= pitch;
            assert((r + 1) * width <= (r + 1) * pitch) by (nonlinear_arith)
                requires width <= pitch && 0 <= r;
            assert(r * pitch + pitch == (r + 1) * pitch) by (nonlinear_arith);
        }
        let row_base: usize = r * pitch;
        let mut c: usize = 0;
        while c < width
            invariant
                width <= pitch,
                n == data@.len(),
                rows * pitch <= data@.len(),
                r < rows,
                c <= width,
                row_base == r * pitch,
                (r + 1) * pitch <= rows * pitch,
                (r + 1) * width <= (r + 1) * pitch,
                out@.len() == r * width + c,
                forall|rr: int, cc: int|
                    0 <= rr < r && 0 <= cc < width ==> spec_row_byte(out@, rr, cc, width as int)
                        == spec_row_byte(data@, rr, cc, pitch as int),
                forall|cc: int|
                    0 <= cc < c ==> spec_row_byte(out@, r as int, cc, width as int)
                        == spec_row_byte(data@, r as int, cc, pitch as int),
            decreases width - c,
        {
            proof {
                assert(r * pitch + c < (r + 1) * pitch) by (nonlinear_arith)
                    requires c < width && width <= pitch && 0 <= r;
                assert(r * pitch + pitch == (r + 1) * pitch) by (nonlinear_arith);
            }
            let b = data[row_base + c];
            out.push(b);
            proof {
                assert forall|rr: int, cc: int|
                    0 <= rr < r && 0 <= cc < width implies spec_row_byte(out@, rr, cc, width as int)
                    == spec_row_byte(data@, rr, cc, pitch as int) by {
                    assert(rr * width + cc < r * width) by (nonlinear_arith)
                        requires rr < r && 0 <= cc < width && 0 <= rr;
                }
                assert forall|cc: int|
                    0 <= cc < c + 1 implies spec_row_byte(out@, r as int, cc, width as int)
                    == spec_row_byte(data@, r as int, cc, pitch as int) by {
                }
            }
            c = c + 1;
        }
        r = r + 1;
        proof {
            assert(r * width == (r - 1) * width + width) by (nonlinear_arith)
                requires 1 <= r;
        }
    }
    proof {
        assert(out@.len() == rows * width);
    }
    out
}

/// Where a write command may land: within the region of the glyph at `slot`
/// of the page, flush with the region's top-left corner.
pub open spec fn spec_write_in_slot(
    page: AtlasPage,
    slot: int,
    x: int,
    y: int,
    width: int,
    height: int,
) -> bool {
    match page.glyphs@[slot] {
        Some(g) => {
            &&& x == g.tex_coords.min.x
            &&& y == g.tex_coords.min.y
            &&& 0 <= width
            &&& 0 <= height
            &&& x + width <= g.tex_coords.max.x
            &&& y + height <= g.tex_coords.max.y
        },
        None => false,
    }
}

/// A well-formed region write: it targets the page's texture, stays inside
/// the region reserved for one of the page's glyphs, and carries exactly one
/// byte per covered texel.
pub open spec fn spec_write_fits(cmd: Command, page: AtlasPage) -> bool {
    match cmd {
        Command::WriteTexture { texture, x, y, width, height, data } => {
            &&& texture == page.texture
            &&& exists|slot: int|
                0 <= slot < 256 && spec_write_in_slot(
                    page,
                    slot,
                    x as int,
                    y as int,
                    width as int,
                    height as int,
                )
            &&& data@.len() == width * height
        },
        _ => false,
    }
}

/// The first slot that a page covers: page 0 reserves the control-character
/// block, whose code points have no visible glyph and would otherwise waste
/// width.
pub open spec fn spec_first_slot(page_num: int) -> int {
    if page_num == 0 {
        0x20
    } else {
        0
    }
}

/// A sparse table of up to 256 texture pages covering the Unicode Basic
/// Multilingual Plane, loaded lazily and cached forever: a page is `None`
/// until first requested, and never removed or resized afterwards.
pub struct Atlas {
    pub pages: Vec<Option<AtlasPage>>,
}

impl Atlas {
    /// Whether the page table has an entry for page `p`.
    pub open spec fn page_loaded(self, p: int) -> bool {
        0 <= p < 256 && self.pages@[p] is Some
    }

    /// The loaded page `p`.
    pub open spec fn spec_page(self, p: int) -> AtlasPage {
        self.pages@[p].unwrap()
    }

    /// The atlas invariant: a full table of 256 optional pages, each loaded
    /// one well-formed and backed by the texture handle `page number + 1`
    /// (handle 0 stays the null texture), so distinct pages never share a
    /// texture.
    pub open spec fn wf(self) -> bool {
        &&& self.pages@.len() == 256
        &&& forall|p: int|
            #[trigger] self.page_loaded(p) ==> self.spec_page(p).wf() && self.spec_page(p).texture
                == (Texture { id: (p + 1) as u32 })
    }

    /// The glyph table entry for a code point: `None` when its page is not
    /// loaded or has no glyph in that slot.
    pub open spec fn spec_glyph(self, code: int) -> Option<AtlasGlyph> {
        if self.page_loaded(code / 256) {
            self.spec_page(code / 256).glyphs@[code % 256]
        } else {
            None
        }
    }

    /// An empty atlas: no page is loaded.
    pub fn new() -> (a: Atlas)
        ensures
            a.wf(),
            forall|p: int| !a.page_loaded(p),
    {
        let mut pages: Vec<Option<AtlasPage>> = Vec::new();
        let mut i: usize = 0;
        while i < 256
            invariant
                pages@.len() == i,
                i <= 256,
                forall|k: int| 0 <= k < i ==> pages@[k] is None,
            decreases 256 - i,
        {
            pages.push(None);
            i = i + 1;
        }
        Atlas { pages }
    }

    /// The inclusive slot range that a page covers.
    pub fn range_for_page(&self, page_num: u32) -> (r: (u32, u32))
        ensures
            r.0 == spec_first_slot(page_num as int),
            r.1 == 255,
    {
        if page_num == 0 {
            (0x20, 255)
        } else {
            (0, 255)
        }
    }

    /// The loaded page holding a character's glyph, if any.
    fn glyph_page(&self, c: char) -> (r: Option<&AtlasPage>)
        requires
            self.wf(),
            (c as u32) < 65536,
        ensures
            r is Some <==> self.page_loaded(c as u32 as int / 256),
            r matches Some(page) ==> *page == self.spec_page(c as u32 as int / 256),
    {
        let page_num = (c as u32 / 256) as usize;
        match &self.pages[page_num] {
            Some(page) => Some(page),
            None => None,
        }
    }

    /// The glyph data cached for a character, or `None` when its page is not
    /// loaded or the face has no glyph for it.  The atlas never loads a page
    /// on its own: callers load pages explicitly first.
    pub fn glyph(&self, c: char) -> (r: Option<AtlasGlyph>)
        requires
            self.wf(),
            (c as u32) < 65536,
        ensures
            r == self.spec_glyph(c as u32 as int),
    {
        match self.glyph_page(c) {
            Some(page) => {
                let slot = (c as u32 % 256) as usize;
                page.glyphs[slot]
            },
            None => None,
        }
    }

    /// The texture handle of a loaded page, or `None` when the page is not
    /// loaded.
    pub fn texture(&self, page_num: u32) -> (r: Option<Texture>)
        requires
            self.wf(),
            page_num < 256,
        ensures
            r is Some <==> self.page_loaded(page_num as int),
            r matches Some(t) ==> t == (Texture { id: (page_num + 1) as u32 }),
    {
        match &self.pages[page_num as usize] {
            Some(page) => {
                proof {
                    assert(self.page_loaded(page_num as int));
                }
                Some(page.texture)
            },
            None => None,
        }
    }

    /// The texture region of a character's glyph together with the owning
    /// page's texture size; dividing the corners by the size yields
    /// normalized coordinates in `[0, 1]`.  `None` when the glyph is absent.
    pub fn tex_coords(&self, c: char) -> (r: Option<UvRect>)
        requires
            self.wf(),
            (c as u32) < 65536,
        ensures
            r is Some <==> self.spec_glyph(c as u32 as int) is Some,
            r matches Some(uv) ==> {
                let g = self.spec_glyph(c as u32 as int).unwrap();
                let page = self.spec_page(c as u32 as int / 256);
                &&& uv.min == g.tex_coords.min
                &&& uv.max == g.tex_coords.max
                &&& uv.tex_size == (Vector2I { x: page.width, y: page.height })
                &&& 0 <= uv.min.x <= uv.max.x < uv.tex_size.x
                &&& 0 <= uv.min.y <= uv.max.y < uv.tex_size.y
            },
    {
        match self.glyph_page(c) {
            Some(page) => {
                let slot = (c as u32 % 256) as usize;
                proof {
                    assert(page.spec_glyph_ok(slot as int));
                }
                match page.glyphs[slot] {
                    Some(g) => Some(
                        UvRect {
                            min: g.tex_coords.min,
                            max: g.tex_coords.max,
                            tex_size: Vector2I { x: page.width, y: page.height },
                        },
                    ),
                    None => None,
                }
            },
            None => None,
        }
    }
}

impl Atlas {
    /// Packs a page from already-obtained measurements and installs it.
    ///
    /// Loading is idempotent: when the page is already present, the atlas is
    /// left untouched and no GPU work is requested.  Otherwise the returned
    /// command stream holds exactly the allocation of the page's texture,
    /// zero-initialized at its final size; the caller uploads bitmap data
    /// separately (or not at all, for pages measured without rendering).
    pub fn load_page_from_measures(
        &mut self,
        page_num: u32,
        measures: &Vec<Option<GlyphMetrics>>,
    ) -> (cmds: Vec<Command>)
        requires
            old(self).wf(),
            page_num < 256,
            measures@.len() == 256,
        ensures
            final(self).wf(),
            final(self).page_loaded(page_num as int),
            old(self).page_loaded(page_num as int) ==> *final(self) == *old(self) && cmds@.len()
                == 0,
            !old(self).page_loaded(page_num as int) ==> {
                &&& final(self).spec_page(page_num as int).spec_is_packing(
                    measures@,
                    Texture { id: (page_num + 1) as u32 },
                )
                &&& final(self).spec_page(page_num as int).wf()
                &&& forall|q: int|
                    0 <= q < 256 && q != page_num ==> final(self).pages@[q] == old(self).pages@[q]
                &&& cmds@ =~= seq![
                    Command::CreateTexture {
                        texture: Texture { id: (page_num + 1) as u32 },
                        width: final(self).spec_page(page_num as int).width,
                        height: final(self).spec_page(page_num as int).height,
                    },
                ]
            },
    {
        if self.pages[page_num as usize].is_some() {
            proof {
                assert(self.page_loaded(page_num as int));
            }
            return Vec::new();
        }
        let texture = Texture { id: page_num + 1 };
        let page = AtlasPage::pack(measures, texture);
        let mut cmds: Vec<Command> = Vec::new();
        cmds.push(
            Command::CreateTexture { texture, width: page.width, height: page.height },
        );
        self.pages[page_num as usize] = Some(page);
        proof {
            assert forall|p: int| #[trigger] self.page_loaded(p) implies self.spec_page(p).wf()
                && self.spec_page(p).texture == (Texture { id: (p + 1) as u32 }) by {
                if p != page_num as int {
                    assert(old(self).page_loaded(p));
                }
            }
        }
        cmds
    }

    /// Loads one page from the rasterizer, if it is not already present.
    ///
    /// The measure pass collects metrics for every code point of the page's
    /// range and shelf-packs them; the render pass rasterizes each packed
    /// glyph and turns its bitmap into a region write.  The returned stream
    /// starts with the allocation of the page texture at its final size,
    /// followed only by writes that stay inside the regions reserved by the
    /// measure pass — the two-phase order the GPU needs.  A rendered bitmap
    /// larger than its reserved region aborts the load with `RegionOverflow`
    /// and leaves the atlas unchanged.  Code points the face cannot measure
    /// are left absent; ones it measures but cannot render keep their region
    /// zero-filled.
    #[verifier::rlimit(30)]
    pub fn load_page(&mut self, page_num: u32, face: &FontFace) -> (r: Result<
        Vec<Command>,
        FontError,
    >)
        requires
            old(self).wf(),
            page_num < 256,
        ensures
            final(self).wf(),
            r matches Err(e) ==> e == FontError::RegionOverflow && *final(self) == *old(self),
            old(self).page_loaded(page_num as int) ==> (r matches Ok(cmds) && cmds@.len() == 0
                && *final(self) == *old(self)),
            r is Ok ==> final(self).page_loaded(page_num as int),
            r is Ok && !old(self).page_loaded(page_num as int) ==> {
                &&& (exists|ms: Seq<Option<GlyphMetrics>>|
                    ms.len() == 256 && final(self).spec_page(page_num as int).spec_is_packing(
                        ms,
                        Texture { id: (page_num + 1) as u32 },
                    ))
                &&& forall|q: int|
                    0 <= q < 256 && q != page_num ==> final(self).pages@[q] == old(self).pages@[q]
                &&& {
                    let cmds = r.unwrap();
                    let page = final(self).spec_page(page_num as int);
                    &&& cmds@.len() >= 1
                    &&& cmds@[0] == (Command::CreateTexture {
                        texture: Texture { id: (page_num + 1) as u32 },
                        width: page.width,
                        height: page.height,
                    })
                    &&& forall|k: int| 1 <= k < cmds@.len() ==> spec_write_fits(#[trigger] cmds@[k], page)
                }
            },
    {
        if self.pages[page_num as usize].is_some() {
            proof {
                assert(self.page_loaded(page_num as int));
            }
            return Ok(Vec::new());
        }
        let (start, _last) = self.range_for_page(page_num);

        // Measure pass: collect metrics for the page's code point range.
        let mut measures: Vec<Option<GlyphMetrics>> = Vec::new();
        let mut slot: u32 = 0;
        while slot < 256
            invariant
                measures@.len() == slot,
                slot <= 256,
                page_num < 256,
                start <= 256,
            decreases 256 - slot,
        {
            if slot < start {
                measures.push(None);
            } else {
                let code = page_num * 256 + slot;
                match face.measure_code(code) {
                    Ok(m) => measures.push(Some(m)),
                    Err(_) => measures.push(None),
                }
            }
            slot = slot + 1;
        }

        let texture = Texture { id: page_num + 1 };
        let page = AtlasPage::pack(&measures, texture);
        let mut cmds: Vec<Command> = Vec::new();
        cmds.push(
            Command::CreateTexture { texture, width: page.width, height: page.height },
        );

        // Render pass: rasterize each packed glyph and copy its bitmap,
        // honoring the bitmap's own row stride, into the reserved region.
        let mut slot: usize = 0;
        while slot < 256
            invariant
                *self == *old(self),
                old(self).wf(),
                !old(self).page_loaded(page_num as int),
                page.wf(),
                page.texture == texture,
                page.glyphs@.len() == 256,
                page_num < 256,
                cmds@.len() >= 1,
                cmds@[0] == (Command::CreateTexture {
                    texture,
                    width: page.width,
                    height: page.height,
                }),
                forall|k: int| 1 <= k < cmds@.len() ==> spec_write_fits(#[trigger] cmds@[k], page),
            decreases 256 - slot,
        {
            if page.glyphs[slot].is_some() {
                proof {
                    assert(page.spec_glyph_ok(slot as int));
                }
                let g = page.glyphs[slot].unwrap();
                let region = g.tex_coords;
                let region_w = region.width();
                let region_h = region.height();
                let code = page_num * 256 + slot as u32;
                match face.render_code(code) {
                    Err(_) => {},
                    Ok(b) => {
                        if b.width < 0 || b.rows < 0 || b.width > region_w || b.rows > region_h {
                            return Err(FontError::RegionOverflow);
                        }
                        if b.width <= b.pitch {
                            proof {
                                assert((b.rows as int) * (b.pitch as int) < 0x4000000000000000int)
                                    by (nonlinear_arith)
                                    requires
                                        0 <= b.rows < 0x80000000,
                                        0 <= b.pitch < 0x80000000,
                                ;
                            }
                            let need = (b.rows as u64) * (b.pitch as u64);
                            if need <= b.data.len() as u64 {
                                proof {
                                    assert((b.rows as u64) * (b.pitch as u64) == (b.rows as int) * (
                                    b.pitch as int)) by (nonlinear_arith)
                                        requires 0 <= b.rows && 0 <= b.pitch;
                                    assert((b.rows as int) * (b.pitch as int) == (b.pitch as int) * (
                                    b.rows as int)) by (nonlinear_arith);
                                }
                                let data = extract_rows(
                                    &b.data,
                                    b.width as usize,
                                    b.rows as usize,
                                    b.pitch as usize,
                                );
                                proof {
                                    assert((b.rows as int) * (b.width as int) == (b.width as int) * (
                                    b.rows as int)) by (nonlinear_arith);
                                    assert(data@.len() == (b.width as int) * (b.rows as int));
                                }
                                cmds.push(
                                    Command::WriteTexture {
                                        texture,
                                        x: region.min.x,
                                        y: region.min.y,
                                        width: b.width,
                                        height: b.rows,
                                        data,
                                    },
                                );
                                proof {
                                    assert(spec_write_in_slot(
                                        page,
                                        slot as int,
                                        region.min.x as int,
                                        region.min.y as int,
                                        b.width as int,
                                        b.rows as int,
                                    ));
                                    assert(cmds@[cmds@.len() - 1] is WriteTexture);
                                    assert(cmds@[cmds@.len() - 1] matches
                                        Command::WriteTexture { texture: t, x, y, width, height, data }
                                        && t == page.texture
                                        && data@.len() == width * height
                                        && 0 <= slot < 256
                                        && spec_write_in_slot(page, slot as int, x as int, y as int, width as int, height as int));
                                    assert(spec_write_fits(cmds@[cmds@.len() - 1], page));
                                }
                            }
                        }
                    },
                }
            }
            slot = slot + 1;
        }

        self.pages[page_num as usize] = Some(page);
        proof {
            assert forall|p: int| #[trigger] self.page_loaded(p) implies self.spec_page(p).wf()
                && self.spec_page(p).texture == (Texture { id: (p + 1) as u32 }) by {
                if p != page_num as int {
                    assert(old(self).page_loaded(p));
                }
            }
            assert(final(self).spec_page(page_num as int).spec_is_packing(
                measures@,
                Texture { id: (page_num + 1) as u32 },
            ));
        }
        Ok(cmds)
    }
}

/// A glyph's texture region in pixels, paired with the page texture's size;
/// the normalized texture coordinates of the region are `min / tex_size` and
/// `max / tex_size` componentwise.
#[derive(Clone, Copy, Debug, PartialEq, Eq, Structural)]
pub struct UvRect {
    pub min: Vector2I,
    pub max: Vector2I,
    pub tex_size: Vector2I,
}

/// Distinct loaded pages of one atlas are backed by distinct textures.
pub proof fn lemma_distinct_page_textures(a: Atlas, p: int, q: int)
    requires
        a.wf(),
        a.page_loaded(p),
        a.page_loaded(q),
        p != q,
    ensures
        a.spec_page(p).texture != a.spec_page(q).texture,
{
}

} // verus!
