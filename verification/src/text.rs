use vstd::prelude::*;

use crate::atlas::{Atlas, AtlasGlyph};
use crate::error::FontError;
use crate::fixed_26_6::{spec_floor_px, to_px_i32};
use crate::font::Font;
use crate::gpu::{Command, Texture, Uniform};
use crate::math::Vector2I;

verus! {

/// The most characters one layout call accepts; keeps every pen coordinate
/// far from `i64` overflow.
pub const MAX_TEXT_CHARS: usize = 1048576;

/// Layout coordinates count three units to the pixel, so that both whole
/// pixels and the space-character fallback advance of a third of the pixel
/// size are exact integers.
pub const LAYOUT_UNITS_PER_PX: i64 = 3;

/// Pen origins must stay within this bound (in layout units) so that no
/// vertex coordinate can overflow.
pub const MAX_PEN_ORIGIN: i64 = 0x2000_0000_0000_0000;

/// The largest distance (in layout units) the pen can move while processing
/// one character.
pub const MAX_CHAR_ADVANCE: i64 = 0x1000_0000;

/// A two-dimensional point in layout units ([`LAYOUT_UNITS_PER_PX`] units to
/// the pixel).
#[derive(Clone, Copy, Debug, PartialEq, Eq, Structural)]
pub struct Point2 {
    pub x: i64,
    pub y: i64,
}

impl Point2 {
    pub fn new(x: i64, y: i64) -> (p: Point2)
        ensures
            p == (Point2 { x, y }),
    {
        Point2 { x, y }
    }
}

/// The geometry laid out for one atlas page: parallel lists of quad corner
/// positions (layout units) and texel coordinates (pixels; divide by
/// `tex_size` for normalized coordinates), triangle indices into them, and
/// the page's texture.  Once built it is independent of the font it was
/// laid out with.
pub struct TextGpuData {
    pub unicode_page: u32,
    pub positions: Vec<Point2>,
    pub tex_coords: Vec<Vector2I>,
    pub tex_size: Vector2I,
    pub indices: Vec<u32>,
    pub texture: Texture,
}

impl TextGpuData {
    /// An empty batch for one page, with no texture attached yet.
    pub fn new(unicode_page: u32) -> (d: TextGpuData)
        ensures
            d.unicode_page == unicode_page,
            d.positions@.len() == 0,
            d.tex_coords@.len() == 0,
            d.indices@.len() == 0,
            d.texture == (Texture { id: 0 }),
            d.tex_size == (Vector2I { x: 0, y: 0 }),
    {
        TextGpuData {
            unicode_page,
            positions: Vec::new(),
            tex_coords: Vec::new(),
            tex_size: Vector2I { x: 0, y: 0 },
            indices: Vec::new(),
            texture: Texture { id: 0 },
        }
    }
}

impl TextGpuData {
    /// The GPU commands that draw this batch through the given shader: bind
    /// the batch's page texture, then draw its triangles.  `batch` names
    /// this batch's position in the list being drawn.
    pub fn draw(&self, shader: &mut TextShader, batch: usize) -> (cmds: Vec<Command>)
        ensures
            *final(shader) == *old(shader),
            cmds@ == old(shader).spec_set_texture_cmds(self.texture).push(
                Command::DrawBatch { batch, n_indices: self.indices@.len() as usize },
            ),
    {
        let mut cmds = shader.set_texture(self.texture);
        cmds.push(Command::DrawBatch { batch, n_indices: self.indices.len() });
        cmds
    }
}

/// The atlas page number of a character.
pub open spec fn spec_page_of(c: char) -> int {
    (c as u32) as int / 256
}

/// Whether the atlas holds a glyph for the character: the renderable case of
/// layout.
pub open spec fn spec_rend(atlas: Atlas, c: char) -> bool {
    atlas.spec_glyph((c as u32) as int) is Some
}

/// The atlas glyph of a renderable character.
pub open spec fn spec_glyph_of(atlas: Atlas, c: char) -> AtlasGlyph {
    atlas.spec_glyph((c as u32) as int).unwrap()
}

/// Whether the kerning input at position `k` takes part in layout: only when
/// the characters at `k - 1` and `k` are both renderable.  Kerning never
/// spans an unrenderable code point — a space or unmapped character resets
/// the pair.
pub open spec fn spec_kern_gate(chars: Seq<char>, atlas: Atlas, k: int) -> bool {
    k >= 1 && spec_rend(atlas, chars[k - 1]) && spec_rend(atlas, chars[k])
}

/// How far the pen moves (in layout units) when processing character `k`: a
/// renderable glyph advances by its horizontal advance in whole pixels plus
/// the applicable kerning adjustment; a space without a glyph falls back to a
/// third of the pixel size; any other unrenderable character does not move
/// the pen.
pub open spec fn spec_advance_x(
    chars: Seq<char>,
    atlas: Atlas,
    size_px: int,
    kerns: Seq<i32>,
    k: int,
) -> int {
    let c = chars[k];
    if spec_rend(atlas, c) {
        3 * spec_floor_px(spec_glyph_of(atlas, c).horizontal_advance as int) + (if spec_kern_gate(
            chars,
            atlas,
            k,
        ) {
            3 * kerns[k]
        } else {
            0
        })
    } else if c == ' ' {
        size_px
    } else {
        0
    }
}

/// The pen's x coordinate (in layout units) before character `k` is
/// processed.
pub open spec fn spec_pen_x(
    chars: Seq<char>,
    atlas: Atlas,
    size_px: int,
    kerns: Seq<i32>,
    origin_x: int,
    k: int,
) -> int
    decreases k,
{
    if k <= 0 {
        origin_x
    } else {
        spec_pen_x(chars, atlas, size_px, kerns, origin_x, k - 1) + spec_advance_x(
            chars,
            atlas,
            size_px,
            kerns,
            k - 1,
        )
    }
}

/// The distinct pages of the first `k` characters, in order of first
/// occurrence.
pub open spec fn spec_touched_pages(chars: Seq<char>, k: int) -> Seq<int>
    decreases k,
{
    if k <= 0 {
        Seq::<int>::empty()
    } else {
        let rest = spec_touched_pages(chars, k - 1);
        let p = spec_page_of(chars[k - 1]);
        if rest.contains(p) {
            rest
        } else {
            rest.push(p)
        }
    }
}

/// How many renderable glyphs of page `p` occur among the first `k`
/// characters.
pub open spec fn spec_count_for_page(chars: Seq<char>, atlas: Atlas, p: int, k: int) -> int
    decreases k,
{
    if k <= 0 {
        0
    } else {
        spec_count_for_page(chars, atlas, p, k - 1) + if spec_page_of(chars[k - 1]) == p
            && spec_rend(atlas, chars[k - 1]) {
            1int
        } else {
            0int
        }
    }
}

/// The four corner positions of one glyph quad, clockwise from the top left.
/// The top left sits at the pen plus the glyph's horizontal bearing (the y
/// bearing flipped, since layout y grows downward while bearings grow
/// upward); the quad's extent is the glyph size in whole pixels.
pub open spec fn spec_quad_positions(pen_x: int, pen_y: int, g: AtlasGlyph) -> Seq<Point2> {
    let tlx = pen_x + 3 * spec_floor_px(g.horizontal_bearing.x as int);
    let tly = pen_y - 3 * spec_floor_px(g.horizontal_bearing.y as int);
    let w = 3 * spec_floor_px(g.size.x as int);
    let h = 3 * spec_floor_px(g.size.y as int);
    seq![
        Point2 { x: tlx as i64, y: tly as i64 },
        Point2 { x: (tlx + w) as i64, y: tly as i64 },
        Point2 { x: (tlx + w) as i64, y: (tly + h) as i64 },
        Point2 { x: tlx as i64, y: (tly + h) as i64 },
    ]
}

/// The texel coordinates of the four corners of a glyph's texture region, in
/// the same corner order as [`spec_quad_positions`].
pub open spec fn spec_uv_quad(g: AtlasGlyph) -> Seq<Vector2I> {
    seq![
        g.tex_coords.min,
        Vector2I { x: g.tex_coords.max.x, y: g.tex_coords.min.y },
        g.tex_coords.max,
        Vector2I { x: g.tex_coords.min.x, y: g.tex_coords.max.y },
    ]
}

/// The two triangles of the quad whose first corner is vertex `base`.
pub open spec fn spec_idx_quad(base: int) -> Seq<u32> {
    seq![
        base as u32,
        (base + 1) as u32,
        (base + 3) as u32,
        (base + 3) as u32,
        (base + 1) as u32,
        (base + 2) as u32,
    ]
}

/// The corner positions that the first `k` characters contribute to the
/// batch of page `p`.
pub open spec fn spec_positions_for_page(
    chars: Seq<char>,
    atlas: Atlas,
    size_px: int,
    kerns: Seq<i32>,
    origin: Point2,
    p: int,
    k: int,
) -> Seq<Point2>
    decreases k,
{
    if k <= 0 {
        Seq::<Point2>::empty()
    } else {
        let rest = spec_positions_for_page(chars, atlas, size_px, kerns, origin, p, k - 1);
        let c = chars[k - 1];
        if spec_page_of(c) == p && spec_rend(atlas, c) {
            rest + spec_quad_positions(
                spec_pen_x(chars, atlas, size_px, kerns, origin.x as int, k - 1),
                origin.y as int,
                spec_glyph_of(atlas, c),
            )
        } else {
            rest
        }
    }
}

/// The texel coordinates that the first `k` characters contribute to the
/// batch of page `p`.
pub open spec fn spec_texcoords_for_page(chars: Seq<char>, atlas: Atlas, p: int, k: int) -> Seq<
    Vector2I,
>
    decreases k,
{
    if k <= 0 {
        Seq::<Vector2I>::empty()
    } else {
        let rest = spec_texcoords_for_page(chars, atlas, p, k - 1);
        let c = chars[k - 1];
        if spec_page_of(c) == p && spec_rend(atlas, c) {
            rest + spec_uv_quad(spec_glyph_of(atlas, c))
        } else {
            rest
        }
    }
}

/// The triangle indices that the first `k` characters contribute to the
/// batch of page `p`.
pub open spec fn spec_indices_for_page(chars: Seq<char>, atlas: Atlas, p: int, k: int) -> Seq<u32>
    decreases k,
{
    if k <= 0 {
        Seq::<u32>::empty()
    } else {
        let rest = spec_indices_for_page(chars, atlas, p, k - 1);
        let c = chars[k - 1];
        if spec_page_of(c) == p && spec_rend(atlas, c) {
            rest + spec_idx_quad(4 * spec_count_for_page(chars, atlas, p, k - 1))
        } else {
            rest
        }
    }
}

/// The full description of a layout result: one batch per touched page in
/// first-occurrence order, each carrying its page's texture and size and
/// exactly the quads of that page's renderable characters (see
/// [`spec_batch_geom_ok`] with both counters at the text length).
pub open spec fn spec_batches_ok(
    chars: Seq<char>,
    atlas: Atlas,
    size_px: int,
    kerns: Seq<i32>,
    origin: Point2,
    batches: Seq<TextGpuData>,
) -> bool {
    let n = chars.len() as int;
    &&& batches.len() == spec_touched_pages(chars, n).len()
    &&& forall|b: int|
        0 <= b < batches.len() ==> #[trigger] spec_batch_geom_ok(
            chars,
            atlas,
            size_px,
            kerns,
            origin,
            n,
            n,
            batches,
            b,
        )
}

/// The floor of a 26.6 value lies well within `2^25` in magnitude.
proof fn lemma_floor_px_range(x: int)
    requires
        -0x8000_0000 <= x < 0x8000_0000,
    ensures
        -0x200_0000 <= spec_floor_px(x) <= 0x200_0000,
{
    assert(-0x200_0000 <= x / 64 <= 0x200_0000) by (nonlinear_arith)
        requires -0x8000_0000 <= x < 0x8000_0000;
}

/// One character moves the pen by at most [`MAX_CHAR_ADVANCE`] layout units.
proof fn lemma_advance_bound(
    chars: Seq<char>,
    atlas: Atlas,
    size_px: int,
    kerns: Seq<i32>,
    k: int,
)
    requires
        0 <= k < chars.len(),
        0 <= size_px <= 1048576,
        k < kerns.len(),
        -0x200_0000 <= kerns[k] <= 0x200_0000,
    ensures
        -MAX_CHAR_ADVANCE <= spec_advance_x(chars, atlas, size_px, kerns, k) <= MAX_CHAR_ADVANCE,
{
    let c = chars[k];
    if spec_rend(atlas, c) {
        lemma_floor_px_range(spec_glyph_of(atlas, c).horizontal_advance as int);
    }
}

/// The pen drifts from its origin by at most [`MAX_CHAR_ADVANCE`] per
/// character.
proof fn lemma_pen_bounds(
    chars: Seq<char>,
    atlas: Atlas,
    size_px: int,
    kerns: Seq<i32>,
    origin_x: int,
    k: int,
)
    requires
        0 <= k <= chars.len(),
        chars.len() <= MAX_TEXT_CHARS,
        kerns.len() == chars.len(),
        0 <= size_px <= 1048576,
        forall|i: int| 0 <= i < kerns.len() ==> -0x200_0000 <= #[trigger] kerns[i] <= 0x200_0000,
    ensures
        origin_x - k * MAX_CHAR_ADVANCE <= spec_pen_x(chars, atlas, size_px, kerns, origin_x, k)
            <= origin_x + k * MAX_CHAR_ADVANCE,
    decreases k,
{
    if k > 0 {
        lemma_pen_bounds(chars, atlas, size_px, kerns, origin_x, k - 1);
        lemma_advance_bound(chars, atlas, size_px, kerns, k - 1);
        assert(k * MAX_CHAR_ADVANCE == (k - 1) * MAX_CHAR_ADVANCE + MAX_CHAR_ADVANCE)
            by (nonlinear_arith);
    }
}

/// The touched-page list never exceeds the character count, holds only page
/// numbers of the Basic Multilingual Plane, and has no duplicates.
proof fn lemma_touched_pages_wf(chars: Seq<char>, k: int)
    requires
        0 <= k <= chars.len(),
        forall|i: int| 0 <= i < chars.len() ==> (#[trigger] chars[i] as u32) < 65536,
    ensures
        spec_touched_pages(chars, k).len() <= k,
        forall|b: int|
            0 <= b < spec_touched_pages(chars, k).len() ==> 0 <= #[trigger] spec_touched_pages(
                chars,
                k,
            )[b] < 256,
        spec_touched_pages(chars, k).no_duplicates(),
    decreases k,
{
    if k > 0 {
        lemma_touched_pages_wf(chars, k - 1);
        let rest = spec_touched_pages(chars, k - 1);
        let p = spec_page_of(chars[k - 1]);
        assert(0 <= p < 256);
        if !rest.contains(p) {
            assert forall|b1: int, b2: int|
                0 <= b1 < b2 < rest.push(p).len() implies rest.push(p)[b1] != rest.push(p)[b2] by {
                if b2 == rest.len() as int {
                    assert(rest[b1] == rest.push(p)[b1]);
                }
            }
        }
    }
}

/// Every character's page appears in the touched-page list.
proof fn lemma_touched_contains(chars: Seq<char>, k: int, n: int)
    requires
        0 <= k < n <= chars.len(),
    ensures
        spec_touched_pages(chars, n).contains(spec_page_of(chars[k])),
    decreases n,
{
    let p = spec_page_of(chars[k]);
    if k == n - 1 {
        let rest = spec_touched_pages(chars, n - 1);
        if rest.contains(p) {
            assert(spec_touched_pages(chars, n) == rest);
        } else {
            assert(spec_touched_pages(chars, n)[rest.len() as int] == p);
        }
    } else {
        lemma_touched_contains(chars, k, n - 1);
        let rest = spec_touched_pages(chars, n - 1);
        let q = spec_page_of(chars[n - 1]);
        let w = choose|w: int| 0 <= w < rest.len() && rest[w] == p;
        if !rest.contains(q) {
            assert(rest.push(q)[w] == p);
        }
    }
}

/// The geometry of a page's batch grows four positions, four texel pairs and
/// six indices per counted glyph.
proof fn lemma_geometry_lens(
    chars: Seq<char>,
    atlas: Atlas,
    size_px: int,
    kerns: Seq<i32>,
    origin: Point2,
    p: int,
    k: int,
)
    requires
        0 <= k <= chars.len(),
    ensures
        0 <= spec_count_for_page(chars, atlas, p, k) <= k,
        spec_positions_for_page(chars, atlas, size_px, kerns, origin, p, k).len() == 4
            * spec_count_for_page(chars, atlas, p, k),
        spec_texcoords_for_page(chars, atlas, p, k).len() == 4 * spec_count_for_page(
            chars,
            atlas,
            p,
            k,
        ),
        spec_indices_for_page(chars, atlas, p, k).len() == 6 * spec_count_for_page(
            chars,
            atlas,
            p,
            k,
        ),
    decreases k,
{
    if k > 0 {
        lemma_geometry_lens(chars, atlas, size_px, kerns, origin, p, k - 1);
    }
}

/// One batch of the first layout scan: the right page, texture and texture
/// size, with no geometry yet.
spec fn spec_batch_init_ok(
    chars: Seq<char>,
    atlas: Atlas,
    k: int,
    batches: Seq<TextGpuData>,
    b: int,
) -> bool {
    let p = spec_touched_pages(chars, k)[b];
    &&& batches[b].unicode_page as int == p
    &&& batches[b].texture == (Texture { id: (p + 1) as u32 })
    &&& batches[b].tex_size == (Vector2I {
        x: atlas.spec_page(p).width,
        y: atlas.spec_page(p).height,
    })
    &&& batches[b].positions@.len() == 0
    &&& batches[b].tex_coords@.len() == 0
    &&& batches[b].indices@.len() == 0
}

/// Batch `b` of a layout over the first `k` of `n` characters: it belongs
/// to touched page `b`, carries that page's texture and size, and holds
/// exactly the geometry that those `k` characters contribute to the page.
pub open spec fn spec_batch_geom_ok(
    chars: Seq<char>,
    atlas: Atlas,
    size_px: int,
    kerns: Seq<i32>,
    origin: Point2,
    n: int,
    k: int,
    batches: Seq<TextGpuData>,
    b: int,
) -> bool {
    let p = spec_touched_pages(chars, n)[b];
    &&& batches[b].unicode_page as int == p
    &&& batches[b].texture == (Texture { id: (p + 1) as u32 })
    &&& batches[b].tex_size == (Vector2I {
        x: atlas.spec_page(p).width,
        y: atlas.spec_page(p).height,
    })
    &&& batches[b].positions@ == spec_positions_for_page(
        chars,
        atlas,
        size_px,
        kerns,
        origin,
        p,
        k,
    )
    &&& batches[b].tex_coords@ == spec_texcoords_for_page(chars, atlas, p, k)
    &&& batches[b].indices@ == spec_indices_for_page(chars, atlas, p, k)
}

/// The position of the batch whose page is `page`, scanning front to back.
fn find_batch(batches: &Vec<TextGpuData>, page: u32) -> (r: Option<usize>)
    ensures
        r matches Some(i) ==> i < batches@.len() && batches@[i as int].unicode_page == page,
        r is None ==> forall|j: int|
            0 <= j < batches@.len() ==> (#[trigger] batches@[j]).unicode_page != page,
{
    let mut i: usize = 0;
    while i < batches.len()
        invariant
            i <= batches@.len(),
            forall|j: int| 0 <= j < i ==> (#[trigger] batches@[j]).unicode_page != page,
        decreases batches@.len() - i,
    {
        if batches[i].unicode_page == page {
            return Some(i);
        }
        i = i + 1;
    }
    None
}


/// Lays out a sequence of characters as per-page batches of textured glyph
/// quads, starting from the given pen origin.
///
/// Every page touched by the text must already be loaded in the atlas.  The
/// caller supplies one kerning adjustment (in whole pixels) per character -
/// the pair adjustment between it and its predecessor - and layout applies
/// each one only between adjacent renderable glyphs (see [`spec_kern_gate`]):
/// kerning never
/// crosses a space or other unrenderable character, which resets the pair.
/// The pen advances per [`spec_advance_x`]; its y coordinate never changes.
/// The first layout scan: one empty batch per distinct page of the text, in
/// order of first occurrence, each given its page's texture and size.
#[verifier::loop_isolation(false)]
fn build_page_batches(chars: &[char], atlas: &Atlas) -> (batches: Vec<TextGpuData>)
    requires
        atlas.wf(),
        forall|i: int| 0 <= i < chars@.len() ==> (#[trigger] chars@[i] as u32) < 65536,
        forall|i: int|
            0 <= i < chars@.len() ==> atlas.page_loaded(spec_page_of(#[trigger] chars@[i])),
    ensures
        batches@.len() == spec_touched_pages(chars@, chars@.len() as int).len(),
        forall|b: int|
            0 <= b < batches@.len() ==> spec_batch_init_ok(
                chars@,
                *atlas,
                chars@.len() as int,
                batches@,
                b,
            ),
{
    let ghost cs = chars@;
    let ghost at = *atlas;
    let n = chars.len();
    let mut batches: Vec<TextGpuData> = Vec::new();
    let mut k: usize = 0;
    while k < n
        invariant
            k <= n,
            batches@.len() == spec_touched_pages(cs, k as int).len(),
            forall|b: int|
                0 <= b < batches@.len() ==> spec_batch_init_ok(cs, at, k as int, batches@, b),
        decreases n - k,
    {
        let ghost pre = batches@;
        let c = chars[k];
        let page: u32 = (c as u32) / 256;
        proof {
            assert((chars@[k as int] as u32) < 65536);
            assert(spec_page_of(cs[k as int]) == page as int);
        }
        match find_batch(&batches, page) {
            Some(i) => {
                proof {
                    assert(spec_batch_init_ok(cs, at, k as int, batches@, i as int));
                    assert(spec_touched_pages(cs, k as int).contains(page as int)) by {
                        assert(spec_touched_pages(cs, k as int)[i as int] == page as int);
                    }
                }
            },
            None => {
                proof {
                    if spec_touched_pages(cs, k as int).contains(page as int) {
                        let b = choose|b: int|
                            0 <= b < spec_touched_pages(cs, k as int).len()
                                && spec_touched_pages(cs, k as int)[b] == page as int;
                        assert(spec_batch_init_ok(cs, at, k as int, batches@, b));
                        assert(batches@[b].unicode_page == page);
                        assert(false);
                    }
                    assert(at.page_loaded(page as int));
                }
                let mut d = TextGpuData::new(page);
                match &atlas.pages[page as usize] {
                    Some(pg) => {
                        d.texture = pg.texture;
                        d.tex_size = Vector2I { x: pg.width, y: pg.height };
                    },
                    None => {
                        vstd::pervasive::unreached::<()>();
                    },
                }
                batches.push(d);
            },
        }
        proof {
            let k1 = k as int + 1;
            let tk = spec_touched_pages(cs, k as int);
            assert forall|b: int| 0 <= b < batches@.len() implies spec_batch_init_ok(
                cs,
                at,
                k1,
                batches@,
                b,
            ) by {
                if b < tk.len() {
                    assert(spec_batch_init_ok(cs, at, k as int, pre, b));
                    assert(batches@[b] == pre[b]);
                } else {
                    assert(spec_touched_pages(cs, k1)[b] == page as int);
                }
            }
        }
        k = k + 1;
    }
    batches
}

#[verifier::loop_isolation(false)]
#[verifier::rlimit(60)]
pub fn layout(
    chars: &[char],
    position: Point2,
    atlas: &Atlas,
    size_px: u32,
    kerns: &[i32],
) -> (batches: Vec<TextGpuData>)
    requires
        atlas.wf(),
        size_px <= 1048576,
        chars@.len() <= MAX_TEXT_CHARS,
        kerns@.len() == chars@.len(),
        forall|i: int| 0 <= i < chars@.len() ==> (#[trigger] chars@[i] as u32) < 65536,
        forall|i: int|
            0 <= i < chars@.len() ==> atlas.page_loaded(spec_page_of(#[trigger] chars@[i])),
        forall|i: int| 0 <= i < kerns@.len() ==> -0x200_0000 <= #[trigger] kerns@[i] <= 0x200_0000,
        -MAX_PEN_ORIGIN <= position.x <= MAX_PEN_ORIGIN,
        -MAX_PEN_ORIGIN <= position.y <= MAX_PEN_ORIGIN,
    ensures
        spec_batches_ok(chars@, *atlas, size_px as int, kerns@, position, batches@),
{
    let ghost cs = chars@;
    let ghost at = *atlas;
    let n = chars.len();
    let mut batches: Vec<TextGpuData> = build_page_batches(chars, atlas);

    proof {
        assert forall|b: int| 0 <= b < batches@.len() implies spec_batch_geom_ok(
            cs,
            at,
            size_px as int,
            kerns@,
            position,
            n as int,
            0,
            batches@,
            b,
        ) by {
            assert(spec_batch_init_ok(cs, at, n as int, batches@, b));
            assert(batches@[b].positions@ =~= Seq::<Point2>::empty());
            assert(batches@[b].tex_coords@ =~= Seq::<Vector2I>::empty());
            assert(batches@[b].indices@ =~= Seq::<u32>::empty());
        }
    }

    // Second scan: walk the text with the pen cursor, appending one quad per
    // renderable character to its page's batch.
    let mut pen_x: i64 = position.x;
    let mut last_rend: bool = false;
    let mut k: usize = 0;
    while k < n
        invariant
            k <= n,
            batches@.len() == spec_touched_pages(cs, n as int).len(),
            forall|b: int|
                0 <= b < batches@.len() ==> spec_batch_geom_ok(
                    cs,
                    at,
                    size_px as int,
                    kerns@,
                    position,
                    n as int,
                    k as int,
                    batches@,
                    b,
                ),
            pen_x == spec_pen_x(cs, at, size_px as int, kerns@, position.x as int, k as int),
            last_rend == (k >= 1 && spec_rend(at, cs[k as int - 1])),
        decreases n - k,
    {
        let c = chars[k];
        proof {
            assert((chars@[k as int] as u32) < 65536);
            lemma_pen_bounds(cs, at, size_px as int, kerns@, position.x as int, k as int);
            lemma_advance_bound(cs, at, size_px as int, kerns@, k as int);
        }
        match atlas.glyph(c) {
            Some(g) => {
                let uv = match atlas.tex_coords(c) {
                    Some(u) => u,
                    None => vstd::pervasive::unreached(),
                };
                let page: u32 = (c as u32) / 256;
                proof {
                    assert(spec_page_of(cs[k as int]) == page as int);
                }
                let bi = match find_batch(&batches, page) {
                    Some(i) => i,
                    None => {
                        proof {
                            lemma_touched_contains(cs, k as int, n as int);
                            let b = choose|b: int|
                                0 <= b < spec_touched_pages(cs, n as int).len()
                                    && spec_touched_pages(cs, n as int)[b] == page as int;
                            assert(spec_batch_geom_ok(
                                cs,
                                at,
                                size_px as int,
                                kerns@,
                                position,
                                n as int,
                                k as int,
                                batches@,
                                b,
                            ));
                            assert(batches@[b].unicode_page == page);
                        }
                        vstd::pervasive::unreached()
                    },
                };
                let ghost old_batches = batches@;
                proof {
                    lemma_touched_pages_wf(cs, n as int);
                    lemma_geometry_lens(
                        cs,
                        at,
                        size_px as int,
                        kerns@,
                        position,
                        page as int,
                        k as int,
                    );
                    assert(spec_batch_geom_ok(
                        cs,
                        at,
                        size_px as int,
                        kerns@,
                        position,
                        n as int,
                        k as int,
                        batches@,
                        bi as int,
                    ));
                    assert(spec_touched_pages(cs, n as int)[bi as int] == page as int);
                    assert(at.page_loaded(page as int));
                    assert(at.spec_page(page as int).wf());
                    assert(at.spec_page(page as int).spec_glyph_ok((c as u32) as int % 256));
                }
                let bx = to_px_i32(g.horizontal_bearing.x);
                let by = to_px_i32(g.horizontal_bearing.y);
                let gw = to_px_i32(g.width());
                let gh = to_px_i32(g.height());
                let tlx: i64 = pen_x + 3 * (bx as i64);
                let tly: i64 = position.y - 3 * (by as i64);
                let w3: i64 = 3 * (gw as i64);
                let h3: i64 = 3 * (gh as i64);
                let batch = &mut batches[bi];
                let base: u32 = batch.positions.len() as u32;
                batch.indices.push(base);
                batch.indices.push(base + 1);
                batch.indices.push(base + 3);
                batch.indices.push(base + 3);
                batch.indices.push(base + 1);
                batch.indices.push(base + 2);
                batch.positions.push(Point2 { x: tlx, y: tly });
                batch.positions.push(Point2 { x: tlx + w3, y: tly });
                batch.positions.push(Point2 { x: tlx + w3, y: tly + h3 });
                batch.positions.push(Point2 { x: tlx, y: tly + h3 });
                batch.tex_coords.push(uv.min);
                batch.tex_coords.push(Vector2I { x: uv.max.x, y: uv.min.y });
                batch.tex_coords.push(uv.max);
                batch.tex_coords.push(Vector2I { x: uv.min.x, y: uv.max.y });
                proof {
                    let k1 = k as int + 1;
                    assert(batches@ == old_batches.update(bi as int, batches@[bi as int]));
                    assert(batches@[bi as int].positions@ =~= spec_positions_for_page(
                        cs,
                        at,
                        size_px as int,
                        kerns@,
                        position,
                        page as int,
                        k as int + 1,
                    ));
                    assert(batches@[bi as int].tex_coords@ =~= spec_texcoords_for_page(
                        cs,
                        at,
                        page as int,
                        k as int + 1,
                    ));
                    assert(batches@[bi as int].indices@ =~= spec_indices_for_page(
                        cs,
                        at,
                        page as int,
                        k as int + 1,
                    ));
                    assert forall|b: int| 0 <= b < batches@.len() implies spec_batch_geom_ok(
                        cs,
                        at,
                        size_px as int,
                        kerns@,
                        position,
                        n as int,
                        k1,
                        batches@,
                        b,
                    ) by {
                        if b != bi as int {
                            assert(spec_batch_geom_ok(
                                cs,
                                at,
                                size_px as int,
                                kerns@,
                                position,
                                n as int,
                                k as int,
                                old_batches,
                                b,
                            ));
                            assert(spec_touched_pages(cs, n as int)[b] != page as int);
                            assert(batches@[b] == old_batches[b]);
                        }
                    }
                }
                let adv = to_px_i32(g.horizontal_advance);
                pen_x = pen_x + 3 * (adv as i64);
                if last_rend {
                    pen_x = pen_x + 3 * (kerns[k] as i64);
                }
                last_rend = true;
            },
            None => {
                proof {
                    let k1 = k as int + 1;
                    assert forall|b: int| 0 <= b < batches@.len() implies spec_batch_geom_ok(
                        cs,
                        at,
                        size_px as int,
                        kerns@,
                        position,
                        n as int,
                        k1,
                        batches@,
                        b,
                    ) by {
                        assert(spec_batch_geom_ok(
                            cs,
                            at,
                            size_px as int,
                            kerns@,
                            position,
                            n as int,
                            k as int,
                            batches@,
                            b,
                        ));
                    }
                }
                if c == ' ' {
                    pen_x = pen_x + (size_px as i64);
                }
                last_rend = false;
            },
        }
        k = k + 1;
    }
    batches
}


/// Whether `kerns` is a valid kerning assignment under which `batches` is
/// exactly the layout of `chars`: one bounded whole-pixel adjustment per
/// character.
pub open spec fn spec_layout_with_kerns(
    chars: Seq<char>,
    atlas: Atlas,
    size_px: int,
    origin: Point2,
    batches: Seq<TextGpuData>,
    kerns: Seq<i32>,
) -> bool {
    &&& kerns.len() == chars.len()
    &&& (forall|i: int| 0 <= i < kerns.len() ==> -0x200_0000 <= #[trigger] kerns[i] <= 0x200_0000)
    &&& spec_batches_ok(chars, atlas, size_px, kerns, origin, batches)
}

/// Whether `batches` is the layout of `chars` over the given atlas under
/// some bounded per-character kerning assignment.
pub open spec fn spec_laid_out(
    chars: Seq<char>,
    atlas: Atlas,
    size_px: int,
    origin: Point2,
    batches: Seq<TextGpuData>,
) -> bool {
    exists|kerns: Seq<i32>|
        #[trigger] spec_layout_with_kerns(chars, atlas, size_px, origin, batches, kerns)
}

/// Laid-out text: one GPU-ready batch per atlas page touched by the string.
pub struct Text {
    pub gpu_data: Vec<TextGpuData>,
}

impl Text {
    /// Lays out a string at a pen origin, loading any missing atlas pages
    /// through the font and querying it for kerning.
    ///
    /// The batches are described exactly by [`spec_batches_ok`], for some
    /// per-character kerning inputs obtained from the font.  Fails only when
    /// a page load aborts with `RegionOverflow`; the font's queued GPU
    /// commands then cover every page the text needed.
    #[verifier::loop_isolation(false)]
    pub fn new(s: &[char], position: Point2, font: &mut Font) -> (r: Result<Text, FontError>)
        requires
            old(font).wf(),
            s@.len() <= MAX_TEXT_CHARS,
            forall|i: int| 0 <= i < s@.len() ==> (#[trigger] s@[i] as u32) < 65536,
            -MAX_PEN_ORIGIN <= position.x <= MAX_PEN_ORIGIN,
            -MAX_PEN_ORIGIN <= position.y <= MAX_PEN_ORIGIN,
        ensures
            final(font).wf(),
            final(font).face == old(font).face,
            r matches Err(e) ==> e == FontError::RegionOverflow,
            (forall|i: int|
                0 <= i < s@.len() ==> old(font).atlas.page_loaded(spec_page_of(
                    #[trigger] s@[i],
                ))) ==> r is Ok,
            r matches Ok(t) ==> spec_laid_out(
                s@,
                final(font).atlas,
                old(font).face.size_px as int,
                position,
                t.gpu_data@,
            ),
    {
        let n = s.len();

        // Make sure every touched page is loaded (repeat loads are no-ops).
        let mut k: usize = 0;
        while k < n
            invariant
                k <= n,
                font.wf(),
                font.face == old(font).face,
                forall|i: int|
                    0 <= i < k ==> font.atlas.page_loaded(spec_page_of(#[trigger] s@[i])),
                forall|q: int|
                    old(font).atlas.page_loaded(q) ==> #[trigger] font.atlas.page_loaded(q),
            decreases n - k,
        {
            let c = s[k];
            let page: u32 = (c as u32) / 256;
            proof {
                assert((s@[k as int] as u32) < 65536);
                assert(spec_page_of(s@[k as int]) == page as int);
            }
            match font.load_page(page) {
                Ok(_) => {},
                Err(e) => {
                    return Err(e);
                },
            }
            k = k + 1;
        }

        // Resolve the kerning of each adjacent renderable pair; a missing
        // pair counts as zero.  Pairs broken by an unrenderable character
        // are never queried, matching how layout applies them.
        let mut kerns: Vec<i32> = Vec::new();
        let mut k: usize = 0;
        while k < n
            invariant
                k <= n,
                font.wf(),
                font.face == old(font).face,
                kerns@.len() == k,
                forall|i: int|
                    0 <= i < s@.len() ==> font.atlas.page_loaded(spec_page_of(#[trigger] s@[i])),
                forall|i: int| 0 <= i < k ==> -0x200_0000 <= #[trigger] kerns@[i] <= 0x200_0000,
            decreases n - k,
        {
            proof {
                assert((s@[k as int] as u32) < 65536);
            }
            let mut adjust: i32 = 0;
            if k >= 1 {
                proof {
                    assert((s@[k as int - 1] as u32) < 65536);
                }
                let prev = s[k - 1];
                let cur = s[k];
                if font.glyph(prev).is_some() && font.glyph(cur).is_some() {
                    match font.kerning(prev, cur) {
                        Ok(v) => {
                            adjust = to_px_i32(v.x);
                        },
                        Err(_) => {},
                    }
                }
            }
            kerns.push(adjust);
            k = k + 1;
        }

        let batches = layout(s, position, &font.atlas, font.face.size_px, &kerns);
        let t = Text { gpu_data: batches };
        proof {
            assert(spec_layout_with_kerns(
                s@,
                font.atlas,
                old(font).face.size_px as int,
                position,
                t.gpu_data@,
                kerns@,
            ));
            assert(spec_laid_out(
                s@,
                font.atlas,
                old(font).face.size_px as int,
                position,
                t.gpu_data@,
            ));
        }
        Ok(t)
    }

    /// The laid-out batches.
    pub fn batches(&self) -> (r: &Vec<TextGpuData>)
        ensures
            r == &self.gpu_data,
    {
        &self.gpu_data
    }

    /// The GPU commands that draw this text through the given shader: for
    /// each batch in order, bind its page texture, then draw its triangles,
    /// so that executing the stream front to back renders the glyph
    /// sequence left to right.
    pub fn draw(&self, shader: &mut TextShader) -> (cmds: Vec<Command>)
        ensures
            *final(shader) == *old(shader),
            cmds@ == old(shader).spec_draw_cmds(self.gpu_data@, self.gpu_data@.len() as int),
    {
        let mut cmds: Vec<Command> = Vec::new();
        let n = self.gpu_data.len();
        let mut b: usize = 0;
        while b < n
            invariant
                b <= n,
                n == self.gpu_data@.len(),
                *shader == *old(shader),
                cmds@ == old(shader).spec_draw_cmds(self.gpu_data@, b as int),
            decreases n - b,
        {
            let mut step = self.gpu_data[b].draw(shader, b);
            cmds.append(&mut step);
            proof {
                assert(cmds@ =~= old(shader).spec_draw_cmds(self.gpu_data@, b as int + 1));
            }
            b = b + 1;
        }
        cmds
    }
}

/// The text shading program's handles: the program itself and the uniforms
/// for the glyph texture and the screen size, as obtained from the rendering
/// backend by the caller.  Methods describe the GPU work they require as
/// command streams.
pub struct TextShader {
    pub program: u32,
    pub texture_uniform: Uniform,
    pub screen_size_uniform: Uniform,
}

impl TextShader {
    pub fn new(program: u32, texture_uniform: Uniform, screen_size_uniform: Uniform) -> (s:
        TextShader)
        ensures
            s == (TextShader { program, texture_uniform, screen_size_uniform }),
    {
        TextShader { program, texture_uniform, screen_size_uniform }
    }

    /// The commands that bind a glyph texture for this program: make the
    /// program current, bind the texture to unit 0, and point the texture
    /// uniform at that unit.
    pub open spec fn spec_set_texture_cmds(self, texture: Texture) -> Seq<Command> {
        seq![
            Command::UseProgram { program: self.program },
            Command::BindTexture { unit: 0, texture },
            Command::SetUniformInt { uniform: self.texture_uniform, value: 0 },
        ]
    }

    /// The commands that draw the batches before `k`: each batch binds its
    /// texture, then draws its triangles, in batch order.
    pub open spec fn spec_draw_cmds(self, batches: Seq<TextGpuData>, k: int) -> Seq<Command>
        decreases k,
    {
        if k <= 0 {
            Seq::<Command>::empty()
        } else {
            self.spec_draw_cmds(batches, k - 1) + self.spec_set_texture_cmds(
                batches[k - 1].texture,
            ).push(
                Command::DrawBatch {
                    batch: (k - 1) as usize,
                    n_indices: batches[k - 1].indices@.len() as usize,
                },
            )
        }
    }

    /// Binds one glyph texture for drawing.
    pub fn set_texture(&mut self, texture: Texture) -> (cmds: Vec<Command>)
        ensures
            *final(self) == *old(self),
            cmds@ == old(self).spec_set_texture_cmds(texture),
    {
        let mut cmds: Vec<Command> = Vec::new();
        cmds.push(Command::UseProgram { program: self.program });
        cmds.push(Command::BindTexture { unit: 0, texture });
        cmds.push(Command::SetUniformInt { uniform: self.texture_uniform, value: 0 });
        proof {
            assert(cmds@ =~= old(self).spec_set_texture_cmds(texture));
        }
        cmds
    }

    /// Sets the screen-size uniform from a size in whole pixels.
    pub fn set_screen_size(&mut self, width: u32, height: u32) -> (cmds: Vec<Command>)
        ensures
            *final(self) == *old(self),
            cmds@ =~= seq![
                Command::UseProgram { program: old(self).program },
                Command::SetUniformSize {
                    uniform: old(self).screen_size_uniform,
                    width,
                    height,
                },
            ],
    {
        let mut cmds: Vec<Command> = Vec::new();
        cmds.push(Command::UseProgram { program: self.program });
        cmds.push(
            Command::SetUniformSize { uniform: self.screen_size_uniform, width, height },
        );
        cmds
    }

    /// Draws a text: makes the program current, then emits the text's own
    /// draw stream (each batch's texture bind followed by its triangles).
    pub fn draw(&mut self, text: &Text) -> (cmds: Vec<Command>)
        ensures
            *final(self) == *old(self),
            cmds@ == seq![Command::UseProgram { program: old(self).program }] + old(
                self,
            ).spec_draw_cmds(text.gpu_data@, text.gpu_data@.len() as int),
    {
        let mut cmds: Vec<Command> = Vec::new();
        cmds.push(Command::UseProgram { program: self.program });
        let mut rest = text.draw(self);
        cmds.append(&mut rest);
        proof {
            assert(cmds@ =~= seq![Command::UseProgram { program: old(self).program }] + old(
                self,
            ).spec_draw_cmds(text.gpu_data@, text.gpu_data@.len() as int));
        }
        cmds
    }
}


/// Both pens agree when the kerning inputs agree on every applicable pair.
proof fn lemma_pen_kern_agree(
    chars: Seq<char>,
    atlas: Atlas,
    size_px: int,
    kerns1: Seq<i32>,
    kerns2: Seq<i32>,
    origin_x: int,
    k: int,
)
    requires
        0 <= k <= chars.len(),
        kerns1.len() == chars.len(),
        kerns2.len() == chars.len(),
        forall|i: int|
            0 <= i < chars.len() && #[trigger] spec_kern_gate(chars, atlas, i) ==> kerns1[i]
                == kerns2[i],
    ensures
        spec_pen_x(chars, atlas, size_px, kerns1, origin_x, k) == spec_pen_x(
            chars,
            atlas,
            size_px,
            kerns2,
            origin_x,
            k,
        ),
    decreases k,
{
    if k > 0 {
        lemma_pen_kern_agree(chars, atlas, size_px, kerns1, kerns2, origin_x, k - 1);
        assert(spec_kern_gate(chars, atlas, k - 1) ==> kerns1[k - 1] == kerns2[k - 1]);
    }
}

/// Kerning-reset law: kerning never spans an unrenderable code point.  Two
/// kerning assignments that agree on every applicable pair (see
/// [`spec_kern_gate`]) yield the same pen positions and the same quad
/// geometry for every page — an adjustment attached to a pair that is broken
/// by a space or an unmapped character has no effect on the layout.
pub proof fn lemma_kerning_reset(
    chars: Seq<char>,
    atlas: Atlas,
    size_px: int,
    kerns1: Seq<i32>,
    kerns2: Seq<i32>,
    origin: Point2,
    p: int,
    k: int,
)
    requires
        0 <= k <= chars.len(),
        kerns1.len() == chars.len(),
        kerns2.len() == chars.len(),
        forall|i: int|
            0 <= i < chars.len() && #[trigger] spec_kern_gate(chars, atlas, i) ==> kerns1[i]
                == kerns2[i],
    ensures
        spec_pen_x(chars, atlas, size_px, kerns1, origin.x as int, k) == spec_pen_x(
            chars,
            atlas,
            size_px,
            kerns2,
            origin.x as int,
            k,
        ),
        spec_positions_for_page(chars, atlas, size_px, kerns1, origin, p, k)
            == spec_positions_for_page(chars, atlas, size_px, kerns2, origin, p, k),
    decreases k,
{
    lemma_pen_kern_agree(chars, atlas, size_px, kerns1, kerns2, origin.x as int, k);
    if k > 0 {
        lemma_kerning_reset(chars, atlas, size_px, kerns1, kerns2, origin, p, k - 1);
    }
}

/// Pen-advance monotonicity: over a text of only renderable glyphs with
/// non-negative advances and non-negative kerning adjustments, the pen's x
/// coordinate never decreases.  (A negative kerning pair — common in real
/// fonts — may legitimately move the pen backward, so such pairs are
/// excluded.)
pub proof fn lemma_pen_monotonic(
    chars: Seq<char>,
    atlas: Atlas,
    size_px: int,
    kerns: Seq<i32>,
    origin_x: int,
    i: int,
    j: int,
)
    requires
        0 <= i <= j <= chars.len(),
        kerns.len() == chars.len(),
        0 <= size_px,
        forall|k: int| 0 <= k < chars.len() ==> spec_rend(atlas, #[trigger] chars[k]),
        forall|k: int|
            0 <= k < chars.len() ==> spec_glyph_of(atlas, #[trigger] chars[k]).horizontal_advance
                >= 0,
        forall|k: int| 0 <= k < kerns.len() ==> #[trigger] kerns[k] >= 0,
    ensures
        spec_pen_x(chars, atlas, size_px, kerns, origin_x, i) <= spec_pen_x(
            chars,
            atlas,
            size_px,
            kerns,
            origin_x,
            j,
        ),
    decreases j,
{
    if i < j {
        lemma_pen_monotonic(chars, atlas, size_px, kerns, origin_x, i, j - 1);
        assert(spec_rend(atlas, chars[j - 1]));
        assert(spec_glyph_of(atlas, chars[j - 1]).horizontal_advance >= 0);
        assert(spec_floor_px(spec_glyph_of(atlas, chars[j - 1]).horizontal_advance as int) >= 0);
    }
}

} // verus!
