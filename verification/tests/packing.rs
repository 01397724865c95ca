use rugl::atlas::{extract_rows, Atlas, AtlasPage};
use rugl::face::GlyphMetrics;
use rugl::fixed_26_6::{ceil_to_i32, to_px_i32};
use rugl::gpu::{Command, Texture};

fn metrics(width_px: i32, height_px: i32, advance_px: i32) -> GlyphMetrics {
    GlyphMetrics {
        width: width_px * 64,
        height: height_px * 64,
        hori_bearing_x: 0,
        hori_bearing_y: height_px * 64,
        hori_advance: advance_px * 64,
        vert_bearing_x: 0,
        vert_bearing_y: 0,
        vert_advance: height_px * 64,
    }
}

/// A page-0 measurement table: glyphs only for slots 0x20..=0x7E, each
/// measuring 10x12 px.
fn mono_measures() -> Vec<Option<GlyphMetrics>> {
    let mut ms: Vec<Option<GlyphMetrics>> = Vec::new();
    for slot in 0..256u32 {
        if (0x20..=0x7E).contains(&slot) {
            ms.push(Some(metrics(10, 12, 11)));
        } else {
            ms.push(None);
        }
    }
    ms
}

#[test]
fn ceil_rounds_fractions_up() {
    assert_eq!(ceil_to_i32(0), 0);
    assert_eq!(ceil_to_i32(1), 1);
    assert_eq!(ceil_to_i32(63), 1);
    assert_eq!(ceil_to_i32(64), 1);
    assert_eq!(ceil_to_i32(65), 2);
    assert_eq!(ceil_to_i32(10 * 64), 10);
    assert_eq!(ceil_to_i32(-1), 0);
    assert_eq!(ceil_to_i32(-64), -1);
    assert_eq!(ceil_to_i32(-65), -1);
    assert_eq!(ceil_to_i32(-128), -2);
    assert_eq!(ceil_to_i32(i32::MAX), 0x200_0000);
    assert_eq!(ceil_to_i32(i32::MIN), -0x200_0000);
}

#[test]
fn to_px_discards_fraction_toward_lower() {
    assert_eq!(to_px_i32(0), 0);
    assert_eq!(to_px_i32(63), 0);
    assert_eq!(to_px_i32(64), 1);
    assert_eq!(to_px_i32(127), 1);
    assert_eq!(to_px_i32(-1), -1);
    assert_eq!(to_px_i32(-64), -1);
    assert_eq!(to_px_i32(-65), -2);
    assert_eq!(to_px_i32(i32::MIN), -0x200_0000);
}

#[test]
fn monospace_page_packs_to_expected_size() {
    let page = AtlasPage::pack(&mono_measures(), Texture { id: 1 });
    // 95 glyphs, each 10 px wide plus a one-pixel gap.
    assert_eq!(page.width, 95 * 11);
    assert_eq!(page.width, 1045);
    // One shelf row: tallest slot plus the one-pixel gap.
    assert_eq!(page.height, 13);
    assert_eq!(page.texture, Texture { id: 1 });
    // Slots are placed left to right in slot order.
    let a = page.glyphs[0x20].unwrap();
    assert_eq!(a.tex_coords.min.x, 0);
    assert_eq!(a.tex_coords.max.x, 10);
    let b = page.glyphs[0x21].unwrap();
    assert_eq!(b.tex_coords.min.x, 11);
    assert_eq!(b.tex_coords.max.x, 21);
    assert!(page.glyphs[0x1F].is_none());
    assert!(page.glyphs[0x7F].is_none());
}

#[test]
fn packed_regions_never_overlap() {
    let page = AtlasPage::pack(&mono_measures(), Texture { id: 1 });
    let regions: Vec<_> = page.glyphs.iter().flatten().map(|g| g.tex_coords).collect();
    for (i, a) in regions.iter().enumerate() {
        // Within [0, width) x [0, height).
        assert!(a.min.x >= 0 && a.min.y >= 0);
        assert!(a.max.x <= page.width && a.max.y <= page.height);
        for b in regions.iter().skip(i + 1) {
            let disjoint = a.max.x <= b.min.x || b.max.x <= a.min.x || a.max.y <= b.min.y
                || b.max.y <= a.min.y;
            assert!(disjoint);
        }
    }
}

#[test]
fn unusable_measurements_are_skipped() {
    let mut ms: Vec<Option<GlyphMetrics>> = vec![None; 256];
    ms[0x41] = Some(metrics(10, 12, 11));
    ms[0x42] = Some(GlyphMetrics { width: -5, ..metrics(10, 12, 11) });
    ms[0x43] = Some(metrics(7, 3, 8));
    let page = AtlasPage::pack(&ms, Texture { id: 9 });
    assert!(page.glyphs[0x41].is_some());
    assert!(page.glyphs[0x42].is_none());
    assert!(page.glyphs[0x43].is_some());
    // The skipped slot contributes no width.
    assert_eq!(page.width, 11 + 8);
    assert_eq!(page.height, 13);
}

#[test]
fn empty_page_has_zero_extent() {
    let ms: Vec<Option<GlyphMetrics>> = vec![None; 256];
    let page = AtlasPage::pack(&ms, Texture { id: 3 });
    assert_eq!(page.width, 0);
    assert_eq!(page.height, 0);
}

#[test]
fn glyph_getters_return_fixed_point_size() {
    let ms = mono_measures();
    let page = AtlasPage::pack(&ms, Texture { id: 1 });
    let g = page.glyphs[0x20].unwrap();
    assert_eq!(g.width(), 10 * 64);
    assert_eq!(g.height(), 12 * 64);
}

#[test]
fn extract_rows_honors_stride() {
    let data: Vec<u8> = vec![
        1, 2, 3, 91, 92, // row 0: width 3, padding 2
        4, 5, 6, 93, 94, // row 1
    ];
    let out = extract_rows(&data, 3, 2, 5);
    assert_eq!(out, vec![1, 2, 3, 4, 5, 6]);
}

#[test]
fn page_load_is_idempotent() {
    let mut atlas = Atlas::new();
    let cmds = atlas.load_page_from_measures(0, &mono_measures());
    assert_eq!(cmds.len(), 1);
    match &cmds[0] {
        Command::CreateTexture { texture, width, height } => {
            assert_eq!(*texture, Texture { id: 1 });
            assert_eq!(*width, 1045);
            assert_eq!(*height, 13);
        },
        _ => panic!("expected a texture allocation"),
    }
    let t0 = atlas.texture(0);
    let g0 = atlas.glyph('A');
    // A second load changes nothing and requests no GPU work.
    let again = atlas.load_page_from_measures(0, &mono_measures());
    assert!(again.is_empty());
    assert_eq!(atlas.texture(0), t0);
    assert_eq!(atlas.glyph('A'), g0);
}

#[test]
fn pages_load_independently_with_distinct_textures() {
    let mut atlas = Atlas::new();
    let c0 = atlas.load_page_from_measures(0, &mono_measures());
    let mut ms1: Vec<Option<GlyphMetrics>> = vec![None; 256];
    ms1[0x00] = Some(metrics(6, 9, 7));
    let c1 = atlas.load_page_from_measures(1, &ms1);
    assert_eq!(c0.len(), 1);
    assert_eq!(c1.len(), 1);
    let t0 = atlas.texture(0).unwrap();
    let t1 = atlas.texture(1).unwrap();
    assert_ne!(t0, t1);
    assert!(atlas.glyph('A').is_some());
    assert!(atlas.glyph('\u{100}').is_some());
    assert!(atlas.texture(2).is_none());
}

#[test]
fn tex_coords_are_normalizable() {
    let mut atlas = Atlas::new();
    atlas.load_page_from_measures(0, &mono_measures());
    for code in 0x20u32..=0x7E {
        let c = char::from_u32(code).unwrap();
        let uv = atlas.tex_coords(c).unwrap();
        // 0 <= min <= max <= size componentwise, sizes positive: the
        // normalized corners lie in [0, 1].
        assert!(uv.tex_size.x > 0 && uv.tex_size.y > 0);
        assert!(0 <= uv.min.x && uv.min.x <= uv.max.x && uv.max.x <= uv.tex_size.x);
        assert!(0 <= uv.min.y && uv.min.y <= uv.max.y && uv.max.y <= uv.tex_size.y);
    }
    assert!(atlas.tex_coords('\u{1}').is_none());
}
