use rugl::atlas::Atlas;
use rugl::error::FontError;
use rugl::fixed_26_6::ceil_to_i32;
use rugl::face::FontFace;
use rugl::font::Font;
use rugl::gpu::{Command, Texture};
use rugl::text::{Point2, Text};

const FONT_PATH: &str = "/usr/share/fonts/truetype/dejavu/DejaVuSans.ttf";

fn open_face(size_px: u32) -> FontFace {
    let lib = freetype::Library::init().unwrap();
    let ft_face = lib.new_face(FONT_PATH, 0).unwrap();
    FontFace::from_ft(ft_face, size_px).unwrap()
}

#[test]
fn measure_and_render_agree_with_reserved_regions() {
    // A real page load succeeds: every rendered bitmap fit inside the
    // region reserved for it by the measure pass, and every write stays
    // inside the allocated texture.
    let face = open_face(18);
    let mut atlas = Atlas::new();
    let cmds = atlas.load_page(0, &face).unwrap();
    assert!(cmds.len() > 1);
    let (w, h) = match &cmds[0] {
        Command::CreateTexture { texture, width, height } => {
            assert_eq!(*texture, Texture { id: 1 });
            assert!(*width > 0 && *height > 0);
            (*width, *height)
        },
        _ => panic!("the stream must start with the texture allocation"),
    };
    for cmd in &cmds[1..] {
        match cmd {
            Command::WriteTexture { texture, x, y, width, height, data } => {
                assert_eq!(*texture, Texture { id: 1 });
                assert!(*x >= 0 && *y >= 0 && *width >= 0 && *height >= 0);
                assert!(x + width <= w && y + height <= h);
                assert_eq!(data.len() as i64, *width as i64 * *height as i64);
            },
            _ => panic!("only region writes may follow the allocation"),
        }
    }
}

#[test]
fn rendered_glyph_fits_measured_ceiling() {
    let face = open_face(24);
    for c in ['A', 'g', 'W', '.'] {
        let m = face.measure(c).unwrap();
        let r = face.render_code(c as u32).unwrap();
        assert!(r.width <= ceil_to_i32(m.width));
        assert!(r.rows <= ceil_to_i32(m.height));
    }
}

#[test]
fn missing_coverage_reports_glyph_not_found() {
    let face = open_face(18);
    // A noncharacter code point is mapped by no font.
    assert_eq!(face.measure_code(0xFDD0), Err(FontError::GlyphNotFound));
    assert!(face.measure('A').is_ok());
}

#[test]
fn kerning_with_unmapped_character_reports_no_data() {
    let face = open_face(18);
    assert_eq!(face.kerning('\u{fdd0}', 'A'), Err(FontError::NoKerningData));
    assert_eq!(face.kerning('A', '\u{fdd1}'), Err(FontError::NoKerningData));
    // A mapped pair answers either with a vector or with the same
    // non-fatal error, which layout treats as zero adjustment.
    match face.kerning('A', 'V') {
        Ok(_) => {},
        Err(e) => assert_eq!(e, FontError::NoKerningData),
    }
}

#[test]
fn font_loads_page_zero_eagerly() {
    let mut font = Font::new(open_face(18)).unwrap();
    assert!(font.glyph('A').is_some());
    assert!(font.texture(0).is_some());
    assert_eq!(font.size_px(), 18);
    let cmds = font.take_commands();
    assert!(matches!(cmds[0], Command::CreateTexture { .. }));
    // Reloading queues nothing: the page is cached forever.
    font.load_page(0).unwrap();
    assert!(font.take_commands().is_empty());
}

#[test]
fn separate_pages_have_separate_textures() {
    let mut font = Font::new(open_face(18)).unwrap();
    font.load_page(1).unwrap();
    let t0 = font.texture(0).unwrap();
    let t1 = font.texture(1).unwrap();
    assert_ne!(t0, t1);
    // Both page tables are populated without disturbing each other.
    assert!(font.glyph('A').is_some());
    assert!(font.glyph('\u{100}').is_some());
}

#[test]
fn real_uv_rectangles_are_normalizable() {
    let mut font = Font::new(open_face(18)).unwrap();
    font.load_page(0).unwrap();
    for code in 0x20u32..0x7F {
        let c = char::from_u32(code).unwrap();
        if font.glyph(c).is_some() {
            let uv = font.tex_coords(c).unwrap();
            assert!(uv.tex_size.x > 0 && uv.tex_size.y > 0);
            assert!(0 <= uv.min.x && uv.min.x <= uv.max.x && uv.max.x <= uv.tex_size.x);
            assert!(0 <= uv.min.y && uv.min.y <= uv.max.y && uv.max.y <= uv.tex_size.y);
        }
    }
}

#[test]
fn text_layout_over_real_font() {
    let mut font = Font::new(open_face(18)).unwrap();
    let chars: Vec<char> = "Lorem ipsum dolor sit amet".chars().collect();
    let text = Text::new(&chars, Point2 { x: 90, y: 300 }, &mut font).unwrap();
    // Everything is ASCII: one batch, on page 0.
    assert_eq!(text.batches().len(), 1);
    let b = &text.batches()[0];
    assert_eq!(b.unicode_page, 0);
    assert_eq!(b.texture, font.texture(0).unwrap());
    // Four corners and six indices per rendered glyph, in lockstep.
    assert_eq!(b.positions.len() % 4, 0);
    assert_eq!(b.tex_coords.len(), b.positions.len());
    assert_eq!(b.indices.len() / 6, b.positions.len() / 4);
    assert!(!b.positions.is_empty());
    // The first glyph's quad starts at the origin plus its bearing; its
    // x coordinates never run backward for this plain text.
    let xs: Vec<i64> = b.positions.iter().step_by(4).map(|p| p.x).collect();
    for w in xs.windows(2) {
        assert!(w[0] <= w[1] + 3);
    }
}

#[test]
fn unmapped_character_advances_nothing_in_real_layout() {
    let mut font = Font::new(open_face(18)).unwrap();
    let with_gap: Vec<char> = vec!['A', '\u{fdd0}', 'B'];
    let plain: Vec<char> = vec!['A', 'B'];
    let t1 = Text::new(&with_gap, Point2 { x: 0, y: 0 }, &mut font).unwrap();
    let t2 = Text::new(&plain, Point2 { x: 0, y: 0 }, &mut font).unwrap();
    // The unmapped, non-space character neither draws nor moves the pen;
    // it only suppresses the A-B kerning pair.  Its page still gets a
    // batch, with nothing in it.
    assert_eq!(t1.batches().len(), 2);
    assert_eq!(t2.batches().len(), 1);
    assert!(t1.batches()[1].positions.is_empty());
    let b1 = &t1.batches()[0];
    let b2 = &t2.batches()[0];
    assert_eq!(b1.positions.len(), b2.positions.len());
    assert_eq!(b1.positions[0], b2.positions[0]);
    assert_eq!(b1.positions[4].y, b2.positions[4].y);
}
