use rugl::atlas::Atlas;
use rugl::face::GlyphMetrics;
use rugl::gpu::{Command, Texture, Uniform};
use rugl::math::Vector2I;
use rugl::shader::MeshShader;
use rugl::text::{layout, Point2, Text, TextShader};

struct GlyphSpec {
    slot: usize,
    width_px: i32,
    height_px: i32,
    bearing_x_px: i32,
    bearing_y_px: i32,
    advance_px: i32,
}

fn build_page(atlas: &mut Atlas, page: u32, specs: &[GlyphSpec]) {
    let mut ms: Vec<Option<GlyphMetrics>> = vec![None; 256];
    for g in specs {
        ms[g.slot] = Some(GlyphMetrics {
            width: g.width_px * 64,
            height: g.height_px * 64,
            hori_bearing_x: g.bearing_x_px * 64,
            hori_bearing_y: g.bearing_y_px * 64,
            hori_advance: g.advance_px * 64,
            vert_bearing_x: 0,
            vert_bearing_y: 0,
            vert_advance: g.height_px * 64,
        });
    }
    atlas.load_page_from_measures(page, &ms);
}

fn simple(slot: usize, advance_px: i32) -> GlyphSpec {
    GlyphSpec { slot, width_px: 5, height_px: 5, bearing_x_px: 0, bearing_y_px: 5, advance_px }
}

#[test]
fn two_glyph_line_places_quads_by_advance() {
    // "Hi": H advances 12 px, no kerning; expect i's top-left x at
    // 12 + bearing_i (in thirds of a pixel: times 3).
    let mut atlas = Atlas::new();
    build_page(
        &mut atlas,
        0,
        &[
            GlyphSpec {
                slot: 'H' as usize,
                width_px: 10,
                height_px: 12,
                bearing_x_px: 1,
                bearing_y_px: 12,
                advance_px: 12,
            },
            GlyphSpec {
                slot: 'i' as usize,
                width_px: 4,
                height_px: 12,
                bearing_x_px: 2,
                bearing_y_px: 12,
                advance_px: 6,
            },
        ],
    );
    let chars: Vec<char> = "Hi".chars().collect();
    let kerns: Vec<i32> = vec![0, 0];
    let batches = layout(&chars, Point2 { x: 0, y: 0 }, &atlas, 18, &kerns);
    assert_eq!(batches.len(), 1);
    let b = &batches[0];
    assert_eq!(b.unicode_page, 0);
    assert_eq!(b.texture, Texture { id: 1 });
    assert_eq!(b.positions.len(), 8);
    // H's quad: top-left at (bearing_x, -bearing_y), size 10x12 px.
    assert_eq!(b.positions[0], Point2 { x: 3 * 1, y: -3 * 12 });
    assert_eq!(b.positions[1], Point2 { x: 3 * 11, y: -3 * 12 });
    assert_eq!(b.positions[2], Point2 { x: 3 * 11, y: 0 });
    assert_eq!(b.positions[3], Point2 { x: 3 * 1, y: 0 });
    // i's quad starts at advance_H + bearing_i.
    assert_eq!(b.positions[4], Point2 { x: 3 * (12 + 2), y: -3 * 12 });
    // Two triangles per quad, indices relative to each quad's first vertex.
    assert_eq!(b.indices, vec![0, 1, 3, 3, 1, 2, 4, 5, 7, 7, 5, 6]);
    // Texel corners of H's region.
    assert_eq!(b.tex_coords[0], Vector2I { x: 0, y: 0 });
    assert_eq!(b.tex_coords[1], Vector2I { x: 10, y: 0 });
    assert_eq!(b.tex_coords[2], Vector2I { x: 10, y: 12 });
    assert_eq!(b.tex_coords[3], Vector2I { x: 0, y: 12 });
}

#[test]
fn kerning_is_reset_by_whitespace() {
    // "AB CD" with an unmapped space: kerning applies between A,B and
    // between C,D, never between B and C.
    let mut atlas = Atlas::new();
    build_page(
        &mut atlas,
        0,
        &[
            simple('A' as usize, 10),
            simple('B' as usize, 10),
            simple('C' as usize, 10),
            simple('D' as usize, 10),
            simple('E' as usize, 10),
        ],
    );
    let chars: Vec<char> = "AB CDE".chars().collect();
    // One kerning input per character; the entries at the space and just
    // after it are deliberately absurd — layout must ignore them.
    let kerns: Vec<i32> = vec![0, 2, 77, 99, 1, 0];
    let size_px = 9; // space fallback: 9 / 3 = 3 px = 9 layout units
    let batches = layout(&chars, Point2 { x: 0, y: 0 }, &atlas, size_px, &kerns);
    assert_eq!(batches.len(), 1);
    let xs: Vec<i64> = batches[0].positions.iter().step_by(4).map(|p| p.x).collect();
    assert_eq!(xs.len(), 5);
    assert_eq!(xs[0], 0); // A
    assert_eq!(xs[1], 30); // B: A's 10 px advance
    assert_eq!(xs[2], 30 + 30 + 3 * 2 + 9); // C: B's advance, kern(A,B), space
    assert_eq!(xs[3], xs[2] + 30); // D: C's advance; no kern across the space
    assert_eq!(xs[4], xs[3] + 30 + 3 * 1); // E: D's advance, kern(C,D)... applied after D

    // The ungated kerning entries have no effect at all.
    let other_kerns: Vec<i32> = vec![0, 2, -50, 40, 1, 0];
    let again = layout(&chars, Point2 { x: 0, y: 0 }, &atlas, size_px, &other_kerns);
    assert_eq!(again[0].positions, batches[0].positions);
}

#[test]
fn pen_never_moves_backward_without_negative_kerning() {
    let mut atlas = Atlas::new();
    build_page(
        &mut atlas,
        0,
        &[simple('a' as usize, 7), simple('b' as usize, 0), simple('c' as usize, 12)],
    );
    let chars: Vec<char> = "abcba".chars().collect();
    let kerns: Vec<i32> = vec![0, 1, 0, 2, 0];
    let batches = layout(&chars, Point2 { x: 5, y: 0 }, &atlas, 18, &kerns);
    let xs: Vec<i64> = batches[0].positions.iter().step_by(4).map(|p| p.x).collect();
    for w in xs.windows(2) {
        assert!(w[0] <= w[1]);
    }
}

#[test]
fn unmapped_code_point_does_not_advance_pen() {
    let mut atlas = Atlas::new();
    build_page(&mut atlas, 0, &[simple('A' as usize, 10), simple('B' as usize, 10)]);
    // U+0001 has no glyph and is not the space character: no advance.
    let chars: Vec<char> = vec!['A', '\u{1}', 'B'];
    let kerns: Vec<i32> = vec![0, 0, 0];
    let batches = layout(&chars, Point2 { x: 0, y: 0 }, &atlas, 18, &kerns);
    let xs: Vec<i64> = batches[0].positions.iter().step_by(4).map(|p| p.x).collect();
    assert_eq!(xs, vec![0, 30]);
}

#[test]
fn batches_group_by_page_in_first_occurrence_order() {
    let mut atlas = Atlas::new();
    build_page(&mut atlas, 0, &[simple('A' as usize, 10)]);
    build_page(&mut atlas, 1, &[simple(0x10, 10)]);
    let chars: Vec<char> = vec!['\u{110}', 'A', '\u{110}'];
    let kerns: Vec<i32> = vec![0, 0, 0];
    let batches = layout(&chars, Point2 { x: 0, y: 0 }, &atlas, 18, &kerns);
    assert_eq!(batches.len(), 2);
    assert_eq!(batches[0].unicode_page, 1);
    assert_eq!(batches[1].unicode_page, 0);
    assert_eq!(batches[0].texture, Texture { id: 2 });
    assert_eq!(batches[1].texture, Texture { id: 1 });
    // Both page-1 glyphs sit in the first batch, the A in the second.
    assert_eq!(batches[0].positions.len(), 8);
    assert_eq!(batches[1].positions.len(), 4);
}

#[test]
fn draw_binds_each_texture_before_its_batch() {
    let mut atlas = Atlas::new();
    build_page(&mut atlas, 0, &[simple('A' as usize, 10)]);
    build_page(&mut atlas, 1, &[simple(0x10, 10)]);
    let chars: Vec<char> = vec!['A', '\u{110}'];
    let kerns: Vec<i32> = vec![0, 0];
    let text = Text { gpu_data: layout(&chars, Point2 { x: 0, y: 0 }, &atlas, 18, &kerns) };
    let mut shader = TextShader::new(7, Uniform { location: 3 }, Uniform { location: 4 });
    let cmds = text.draw(&mut shader);
    assert_eq!(
        cmds,
        vec![
            Command::UseProgram { program: 7 },
            Command::BindTexture { unit: 0, texture: Texture { id: 1 } },
            Command::SetUniformInt { uniform: Uniform { location: 3 }, value: 0 },
            Command::DrawBatch { batch: 0, n_indices: 6 },
            Command::UseProgram { program: 7 },
            Command::BindTexture { unit: 0, texture: Texture { id: 2 } },
            Command::SetUniformInt { uniform: Uniform { location: 3 }, value: 0 },
            Command::DrawBatch { batch: 1, n_indices: 6 },
        ]
    );
    // The shader's own draw makes the program current first.
    let full = shader.draw(&text);
    assert_eq!(full[0], Command::UseProgram { program: 7 });
    assert_eq!(&full[1..], &cmds[..]);
}

#[test]
fn shader_uniform_commands() {
    let mut text_shader = TextShader::new(7, Uniform { location: 3 }, Uniform { location: 4 });
    let cmds = text_shader.set_screen_size(1200, 900);
    assert_eq!(
        cmds,
        vec![
            Command::UseProgram { program: 7 },
            Command::SetUniformSize { uniform: Uniform { location: 4 }, width: 1200, height: 900 },
        ]
    );
    let mut mesh_shader = MeshShader::new(8, Uniform { location: 0 }, Uniform { location: 1 });
    let cmds = mesh_shader.set_texture(Uniform { location: 2 }, 1, Texture { id: 5 });
    assert_eq!(
        cmds,
        vec![
            Command::BindTexture { unit: 1, texture: Texture { id: 5 } },
            Command::UseProgram { program: 8 },
            Command::SetUniformInt { uniform: Uniform { location: 2 }, value: 1 },
        ]
    );
}
