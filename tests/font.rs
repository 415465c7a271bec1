use gfx_core::device::RenderDevice;
use gfx_core::font::{Character, Font, GlyphQuad, TextAlignment};
use gfx_core::geometry::IVec2;

fn glyph(texture_id: u32, w: i32, h: i32, bx: i32, by: i32, advance_px: i32) -> Character {
    Character {
        texture_id,
        size: IVec2 { x: w, y: h },
        bearing: IVec2 { x: bx, y: by },
        advance: advance_px << 6,
    }
}

fn font_ab() -> Font {
    let mut f = Font::new();
    assert!(f.insert_character('A', glyph(1, 9, 12, 1, 12, 10)));
    assert!(f.insert_character('B', glyph(2, 7, 15, 0, 11, 8)));
    f
}

#[test]
fn bounds_sum_advances_and_take_tallest() {
    let f = font_ab();
    assert_eq!(f.get_string_bounds("AB", 1), (18, 15));
    assert_eq!(f.get_string_bounds("", 1), (0, 0));
}

#[test]
fn bounds_scale_exactly() {
    let f = font_ab();
    assert_eq!(f.get_string_bounds("AB", 3), (54, 45));
    assert_eq!(f.get_string_bounds("ABBA", 2), (72, 30));
}

#[test]
fn missing_glyphs_take_no_room() {
    let f = font_ab();
    assert_eq!(f.get_character('Z'), None);
    assert_eq!(f.get_string_bounds("AZB", 1), (18, 15));
    assert_eq!(f.get_character('A'), Some(glyph(1, 9, 12, 1, 12, 10)));
}

#[test]
fn codes_outside_the_atlas_are_refused() {
    let mut f = Font::new();
    assert!(!f.insert_character('\u{e9}', glyph(3, 1, 1, 0, 0, 1)));
    assert_eq!(f.get_character('\u{e9}'), None);
}

#[test]
fn offsets_follow_alignment() {
    let f = font_ab();
    assert_eq!(f.get_offset("AB", 1, TextAlignment::BottomLeft), (0, 0));
    assert_eq!(f.get_offset("AB", 1, TextAlignment::MiddleCenter), (-18, -15));
    assert_eq!(f.get_offset("AB", 1, TextAlignment::TopRight), (-36, -30));
    assert_eq!(f.get_offset("AB", 2, TextAlignment::BottomCenter), (-36, 0));
    assert_eq!(TextAlignment::MiddleRight.anchor(), (2, 1));
}

#[test]
fn layout_advances_the_pen() {
    let f = font_ab();
    let quads = f.layout_text("AZB", 2);
    assert_eq!(
        quads,
        vec![
            GlyphQuad { texture_id: 1, x: 2, y: 0, w: 18, h: 24 },
            GlyphQuad { texture_id: 2, x: 20, y: -8, w: 14, h: 30 },
        ]
    );
}

#[test]
fn dispose_font_releases_glyph_textures() {
    let mut device = RenderDevice::new();
    let mut f = font_ab();
    f.vao = 5;
    f.vbo = 6;
    let (vao, vbo, textures) = device.dispose_font(&mut f);
    assert_eq!((vao, vbo), (5, 6));
    assert_eq!(textures, vec![1, 2]);
    assert_eq!((f.vao, f.vbo), (0, 0));
    assert_eq!(f.get_character('A'), None);
}
