use vstd::prelude::*;
use vstd::string::*;
use crate::geometry::IVec2;

verus! {

/// The number of character codes a font holds glyphs for.
pub const GLYPH_SLOTS: usize = 128;

/// Where text is anchored relative to its drawing position.
#[derive(Clone, Copy, Debug, PartialEq, Eq, Structural)]
pub enum TextAlignment {
    BottomLeft,
    BottomCenter,
    BottomRight,
    MiddleLeft,
    MiddleCenter,
    MiddleRight,
    TopLeft,
    TopCenter,
    TopRight,
}

impl TextAlignment {
    /// How many half widths and half heights of the text lie left of and
    /// below the anchor.
    pub open spec fn anchor_halves(self) -> (int, int) {
        match self {
            TextAlignment::BottomLeft => (0, 0),
            TextAlignment::BottomCenter => (1, 0),
            TextAlignment::BottomRight => (2, 0),
            TextAlignment::MiddleLeft => (0, 1),
            TextAlignment::MiddleCenter => (1, 1),
            TextAlignment::MiddleRight => (2, 1),
            TextAlignment::TopLeft => (0, 2),
            TextAlignment::TopCenter => (1, 2),
            TextAlignment::TopRight => (2, 2),
        }
    }

    pub fn anchor(self) -> (r: (i128, i128))
        ensures
            r.0 == self.anchor_halves().0,
            r.1 == self.anchor_halves().1,
    {
        match self {
            TextAlignment::BottomLeft => (0, 0),
            TextAlignment::BottomCenter => (1, 0),
            TextAlignment::BottomRight => (2, 0),
            TextAlignment::MiddleLeft => (0, 1),
            TextAlignment::MiddleCenter => (1, 1),
            TextAlignment::MiddleRight => (2, 1),
            TextAlignment::TopLeft => (0, 2),
            TextAlignment::TopCenter => (1, 2),
            TextAlignment::TopRight => (2, 2),
        }
    }
}

/// One rasterized glyph: its texture, bitmap size and bearing in pixels, and
/// its horizontal advance in 26.6 fixed point.
#[derive(Clone, Copy, Debug, PartialEq, Eq, Structural)]
pub struct Character {
    pub texture_id: u32,
    pub size: IVec2,
    pub bearing: IVec2,
    pub advance: i32,
}

/// The advance of a glyph in whole pixels.
pub open spec fn advance_px(c: Character) -> int {
    (c.advance >> 6) as int
}

/// A glyph atlas for the character codes below `GLYPH_SLOTS`, with the
/// vertex array and buffer shared by all glyph quads.
#[derive(Clone, Debug)]
pub struct Font {
    pub characters: Vec<Option<Character>>,
    pub vao: u32,
    pub vbo: u32,
}

impl Font {
    pub open spec fn wf(&self) -> bool {
        self.characters@.len() == GLYPH_SLOTS
    }

    /// The glyph for `c`, if the font has one.
    pub open spec fn glyph(&self, c: char) -> Option<Character> {
        if (c as u32) < GLYPH_SLOTS as u32 {
            self.characters@[c as u32 as int]
        } else {
            None
        }
    }

    /// The width of `s` at unit scale: the sum of the advances of its glyphs.
    pub open spec fn text_width(&self, s: Seq<char>) -> int
        decreases s.len(),
    {
        if s.len() == 0 {
            0
        } else {
            self.text_width(s.drop_last()) + match self.glyph(s.last()) {
                Some(g) => advance_px(g),
                None => 0,
            }
        }
    }

    /// The height of `s` at unit scale: the tallest of its glyphs, at least zero.
    pub open spec fn text_height(&self, s: Seq<char>) -> int
        decreases s.len(),
    {
        if s.len() == 0 {
            0
        } else {
            let rest = self.text_height(s.drop_last());
            match self.glyph(s.last()) {
                Some(g) => if g.size.y > rest {
                    g.size.y as int
                } else {
                    rest
                },
                None => rest,
            }
        }
    }

    /// The rendered size of `s` at integer scale `scale`: `(width, height)`.
    pub open spec fn string_bounds(&self, s: Seq<char>, scale: int) -> (int, int) {
        (scale * self.text_width(s), scale * self.text_height(s))
    }

    /// A font with no glyphs and no GPU objects.
    pub fn new() -> (r: Font)
        ensures
            r.wf(),
            forall|c: char| #[trigger] r.glyph(c) is None,
            r.vao == 0,
            r.vbo == 0,
    {
        let mut characters: Vec<Option<Character>> = Vec::new();
        let mut i: usize = 0;
        while i < GLYPH_SLOTS
            invariant
                i <= GLYPH_SLOTS,
                characters@.len() == i,
                forall|j: int| 0 <= j < i ==> #[trigger] characters@[j] is None,
            decreases GLYPH_SLOTS - i,
        {
            characters.push(None);
            i = i + 1;
        }
        Font { characters, vao: 0, vbo: 0 }
    }

    /// Records the glyph for `c`. Codes outside the atlas are refused with `false`.
    pub fn insert_character(&mut self, c: char, character: Character) -> (r: bool)
        requires
            old(self).wf(),
        ensures
            final(self).wf(),
            r == ((c as u32) < GLYPH_SLOTS as u32),
            final(self).vao == old(self).vao,
            final(self).vbo == old(self).vbo,
            forall|d: char|
                #[trigger] final(self).glyph(d) == if d as u32 == c as u32 && r {
                    Some(character)
                } else {
                    old(self).glyph(d)
                },
    {
        let code = c as u32;
        if code < GLYPH_SLOTS as u32 {
            self.characters.set(code as usize, Some(character));
            true
        } else {
            false
        }
    }

    /// The glyph for `c`; a miss is no error.
    pub fn get_character(&self, c: char) -> (r: Option<Character>)
        requires
            self.wf(),
        ensures
            r == self.glyph(c),
    {
        let code = c as u32;
        if code < GLYPH_SLOTS as u32 {
            self.characters[code as usize]
        } else {
            None
        }
    }
}

impl Font {
    /// The size of `text` drawn at integer scale `scale`: the sum of its
    /// glyphs' advances and the height of its tallest glyph, both times
    /// `scale`. Characters the font has no glyph for take no room.
    pub fn get_string_bounds(&self, text: &str, scale: u32) -> (r: (i128, i128))
        requires
            self.wf(),
        ensures
            (r.0 as int, r.1 as int) == self.string_bounds(text@, scale as int),
            -0x1_0000_0000 * (0x200_0000 * 0x1_0000_0000_0000_0000) <= r.0 <= 0x1_0000_0000 * (
            0x200_0000 * 0x1_0000_0000_0000_0000),
            0 <= r.1 <= 0x1_0000_0000_0000_0000,
    {
        let n = text.unicode_len();
        let mut width: i128 = 0;
        let mut height: i32 = 0;
        let mut i: usize = 0;
        while i < n
            invariant
                self.wf(),
                n == text@.len(),
                i <= n,
                width == self.text_width(text@.take(i as int)),
                height == self.text_height(text@.take(i as int)),
                -0x200_0000 * (i as int) <= width <= 0x200_0000 * (i as int),
                0 <= height,
            decreases n - i,
        {
            let c = text.get_char(i);
            assert(text@.take(i + 1).drop_last() =~= text@.take(i as int));
            assert(text@.take(i + 1).last() == c);
            match self.get_character(c) {
                Some(g) => {
                    let a: i32 = g.advance;
                    let adv: i32 = a >> 6;
                    assert(-0x200_0000 <= adv <= 0x200_0000) by (bit_vector)
                        requires
                            adv == a >> 6,
                    ;
                    width = width + adv as i128;
                    if g.size.y > height {
                        height = g.size.y;
                    }
                },
                None => {},
            }
            i = i + 1;
        }
        assert(text@.take(n as int) =~= text@);
        let s = scale as i128;
        assert(-0x200_0000 * 0x1_0000_0000_0000_0000 <= width <= 0x200_0000 * 0x1_0000_0000_0000_0000);
        assert(s * width <= 0x1_0000_0000 * (0x200_0000 * 0x1_0000_0000_0000_0000)) by (nonlinear_arith)
            requires
                0 <= s <= 0x1_0000_0000,
                width <= 0x200_0000 * 0x1_0000_0000_0000_0000,
        ;
        assert(s * width >= -0x1_0000_0000 * (0x200_0000 * 0x1_0000_0000_0000_0000)) by (nonlinear_arith)
            requires
                0 <= s <= 0x1_0000_0000,
                width >= -0x200_0000 * 0x1_0000_0000_0000_0000,
        ;
        assert(0 <= s * (height as i128) <= 0x1_0000_0000 * 0x1_0000_0000) by (nonlinear_arith)
            requires
                0 <= s <= 0x1_0000_0000,
                0 <= height <= 0x1_0000_0000,
        ;
        (s * width, s * height as i128)
    }

    /// Where to start drawing `text` so that it sits at its anchor, relative
    /// to the drawing position, in half pixels (twice the offset): the text
    /// is moved left by `anchor.0` half widths and down by `anchor.1` half heights.
    pub fn get_offset(&self, text: &str, scale: u32, alignment: TextAlignment) -> (r: (i128, i128))
        requires
            self.wf(),
        ensures
            r.0 == -alignment.anchor_halves().0 * self.string_bounds(text@, scale as int).0,
            r.1 == -alignment.anchor_halves().1 * self.string_bounds(text@, scale as int).1,
    {
        let bounds = self.get_string_bounds(text, scale);
        let anchor = alignment.anchor();
        assert(-(anchor.0 * bounds.0) == -anchor.0 * bounds.0) by (nonlinear_arith);
        assert(-(anchor.1 * bounds.1) == -anchor.1 * bounds.1) by (nonlinear_arith);
        (-(anchor.0 * bounds.0), -(anchor.1 * bounds.1))
    }
}

/// Where one glyph quad is drawn, relative to the text's drawing position,
/// in pixels: left edge `x`, bottom edge `y`, width `w` and height `h`.
#[derive(Clone, Copy, Debug, PartialEq, Eq, Structural)]
pub struct GlyphQuad {
    pub texture_id: u32,
    pub x: i128,
    pub y: i128,
    pub w: i128,
    pub h: i128,
}

/// The quad of glyph `g` with the pen at `pen`, at integer scale `scale`.
pub open spec fn glyph_quad(g: Character, pen: int, scale: int) -> GlyphQuad {
    GlyphQuad {
        texture_id: g.texture_id,
        x: (pen + g.bearing.x * scale) as i128,
        y: (-(g.size.y - g.bearing.y) * scale) as i128,
        w: (g.size.x * scale) as i128,
        h: (g.size.y * scale) as i128,
    }
}

impl Font {
    /// The quads of the glyphs of `s` at integer scale `scale`, in order; each
    /// glyph starts where the advances of the glyphs before it end, and a
    /// character without a glyph draws nothing and takes no room.
    pub open spec fn layout(&self, s: Seq<char>, scale: int) -> Seq<GlyphQuad>
        decreases s.len(),
    {
        if s.len() == 0 {
            Seq::empty()
        } else {
            let rest = self.layout(s.drop_last(), scale);
            match self.glyph(s.last()) {
                Some(g) => rest.push(glyph_quad(g, scale * self.text_width(s.drop_last()), scale)),
                None => rest,
            }
        }
    }

    /// The glyph quads that drawing `text` at integer scale `scale` issues.
    pub fn layout_text(&self, text: &str, scale: u32) -> (r: Vec<GlyphQuad>)
        requires
            self.wf(),
        ensures
            r@ == self.layout(text@, scale as int),
    {
        let n = text.unicode_len();
        let s = scale as i128;
        let mut quads: Vec<GlyphQuad> = Vec::new();
        let mut width: i128 = 0;
        let mut i: usize = 0;
        while i < n
            invariant
                self.wf(),
                n == text@.len(),
                i <= n,
                0 <= s <= 0xFFFF_FFFF,
                s == scale,
                width == self.text_width(text@.take(i as int)),
                -0x200_0000 * (i as int) <= width <= 0x200_0000 * (i as int),
                quads@ == self.layout(text@.take(i as int), scale as int),
            decreases n - i,
        {
            let c = text.get_char(i);
            assert(text@.take(i + 1).drop_last() =~= text@.take(i as int));
            assert(text@.take(i + 1).last() == c);
            match self.get_character(c) {
                Some(g) => {
                    assert(-0x200_0000 * 0x1_0000_0000_0000_0000 <= width <= 0x200_0000
                        * 0x1_0000_0000_0000_0000);
                    assert(-0x1_0000_0000 * (0x200_0000 * 0x1_0000_0000_0000_0000) <= s * width
                        <= 0x1_0000_0000 * (0x200_0000 * 0x1_0000_0000_0000_0000)) by (nonlinear_arith)
                        requires
                            0 <= s <= 0xFFFF_FFFF,
                            -0x200_0000 * 0x1_0000_0000_0000_0000 <= width <= 0x200_0000
                                * 0x1_0000_0000_0000_0000,
                    ;
                    let bx = g.bearing.x as i128;
                    let by = g.bearing.y as i128;
                    let sx = g.size.x as i128;
                    let sy = g.size.y as i128;
                    assert(-0x1_0000_0000 * 0x1_0000_0000 <= bx * s <= 0x1_0000_0000 * 0x1_0000_0000)
                        by (nonlinear_arith)
                        requires
                            0 <= s <= 0xFFFF_FFFF,
                            -0x8000_0000 <= bx <= 0x7FFF_FFFF,
                    ;
                    assert(-0x2_0000_0000 * 0x1_0000_0000 <= (sy - by) * s <= 0x2_0000_0000
                        * 0x1_0000_0000) by (nonlinear_arith)
                        requires
                            0 <= s <= 0xFFFF_FFFF,
                            -0x1_0000_0000 <= sy - by <= 0x1_0000_0000,
                    ;
                    assert(-0x1_0000_0000 * 0x1_0000_0000 <= sx * s <= 0x1_0000_0000 * 0x1_0000_0000)
                        by (nonlinear_arith)
                        requires
                            0 <= s <= 0xFFFF_FFFF,
                            -0x8000_0000 <= sx <= 0x7FFF_FFFF,
                    ;
                    assert(-0x1_0000_0000 * 0x1_0000_0000 <= sy * s <= 0x1_0000_0000 * 0x1_0000_0000)
                        by (nonlinear_arith)
                        requires
                            0 <= s <= 0xFFFF_FFFF,
                            -0x8000_0000 <= sy <= 0x7FFF_FFFF,
                    ;
                    let pen = s * width;
                    let quad = GlyphQuad {
                        texture_id: g.texture_id,
                        x: pen + bx * s,
                        y: -((sy - by) * s),
                        w: sx * s,
                        h: sy * s,
                    };
                    assert(-((sy - by) * s) == -(g.size.y - g.bearing.y) * (scale as int))
                        by (nonlinear_arith)
                        requires
                            sy == g.size.y,
                            by == g.bearing.y,
                            s == scale,
                    ;
                    assert(pen == (scale as int) * self.text_width(text@.take(i as int)));
                    assert(bx * s == g.bearing.x * (scale as int)) by (nonlinear_arith)
                        requires
                            bx == g.bearing.x,
                            s == scale,
                    ;
                    assert(sx * s == g.size.x * (scale as int)) by (nonlinear_arith)
                        requires
                            sx == g.size.x,
                            s == scale,
                    ;
                    assert(sy * s == g.size.y * (scale as int)) by (nonlinear_arith)
                        requires
                            sy == g.size.y,
                            s == scale,
                    ;
                    quads.push(quad);
                    let a: i32 = g.advance;
                    let adv: i32 = a >> 6;
                    assert(-0x200_0000 <= adv <= 0x200_0000) by (bit_vector)
                        requires
                            adv == a >> 6,
                    ;
                    width = width + adv as i128;
                },
                None => {},
            }
            i = i + 1;
        }
        assert(text@.take(n as int) =~= text@);
        quads
    }
}

/// Text bounds add up over concatenation: the width of `a + b` is the sum of
/// their widths and its height the larger of their heights; and the bounds
/// at scale `s` are `s` times the bounds at scale one.
pub proof fn lemma_text_bounds(font: &Font, a: Seq<char>, b: Seq<char>, s: int)
    ensures
        font.text_width(a + b) == font.text_width(a) + font.text_width(b),
        font.text_height(a + b) == if font.text_height(a) >= font.text_height(b) {
            font.text_height(a)
        } else {
            font.text_height(b)
        },
        font.string_bounds(a, s) == (s * font.string_bounds(a, 1).0, s * font.string_bounds(a, 1).1),
    decreases b.len(),
{
    if b.len() == 0 {
        assert(a + b =~= a);
        lemma_text_height_nonneg(font, a);
    } else {
        assert((a + b).drop_last() =~= a + b.drop_last());
        assert((a + b).last() == b.last());
        lemma_text_bounds(font, a, b.drop_last(), s);
        lemma_text_height_nonneg(font, b.drop_last());
    }
}

proof fn lemma_text_height_nonneg(font: &Font, a: Seq<char>)
    ensures
        font.text_height(a) >= 0,
    decreases a.len(),
{
    if a.len() > 0 {
        lemma_text_height_nonneg(font, a.drop_last());
    }
}

} // verus!
