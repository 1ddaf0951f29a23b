//! The typeface of the clock face: glyphs for the printable ASCII characters, a
//! few pixels high, in the style of an arcade game.
//!
//! The glyph table is kept as one array per property, entry `i` for the
//! character code `FIRST + i`.

use vstd::prelude::*;
use crate::engine::font::glyph_fits;
use crate::engine::font::GFXfont;
use crate::engine::font::GFXglyph;

verus! {

/// The character code of the first glyph: the space.
pub const FIRST: u8 = 0x20;

/// The character code of the last glyph: the tilde.
pub const LAST: u8 = 0x7E;

/// The number of glyphs.
pub const GLYPHS: usize = 95;

/// The bits of all glyphs.
pub const SUPER_MARIO_BROS_24PT_BITMAPS: [u8; 554] = [
    0x00, 0xFF, 0xEC, 0x30, 0xDE, 0xF6, 0x6C, 0xDB, 0xFB, 0x6F, 0xED, 0x9B, 0x00, 0x10, 0xFB,
    0x83, 0xE0, 0xFF, 0x84, 0x00, 0xC7, 0x9C, 0x71, 0xC7, 0x1C, 0xF1, 0x80, 0x61, 0xA3, 0x5B,
    0xED, 0x99, 0x9D, 0x80, 0xFC, 0x36, 0xCC, 0xC6, 0x30, 0xC6, 0x33, 0x36, 0xC0, 0x6C, 0x73,
    0xF9, 0xC6, 0xC0, 0x30, 0xCF, 0xCC, 0x30, 0x6F, 0x00, 0xFF, 0xF0, 0xF0, 0x06, 0x1C, 0x71,
    0xC7, 0x1C, 0x30, 0x00, 0x7D, 0x9F, 0x3E, 0x7C, 0xF9, 0xDF, 0x00, 0x77, 0x9C, 0xE7, 0x3B,
    0xE0, 0x7D, 0x9C, 0x39, 0xE7, 0x1C, 0x3F, 0x80, 0x7E, 0x18, 0xE0, 0x60, 0xF9, 0xDF, 0x00,
    0x1C, 0x79, 0xB6, 0x6F, 0xE1, 0x83, 0x00, 0xFD, 0x83, 0xF0, 0x70, 0xF9, 0xDF, 0x00, 0x7D,
    0x83, 0xF6, 0x7C, 0xF9, 0xDF, 0x00, 0xFF, 0x9C, 0x30, 0xC3, 0x06, 0x0C, 0x00, 0x7D, 0x9F,
    0x3B, 0xEC, 0xF9, 0xDF, 0x00, 0x7D, 0x9F, 0x3B, 0xF0, 0xE1, 0xDF, 0x00, 0xF3, 0xC0, 0x6C,
    0x37, 0x80, 0x19, 0x99, 0x86, 0x18, 0x60, 0xF8, 0x01, 0xF0, 0xC3, 0x0C, 0x33, 0x33, 0x00,
    0x7D, 0x8F, 0x18, 0xE3, 0x00, 0x0C, 0x00, 0x7D, 0x06, 0xED, 0x5B, 0xF0, 0x1F, 0x00, 0x38,
    0xFB, 0x9F, 0x3F, 0xFC, 0xF9, 0x80, 0xFD, 0xCF, 0x9F, 0xEE, 0x7C, 0xFF, 0x00, 0x3C, 0xCF,
    0x87, 0x0E, 0x0C, 0xCF, 0x00, 0xF9, 0xDB, 0x9F, 0x3E, 0x7D, 0xBE, 0x00, 0xFF, 0xC3, 0x87,
    0xEE, 0x1C, 0x3F, 0x80, 0xFF, 0xC3, 0x87, 0xEE, 0x1C, 0x38, 0x00, 0x3C, 0xC3, 0x87, 0x7E,
    0x6C, 0xCF, 0x80, 0xE7, 0xCF, 0x9F, 0xFE, 0x7C, 0xF9, 0x80, 0xFB, 0x9C, 0xE7, 0x3B, 0xE0,
    0x1E, 0x0C, 0x18, 0x3E, 0x7C, 0xDF, 0x00, 0xE7, 0xDB, 0xE7, 0x8F, 0x9D, 0xB9, 0x80, 0xE3,
    0x8E, 0x38, 0xE3, 0x8F, 0xC0, 0xC7, 0xDF, 0xFF, 0xFD, 0x78, 0xF1, 0x80, 0xC7, 0xCF, 0xDF,
    0xFE, 0xFC, 0xF9, 0x80, 0x7D, 0xCF, 0x9F, 0x3E, 0x7C, 0xDF, 0x00, 0xFD, 0xCF, 0x9F, 0x3F,
    0xDC, 0x38, 0x00, 0x7D, 0xCF, 0x9F, 0x3F, 0xFD, 0x9E, 0x80, 0xFD, 0xCF, 0x9F, 0x6F, 0x9D,
    0xB9, 0x80, 0x79, 0xDB, 0x83, 0xE0, 0x7C, 0xDF, 0x00, 0xFE, 0x70, 0xE1, 0xC3, 0x87, 0x0E,
    0x00, 0xE7, 0xCF, 0x9F, 0x3E, 0x7C, 0xDF, 0x00, 0xE7, 0xCF, 0x9F, 0x36, 0xC7, 0x04, 0x00,
    0xC7, 0x8F, 0x5E, 0xBF, 0xFD, 0xF1, 0x80, 0xC7, 0xDD, 0xF1, 0xC7, 0xDD, 0xF1, 0x80, 0xE7,
    0xCF, 0x9B, 0xE3, 0x87, 0x0E, 0x00, 0xFE, 0x1C, 0x71, 0xC7, 0x1C, 0x3F, 0x80, 0xFC, 0xCC,
    0xCC, 0xF0, 0xC1, 0xC1, 0xC1, 0xC1, 0xC1, 0xC1, 0x80, 0xF3, 0x33, 0x33, 0xF0, 0x76, 0xC0,
    0xFE, 0x90, 0x38, 0xFB, 0x9F, 0x3F, 0xFC, 0xF9, 0x80, 0xFD, 0xCF, 0x9F, 0xEE, 0x7C, 0xFF,
    0x00, 0x3C, 0xCF, 0x87, 0x0E, 0x0C, 0xCF, 0x00, 0xF9, 0xDB, 0x9F, 0x3E, 0x7D, 0xBE, 0x00,
    0xFF, 0xC3, 0x87, 0xEE, 0x1C, 0x3F, 0x80, 0xFF, 0xC3, 0x87, 0xEE, 0x1C, 0x38, 0x00, 0x3C,
    0xC3, 0x87, 0x7E, 0x6C, 0xCF, 0x80, 0xE7, 0xCF, 0x9F, 0xFE, 0x7C, 0xF9, 0x80, 0xFB, 0x9C,
    0xE7, 0x3B, 0xE0, 0x1E, 0x0C, 0x18, 0x3E, 0x7C, 0xDF, 0x00, 0xE7, 0xDB, 0xE7, 0x8F, 0x9D,
    0xB9, 0x80, 0xE3, 0x8E, 0x38, 0xE3, 0x8F, 0xC0, 0xC7, 0xDF, 0xFF, 0xFD, 0x78, 0xF1, 0x80,
    0xC7, 0xCF, 0xDF, 0xFE, 0xFC, 0xF9, 0x80, 0x7D, 0xCF, 0x9F, 0x3E, 0x7C, 0xDF, 0x00, 0xFD,
    0xCF, 0x9F, 0x3F, 0xDC, 0x38, 0x00, 0x7D, 0xCF, 0x9F, 0x3F, 0xFD, 0x9E, 0x80, 0xFD, 0xCF,
    0x9F, 0x6F, 0x9D, 0xB9, 0x80, 0x79, 0xDB, 0x83, 0xE0, 0x7C, 0xDF, 0x00, 0xFE, 0x70, 0xE1,
    0xC3, 0x87, 0x0E, 0x00, 0xE7, 0xCF, 0x9F, 0x3E, 0x7C, 0xDF, 0x00, 0xE7, 0xCF, 0x9F, 0x36,
    0xC7, 0x04, 0x00, 0xC7, 0x8F, 0x5E, 0xBF, 0xFD, 0xF1, 0x80, 0xC7, 0xDD, 0xF1, 0xC7, 0xDD,
    0xF1, 0x80, 0xE7, 0xCF, 0x9B, 0xE3, 0x87, 0x0E, 0x00, 0xFE, 0x1C, 0x71, 0xC7, 0x1C, 0x3F,
    0x80, 0x36, 0x6C, 0x66, 0x30, 0xFF, 0xFC, 0xC6, 0x63, 0x66, 0xC0, 0x71, 0x74, 0x70,
];

/// Where the bits of each glyph start.
pub const GLYPH_BITMAP_OFFSET: [u16; 95] = [
    0, 1, 4, 6, 13, 20, 27, 34, 35, 39, 43, 48, 52, 54, 56, 57, 64, 71, 76, 83, 90, 97, 104,
    111, 118, 125, 132, 134, 137, 142, 145, 150, 157, 164, 171, 178, 185, 192, 199, 206, 213,
    220, 225, 232, 239, 245, 252, 259, 266, 273, 280, 287, 294, 301, 308, 315, 322, 329, 336,
    343, 347, 354, 358, 360, 361, 362, 369, 376, 383, 390, 397, 404, 411, 418, 423, 430, 437,
    443, 450, 457, 464, 471, 478, 485, 492, 499, 506, 513, 520, 527, 534, 541, 545, 547, 551,
];

/// The columns of each glyph.
pub const GLYPH_WIDTH: [u8; 95] = [
    1, 3, 5, 7, 7, 7, 7, 2, 4, 4, 7, 6, 3, 6, 2, 7, 7, 5, 7, 7, 7, 7, 7, 7, 7, 7, 2, 3, 5, 5, 5,
    7, 7, 7, 7, 7, 7, 7, 7, 7, 7, 5, 7, 7, 6, 7, 7, 7, 7, 7, 7, 7, 7, 7, 7, 7, 7, 7, 7, 4, 7, 4,
    5, 7, 2, 7, 7, 7, 7, 7, 7, 7, 7, 5, 7, 7, 6, 7, 7, 7, 7, 7, 7, 7, 7, 7, 7, 7, 7, 7, 7, 4, 2,
    4, 7,
];

/// The rows of each glyph.
pub const GLYPH_HEIGHT: [u8; 95] = [
    1, 7, 3, 7, 7, 7, 7, 3, 7, 7, 5, 5, 3, 2, 2, 7, 7, 7, 7, 7, 7, 7, 7, 7, 7, 7, 5, 6, 7, 4, 7,
    7, 7, 7, 7, 7, 7, 7, 7, 7, 7, 7, 7, 7, 7, 7, 7, 7, 7, 7, 7, 7, 7, 7, 7, 7, 7, 7, 7, 7, 7, 7,
    2, 1, 2, 7, 7, 7, 7, 7, 7, 7, 7, 7, 7, 7, 7, 7, 7, 7, 7, 7, 7, 7, 7, 7, 7, 7, 7, 7, 7, 7, 7,
    7, 3,
];

/// How far each glyph moves the pen.
pub const GLYPH_X_ADVANCE: [u8; 95] = [
    8, 8, 8, 8, 8, 8, 8, 8, 8, 8, 8, 8, 8, 8, 8, 8, 8, 8, 8, 8, 8, 8, 8, 8, 8, 8, 8, 8, 8, 8, 8,
    8, 8, 8, 8, 8, 8, 8, 8, 8, 8, 8, 8, 8, 8, 8, 8, 8, 8, 8, 8, 8, 8, 8, 8, 8, 8, 8, 8, 8, 8, 8,
    8, 8, 8, 8, 8, 8, 8, 8, 8, 8, 8, 8, 8, 8, 8, 8, 8, 8, 8, 8, 8, 8, 8, 8, 8, 8, 8, 8, 8, 8, 8,
    8, 8,
];

/// The column of each glyph's left edge, relative to the pen.
pub const GLYPH_X_OFFSET: [i8; 95] = [
    0, 2, 1, 0, 0, 0, 0, 2, 2, 1, 0, 1, 1, 1, 2, 0, 0, 1, 0, 0, 0, 0, 0, 0, 0, 0, 2, 1, 1, 1, 1,
    0, 0, 0, 0, 0, 0, 0, 0, 0, 0, 1, 0, 0, 1, 0, 0, 0, 0, 0, 0, 0, 0, 0, 0, 0, 0, 0, 0, 2, 0, 1,
    1, 0, 2, 0, 0, 0, 0, 0, 0, 0, 0, 1, 0, 0, 1, 0, 0, 0, 0, 0, 0, 0, 0, 0, 0, 0, 0, 0, 0, 2, 3,
    1, 0,
];

/// The row of each glyph's top edge, relative to the pen.
pub const GLYPH_Y_OFFSET: [i8; 95] = [
    0, -6, -6, -6, -6, -6, -6, -6, -6, -6, -5, -5, -1, -3, -1, -6, -6, -6, -6, -6, -6, -6, -6,
    -6, -6, -6, -5, -5, -6, -4, -6, -6, -6, -6, -6, -6, -6, -6, -6, -6, -6, -6, -6, -6, -6, -6,
    -6, -6, -6, -6, -6, -6, -6, -6, -6, -6, -6, -6, -6, -6, -6, -6, -6, 1, -6, -6, -6, -6, -6,
    -6, -6, -6, -6, -6, -6, -6, -6, -6, -6, -6, -6, -6, -6, -6, -6, -6, -6, -6, -6, -6, -6, -6,
    -6, -6, -4,
];

/// The glyph of the character code `FIRST + i`.
pub open spec fn glyph_entry(i: int) -> GFXglyph {
    GFXglyph {
        bitmap_offset: GLYPH_BITMAP_OFFSET[i],
        width: GLYPH_WIDTH[i],
        height: GLYPH_HEIGHT[i],
        x_advance: GLYPH_X_ADVANCE[i],
        x_offset: GLYPH_X_OFFSET[i],
        y_offset: GLYPH_Y_OFFSET[i],
    }
}

/// The glyph table.
pub open spec fn glyph_entries() -> Seq<GFXglyph> {
    Seq::new(GLYPHS as nat, |i: int| glyph_entry(i))
}

/// Whether `font` is this typeface.
pub open spec fn is_super_mario_bros_24pt(font: GFXfont) -> bool {
    &&& font.bitmap@ == SUPER_MARIO_BROS_24PT_BITMAPS@
    &&& font.glyph@ == glyph_entries()
    &&& font.first == FIRST
    &&& font.last == LAST
}

/// The number of bits of a glyph as high as `height` and as wide as `width`,
/// which is at most 7.
proof fn lemma_glyph_bits(height: int, width: int)
    requires
        0 <= width <= 7,
    ensures
        height * width == if width == 0 {
            0
        } else if width == 1 {
            height
        } else if width == 2 {
            2 * height
        } else if width == 3 {
            3 * height
        } else if width == 4 {
            4 * height
        } else if width == 5 {
            5 * height
        } else if width == 6 {
            6 * height
        } else {
            7 * height
        },
        (height - 1) * width == height * width - width,
{
    assert((height - 1) * width == height * width - width) by (nonlinear_arith);
    assert(height * 0 == 0 && height * 1 == height) by (nonlinear_arith);
    assert(height * 2 == 2 * height && height * 3 == 3 * height && height * 4 == 4 * height)
        by (nonlinear_arith);
    assert(height * 5 == 5 * height && height * 6 == 6 * height && height * 7 == 7 * height)
        by (nonlinear_arith);
}

/// Puts the glyph table together.
pub fn super_mario_bros_24pt_glyphs() -> (glyphs: [GFXglyph; 95])
    ensures
        glyphs@ == glyph_entries(),
{
    let blank = GFXglyph {
        bitmap_offset: 0,
        width: 0,
        height: 0,
        x_advance: 0,
        x_offset: 0,
        y_offset: 0,
    };
    let mut glyphs = [blank; 95];
    let mut i: usize = 0;
    while i < GLYPHS
        invariant
            i <= GLYPHS,
            forall|j: int| 0 <= j < i ==> glyphs[j] == glyph_entry(j),
        decreases GLYPHS - i,
    {
        glyphs[i] = GFXglyph {
            bitmap_offset: GLYPH_BITMAP_OFFSET[i],
            width: GLYPH_WIDTH[i],
            height: GLYPH_HEIGHT[i],
            x_advance: GLYPH_X_ADVANCE[i],
            x_offset: GLYPH_X_OFFSET[i],
            y_offset: GLYPH_Y_OFFSET[i],
        };
        i += 1;
    }
    assert(glyphs@ =~= glyph_entries());
    glyphs
}

/// The typeface over a glyph table that `super_mario_bros_24pt_glyphs` put
/// together.
pub fn super_mario_bros_24pt<'a>(bitmap: &'a [u8; 554], glyphs: &'a [GFXglyph; 95]) -> (font: GFXfont<'a>)
    requires
        bitmap@ == SUPER_MARIO_BROS_24PT_BITMAPS@,
        glyphs@ == glyph_entries(),
    ensures
        is_super_mario_bros_24pt(font),
        font.well_formed(),
{
    let font = GFXfont { bitmap: bitmap.as_slice(), glyph: glyphs.as_slice(), first: FIRST, last: LAST };
    proof {
        lemma_glyphs_fit();
    }
    font
}

/// Every glyph of the typeface has its bits inside the bit string.
pub proof fn lemma_glyphs_fit()
    ensures
        forall|i: int| 0 <= i < GLYPHS ==> glyph_fits(#[trigger] glyph_entry(i), 554),
{
    assert forall|i: int| 0 <= i < GLYPHS implies glyph_fits(#[trigger] glyph_entry(i), 554) by {
        lemma_glyph_bounds(i);
        lemma_glyph_bits(glyph_entry(i).height as int, glyph_entry(i).width as int);
        lemma_glyph_ends(i, glyph_entry(i).height * glyph_entry(i).width);
    }
}

/// The last byte of every glyph lies inside the bit string.
proof fn lemma_glyph_ends(i: int, bits: int)
    requires
        0 <= i < GLYPHS,
        bits == glyph_entry(i).height * glyph_entry(i).width,
    ensures
        bits > 0 ==> glyph_entry(i).bitmap_offset + (bits - 1) / 8 < 554,
{
    lemma_glyph_bounds(i);
    lemma_glyph_bits(glyph_entry(i).height as int, glyph_entry(i).width as int);
}

/// No glyph is larger than 7 by 7 pixels, and none starts after byte 551.
proof fn lemma_glyph_bounds(i: int)
    requires
        0 <= i < GLYPHS,
    ensures
        glyph_entry(i).width <= 7,
        glyph_entry(i).height <= 7,
        glyph_entry(i).bitmap_offset <= 551,
{
}

} // verus!
