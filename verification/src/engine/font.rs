//! Bitmap fonts.
//!
//! A font is a run of glyphs for consecutive character codes. The glyphs share one
//! bit string: each glyph's bits start at its own offset and follow each other row
//! by row without padding, the leftmost pixel in the highest bit of a byte.

use vstd::prelude::*;

verus! {

/// One glyph: where its bits start, its extent, and where it sits relative to the
/// pen.
#[derive(Debug, Clone, Copy, PartialEq, Eq, Structural)]
pub struct GFXglyph {
    /// The byte of the font's bit string at which the glyph starts.
    pub bitmap_offset: u16,
    /// Columns of the glyph.
    pub width: u8,
    /// Rows of the glyph.
    pub height: u8,
    /// How far the pen moves right after the glyph.
    pub x_advance: u8,
    /// Column of the glyph's left edge, relative to the pen.
    pub x_offset: i8,
    /// Row of the glyph's top edge, relative to the pen.
    pub y_offset: i8,
}

/// A font for the character codes `first..=last`.
#[derive(Debug, Clone, Copy)]
pub struct GFXfont<'a> {
    /// The bits of all glyphs.
    pub bitmap: &'a [u8],
    /// The glyphs, that of `first` first.
    pub glyph: &'a [GFXglyph],
    /// The lowest character code with a glyph.
    pub first: u8,
    /// The highest character code with a glyph.
    pub last: u8,
}

/// The number of the bit at (`row`, `col`) within a glyph's bits.
pub open spec fn bit_index(glyph: GFXglyph, row: int, col: int) -> int {
    row * glyph.width + col
}

/// Whether the bits of `glyph` lie inside a bit string of `bytes` bytes, and its
/// row starts can be counted in a byte.
pub open spec fn glyph_fits(glyph: GFXglyph, bytes: int) -> bool {
    &&& glyph.bitmap_offset <= bytes
    &&& glyph.height > 0 ==> (glyph.height - 1) * glyph.width <= 255
    &&& glyph.height > 0 && glyph.width > 0 ==> glyph.bitmap_offset + (glyph.height * glyph.width
        - 1) / 8 < bytes
}

impl<'a> GFXfont<'a> {
    /// Whether every character code of the font has a glyph whose bits exist.
    pub open spec fn well_formed(&self) -> bool {
        &&& self.first <= self.last
        &&& self.glyph@.len() > self.last - self.first
        &&& forall|i: int|
            0 <= i <= self.last - self.first ==> glyph_fits(
                #[trigger] self.glyph@[i],
                self.bitmap@.len() as int,
            )
    }

    /// Whether the font has a glyph for `c`.
    pub open spec fn has_glyph(&self, c: char) -> bool {
        self.first as u32 <= c as u32 <= self.last as u32
    }

    /// The glyph of `c`.
    pub open spec fn glyph_of(&self, c: char) -> GFXglyph {
        self.glyph@[c as u32 - self.first as u32]
    }

    /// Whether the pixel at (`row`, `col`) of `glyph` is set.
    pub open spec fn glyph_bit(&self, glyph: GFXglyph, row: int, col: int) -> bool {
        let bit = bit_index(glyph, row, col);
        (self.bitmap@[glyph.bitmap_offset + bit / 8] & (0x80u8 >> ((bit % 8) as u8))) != 0
    }

    /// Whether `glyph`, drawn with the pen at (`pen_x`, `pen_y`), sets the pixel at
    /// (`px`, `py`).
    pub open spec fn glyph_covers(
        &self,
        glyph: GFXglyph,
        pen_x: int,
        pen_y: int,
        px: int,
        py: int,
    ) -> bool {
        let row = py - (pen_y + glyph.y_offset);
        let col = px - (pen_x + glyph.x_offset);
        &&& 0 <= row < glyph.height
        &&& 0 <= col < glyph.width
        &&& self.glyph_bit(glyph, row, col)
    }

    /// Where the pen stands after the first `count` characters of `text`, having
    /// started at `x`: characters without a glyph do not move it.
    pub open spec fn pen_x(&self, text: Seq<char>, x: int, count: nat) -> int
        decreases count,
    {
        if count == 0 {
            x
        } else {
            let before = self.pen_x(text, x, (count - 1) as nat);
            let c = text[count - 1];
            if self.has_glyph(c) {
                before + self.glyph_of(c).x_advance
            } else {
                before
            }
        }
    }

    /// Whether one of the first `count` characters of `text`, written from
    /// (`x`, `y`) on, sets the pixel at (`px`, `py`).
    pub open spec fn text_covers(
        &self,
        text: Seq<char>,
        x: int,
        y: int,
        count: nat,
        px: int,
        py: int,
    ) -> bool
        decreases count,
    {
        if count == 0 {
            false
        } else {
            let c = text[count - 1];
            ||| self.text_covers(text, x, y, (count - 1) as nat, px, py)
            ||| (self.has_glyph(c) && self.glyph_covers(
                self.glyph_of(c),
                self.pen_x(text, x, (count - 1) as nat),
                y,
                px,
                py,
            ))
        }
    }

    /// Checks whether every character code of the font has a glyph whose bits
    /// exist.
    pub fn is_well_formed(&self) -> (ok: bool)
        ensures
            ok == self.well_formed(),
    {
        if self.first > self.last {
            return false;
        }
        let count = (self.last - self.first) as usize + 1;
        if self.glyph.len() < count {
            return false;
        }
        let mut i: usize = 0;
        while i < count
            invariant
                i <= count,
                count == self.last - self.first + 1,
                count <= self.glyph@.len(),
                forall|j: int|
                    0 <= j < i ==> glyph_fits(#[trigger] self.glyph@[j], self.bitmap@.len() as int),
            decreases count - i,
        {
            if !fits(&self.glyph[i], self.bitmap.len()) {
                return false;
            }
            i += 1;
        }
        true
    }

    /// Looks up the glyph of `c`, if the font has one.
    pub fn glyph_for(&self, c: char) -> (found: Option<GFXglyph>)
        requires
            self.well_formed(),
        ensures
            self.has_glyph(c) ==> found == Some(self.glyph_of(c)),
            !self.has_glyph(c) ==> found is None,
    {
        if c < self.first as char || c > self.last as char {
            None
        } else {
            let glyph_index = c as usize - self.first as usize;
            Some(self.glyph[glyph_index])
        }
    }

    /// Reads the pixel at (`row`, `col`) of a glyph of this font.
    pub fn pixel(&self, glyph: &GFXglyph, row: u8, col: u8) -> (set: bool)
        requires
            glyph_fits(*glyph, self.bitmap@.len() as int),
            row < glyph.height,
            col < glyph.width,
        ensures
            set == self.glyph_bit(*glyph, row as int, col as int),
    {
        proof {
            lemma_bit_in_glyph(*glyph, row as int, col as int);
        }
        let bitmap_row_start = (row * glyph.width) as usize;
        let bit_index = bitmap_row_start + col as usize;
        let byte = self.bitmap[glyph.bitmap_offset as usize + bit_index / 8];
        byte & (0x80u8 >> (bit_index % 8)) != 0
    }
}

/// Checks whether the bits of `glyph` lie inside a bit string of `bytes` bytes,
/// and its row starts can be counted in a byte.
pub fn fits(glyph: &GFXglyph, bytes: usize) -> (ok: bool)
    ensures
        ok == glyph_fits(*glyph, bytes as int),
{
    let offset = glyph.bitmap_offset as u64;
    let width = glyph.width as u64;
    let height = glyph.height as u64;
    assert(height * width <= 255 * 255) by (nonlinear_arith)
        requires
            0 <= height <= 255,
            0 <= width <= 255,
    ;
    if height > 0 {
        assert((height - 1) * width == height * width - width) by (nonlinear_arith);
    }
    offset <= bytes as u64 && (height == 0 || (height - 1) * width <= 255) && (height == 0 || width
        == 0 || offset + (height * width - 1) / 8 < bytes as u64)
}

/// Whether two fonts hold the same glyphs for the same character codes.
pub open spec fn same_typeface(a: GFXfont, b: GFXfont) -> bool {
    &&& a.bitmap@ == b.bitmap@
    &&& a.glyph@ == b.glyph@
    &&& a.first == b.first
    &&& a.last == b.last
}

/// What a text covers depends on the glyphs of a font only, not on where the
/// font keeps them.
pub proof fn lemma_same_typeface_same_text(
    a: GFXfont,
    b: GFXfont,
    text: Seq<char>,
    x: int,
    y: int,
    count: nat,
    px: int,
    py: int,
)
    requires
        same_typeface(a, b),
    ensures
        a.pen_x(text, x, count) == b.pen_x(text, x, count),
        a.text_covers(text, x, y, count, px, py) == b.text_covers(text, x, y, count, px, py),
    decreases count,
{
    if count > 0 {
        lemma_same_typeface_same_text(a, b, text, x, y, (count - 1) as nat, px, py);
    }
}

/// A pixel inside a glyph has a bit inside the glyph's bits.
pub proof fn lemma_bit_in_glyph(glyph: GFXglyph, row: int, col: int)
    requires
        0 <= row < glyph.height,
        0 <= col < glyph.width,
    ensures
        0 <= row * glyph.width <= (glyph.height - 1) * glyph.width,
        0 <= bit_index(glyph, row, col) <= glyph.height * glyph.width - 1,
        bit_index(glyph, row, col) / 8 <= (glyph.height * glyph.width - 1) / 8,
{
    let w = glyph.width as int;
    let h = glyph.height as int;
    assert(0 <= row * w <= (h - 1) * w) by (nonlinear_arith)
        requires
            0 <= row <= h - 1,
            0 <= w,
    ;
    assert((h - 1) * w + w == h * w) by (nonlinear_arith);
}

} // verus!
