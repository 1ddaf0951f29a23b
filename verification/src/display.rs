//! Drawing on a frame: sprites, rectangles and text in 16-bit colour.
//!
//! Scenes are made of images and colours in the packed 5-6-5 format. Everything
//! drawn here is widened to eight bits per channel first and then written to the
//! frame, which keeps the gamma-corrected intensities. Drawing clips: what falls
//! outside the frame is left out.

use vstd::prelude::*;
use embedded_graphics::pixelcolor::Rgb565;
use embedded_graphics::pixelcolor::Rgb888;
use embedded_graphics::prelude::RgbColor;
use crate::engine::display::bitmap_source;
use crate::engine::display::PEN_LIMIT;
use crate::engine::font::glyph_fits;
use crate::engine::font::lemma_same_typeface_same_text;
use crate::engine::font::same_typeface;
use crate::engine::font::GFXfont;
use crate::engine::font::GFXglyph;
use crate::framebuffer::in_bounds;
use crate::framebuffer::filled;
use crate::framebuffer::stored;
use crate::framebuffer::FrameBuffer;
use crate::framebuffer::Rgb;

verus! {

/// A channel value out of `0..=from_max`, scaled to `0..=255` and rounded to the
/// nearest: the scale factor is held as a fixed-point number with 24 fraction
/// bits, and half a unit is added before the fraction is cut off.
pub open spec fn widened(value: int, from_max: int) -> int {
    (value * (0xFF00_0000int / from_max) + 0x80_0000) / 0x100_0000
}

/// The red channel of a packed 5-6-5 colour.
pub open spec fn red5(color: u16) -> u8 {
    ((color >> 11) & 0x1F) as u8
}

/// The green channel of a packed 5-6-5 colour.
pub open spec fn green6(color: u16) -> u8 {
    ((color >> 5) & 0x3F) as u8
}

/// The blue channel of a packed 5-6-5 colour.
pub open spec fn blue5(color: u16) -> u8 {
    (color & 0x1F) as u8
}

/// A packed 5-6-5 colour with each channel widened to eight bits.
pub open spec fn rgb888_of(color: u16) -> Rgb {
    Rgb {
        r: widened(red5(color) as int, 31) as u8,
        g: widened(green6(color) as int, 63) as u8,
        b: widened(blue5(color) as int, 31) as u8,
    }
}

/// Converts a colour of 5, 6 and 5 bits to one of 8 bits per channel with
/// `embedded_graphics`: `Rgb565::new` followed by the conversion
/// `Rgb888::from(Rgb565)`.
///
/// Not verified: the contract restates the conversion's fixed-point formula,
/// which scales each channel by `255 / max` and rounds to the nearest.
#[verifier::external_body]
fn widen_rgb565(r5: u8, g6: u8, b5: u8) -> (color: Rgb)
    requires
        r5 <= 31,
        g6 <= 63,
        b5 <= 31,
    ensures
        color.r == widened(r5 as int, 31),
        color.g == widened(g6 as int, 63),
        color.b == widened(b5 as int, 31),
{
    let wide: Rgb888 = Rgb565::new(r5, g6, b5).into();
    Rgb { r: wide.r(), g: wide.g(), b: wide.b() }
}

/// Widens a packed 5-6-5 colour to eight bits per channel.
pub fn to_rgb888(color: u16) -> (rgb: Rgb)
    ensures
        rgb == rgb888_of(color),
{
    let r5 = ((color >> 11) & 0x1F) as u8;
    let g6 = ((color >> 5) & 0x3F) as u8;
    let b5 = (color & 0x1F) as u8;
    assert(((color >> 11) & 0x1F) <= 31 && ((color >> 5) & 0x3F) <= 63 && (color & 0x1F) <= 31)
        by (bit_vector);
    widen_rgb565(r5, g6, b5)
}

/// Full scale widens to full scale, zero to zero, and nothing leaves the range of
/// a byte.
pub proof fn lemma_widened_range(value: int, from_max: int)
    requires
        from_max == 31 || from_max == 63,
        0 <= value <= from_max,
    ensures
        0 <= widened(value, from_max) <= 255,
        widened(0, from_max) == 0,
        widened(from_max, from_max) == 255,
{
    if from_max == 31 {
        let factor = 0xFF00_0000int / 31;
        assert(factor == 138006131);
        assert(0 <= value * factor <= 31 * factor);
    } else {
        let factor = 0xFF00_0000int / 63;
        assert(factor == 67907779);
        assert(0 <= value * factor <= 63 * factor);
    }
}

/// `grid` with a sprite drawn over it: the image is `width` cells wide and
/// `height` high, row after row, with its corner at (`x`, `y`); a cell of
/// value 0 is transparent, and cells that `image` is too short to hold are left
/// out.
pub open spec fn with_sprite(
    grid: Seq<Seq<Rgb>>,
    x: int,
    y: int,
    image: Seq<u16>,
    width: int,
    height: int,
) -> Seq<Seq<Rgb>> {
    Seq::new(
        grid.len(),
        |py: int|
            Seq::new(
                grid[py].len(),
                |px: int|
                    match bitmap_source(image.len() as int, x, y, width, height, px, py) {
                        Some(k) => if image[k] != 0 {
                            stored(rgb888_of(image[k]))
                        } else {
                            grid[py][px]
                        },
                        None => grid[py][px],
                    },
            ),
    )
}

/// Draws a sprite on the frame with its upper left corner at (`x`, `y`).
pub fn draw_rgb_bitmap(
    fb: &mut FrameBuffer,
    x: i32,
    y: i32,
    image: &[u16],
    width: i32,
    height: i32,
)
    ensures
        final(fb)@ == with_sprite(old(fb)@, x as int, y as int, image@, width as int, height as int),
{
    let ghost goal = with_sprite(
        old(fb)@,
        x as int,
        y as int,
        image@,
        width as int,
        height as int,
    );
    let x: i64 = x as i64;
    let y: i64 = y as i64;
    let width: i64 = width as i64;
    let height: i64 = height as i64;
    let first_row: i64 = if y < 0 { -y } else { 0 };
    let last_row: i64 = if y + height > 64 { 64 - y } else { height };
    let first_col: i64 = if x < 0 { -x } else { 0 };
    let last_col: i64 = if x + width > 64 { 64 - x } else { width };
    let mut row: i64 = first_row;
    while row < last_row
        invariant
            0 <= first_row <= row,
            -0x8000_0000 <= x < 0x8000_0000,
            -0x8000_0000 <= y < 0x8000_0000,
            -0x8000_0000 <= width < 0x8000_0000,
            -0x8000_0000 <= height < 0x8000_0000,
            first_row == if y < 0 { -y } else { 0int },
            last_row == if y + height > 64 { 64 - y } else { height as int },
            first_col == if x < 0 { -x } else { 0int },
            last_col == if x + width > 64 { 64 - x } else { width as int },
            goal == with_sprite(old(fb)@, x as int, y as int, image@, width as int, height as int),
            forall|px: int, py: int|
                in_bounds(px, py) ==> #[trigger] fb@[py][px] == if py < y + row {
                    goal[py][px]
                } else {
                    old(fb)@[py][px]
                },
        decreases last_row - row,
    {
        let dest_y: i64 = y + row;
        let mut col: i64 = first_col;
        while col < last_col
            invariant
                0 <= first_row <= row < last_row,
                0 <= first_col <= col,
                dest_y == y + row,
                -0x8000_0000 <= x < 0x8000_0000,
                -0x8000_0000 <= y < 0x8000_0000,
                -0x8000_0000 <= width < 0x8000_0000,
                -0x8000_0000 <= height < 0x8000_0000,
                first_row == if y < 0 { -y } else { 0int },
                last_row == if y + height > 64 { 64 - y } else { height as int },
                first_col == if x < 0 { -x } else { 0int },
                last_col == if x + width > 64 { 64 - x } else { width as int },
                goal == with_sprite(
                    old(fb)@,
                    x as int,
                    y as int,
                    image@,
                    width as int,
                    height as int,
                ),
                forall|px: int, py: int|
                    in_bounds(px, py) ==> #[trigger] fb@[py][px] == if py < dest_y || (py == dest_y
                        && px < x + col) {
                        goal[py][px]
                    } else {
                        old(fb)@[py][px]
                    },
            decreases last_col - col,
        {
            let dest_x: i64 = x + col;
            assert(0 <= row < 0x8000_0000 && 0 < width);
            assert(0 <= row * width <= 0x8000_0000 * 0x8000_0000) by (nonlinear_arith)
                requires
                    0 <= row <= 0x8000_0000,
                    0 <= width <= 0x8000_0000,
            ;
            let pixel_index: i64 = row * width + col;
            if (pixel_index as u64) < (image.len() as u64) {
                let rgb565_color = image[pixel_index as usize];
                if rgb565_color != 0 {
                    let rgb888_color = to_rgb888(rgb565_color);
                    fb.set(dest_x as i32, dest_y as i32, rgb888_color);
                }
            }
            col += 1;
        }
        row += 1;
    }
    assert(fb@ =~~= goal);
}

/// Fills the part of a rectangle that lies on the frame with a packed 5-6-5
/// colour.
pub fn fill_rect(fb: &mut FrameBuffer, x: i32, y: i32, width: u32, height: u32, color565: u16)
    ensures
        final(fb)@ == filled(
            old(fb)@,
            x as int,
            y as int,
            width as int,
            height as int,
            stored(rgb888_of(color565)),
        ),
{
    fb.fill(x, y, width, height, to_rgb888(color565));
}

/// `grid` with a run of packed 5-6-5 colours laid over it, row after row from the
/// upper left corner; pixels beyond the end of the run keep what they have.
pub open spec fn with_cells(grid: Seq<Seq<Rgb>>, colors: Seq<u16>) -> Seq<Seq<Rgb>> {
    Seq::new(
        grid.len(),
        |py: int|
            Seq::new(
                grid[py].len(),
                |px: int|
                    if py * 64 + px < colors.len() {
                        stored(rgb888_of(colors[py * 64 + px]))
                    } else {
                        grid[py][px]
                    },
            ),
    )
}

/// Copies a grid of packed 5-6-5 colours, row after row, onto the frame.
pub fn fill_contiguous(fb: &mut FrameBuffer, colors: &[u16])
    ensures
        final(fb)@ == with_cells(old(fb)@, colors@),
{
    let ghost goal = with_cells(old(fb)@, colors@);
    let mut i: usize = 0;
    while i < 4096 && i < colors.len()
        invariant
            i <= 4096,
            i <= colors@.len(),
            goal == with_cells(old(fb)@, colors@),
            forall|px: int, py: int|
                in_bounds(px, py) ==> #[trigger] fb@[py][px] == if py * 64 + px < i {
                    goal[py][px]
                } else {
                    old(fb)@[py][px]
                },
        decreases 4096 - i,
    {
        let x = (i % 64) as i32;
        let y = (i / 64) as i32;
        fb.set(x, y, to_rgb888(colors[i]));
        i += 1;
    }
    assert(fb@ =~~= goal);
}

/// `grid` with one glyph stamped on it as `value`.
pub open spec fn with_glyph_on(
    grid: Seq<Seq<Rgb>>,
    font: GFXfont,
    glyph: GFXglyph,
    pen_x: int,
    pen_y: int,
    value: Rgb,
) -> Seq<Seq<Rgb>> {
    Seq::new(
        grid.len(),
        |py: int|
            Seq::new(
                grid[py].len(),
                |px: int|
                    if font.glyph_covers(glyph, pen_x, pen_y, px, py) {
                        value
                    } else {
                        grid[py][px]
                    },
            ),
    )
}

/// `grid` with the first `count` characters of `text` written on it as `value`,
/// the pen starting at (`x`, `y`).
pub open spec fn with_text_on(
    grid: Seq<Seq<Rgb>>,
    font: GFXfont,
    text: Seq<char>,
    x: int,
    y: int,
    count: nat,
    value: Rgb,
) -> Seq<Seq<Rgb>> {
    Seq::new(
        grid.len(),
        |py: int|
            Seq::new(
                grid[py].len(),
                |px: int|
                    if font.text_covers(text, x, y, count, px, py) {
                        value
                    } else {
                        grid[py][px]
                    },
            ),
    )
}

/// A text looks the same in every font that holds the same glyphs.
pub proof fn lemma_same_typeface_same_frame(
    grid: Seq<Seq<Rgb>>,
    a: GFXfont,
    b: GFXfont,
    text: Seq<char>,
    x: int,
    y: int,
    count: nat,
    value: Rgb,
)
    requires
        same_typeface(a, b),
    ensures
        with_text_on(grid, a, text, x, y, count, value) == with_text_on(
            grid,
            b,
            text,
            x,
            y,
            count,
            value,
        ),
{
    assert forall|px: int, py: int|
        a.text_covers(text, x, y, count, px, py) == b.text_covers(text, x, y, count, px, py) by {
        lemma_same_typeface_same_text(a, b, text, x, y, count, px, py);
    }
    assert(with_text_on(grid, a, text, x, y, count, value) =~~= with_text_on(
        grid,
        b,
        text,
        x,
        y,
        count,
        value,
    ));
}

/// Stamps one glyph on the frame in `color`.
fn stamp_glyph(
    fb: &mut FrameBuffer,
    font: &GFXfont,
    glyph: &GFXglyph,
    pen_x: i64,
    pen_y: i64,
    color: Rgb,
)
    requires
        glyph_fits(*glyph, font.bitmap@.len() as int),
        -0x1_0000_0000 <= pen_x <= 0x1_0000_0000,
        -0x1_0000_0000 <= pen_y <= 0x1_0000_0000,
    ensures
        final(fb)@ == with_glyph_on(
            old(fb)@,
            *font,
            *glyph,
            pen_x as int,
            pen_y as int,
            stored(color),
        ),
{
    let ghost goal = with_glyph_on(
        old(fb)@,
        *font,
        *glyph,
        pen_x as int,
        pen_y as int,
        stored(color),
    );
    let top: i64 = pen_y + glyph.y_offset as i64;
    let left: i64 = pen_x + glyph.x_offset as i64;
    let mut row: u8 = 0;
    while row < glyph.height
        invariant
            row <= glyph.height,
            glyph_fits(*glyph, font.bitmap@.len() as int),
            top == pen_y + glyph.y_offset,
            left == pen_x + glyph.x_offset,
            -0x1_0000_0000 <= pen_x <= 0x1_0000_0000,
            -0x1_0000_0000 <= pen_y <= 0x1_0000_0000,
            goal == with_glyph_on(
                old(fb)@,
                *font,
                *glyph,
                pen_x as int,
                pen_y as int,
                stored(color),
            ),
            forall|px: int, py: int|
                in_bounds(px, py) ==> #[trigger] fb@[py][px] == if py < top + row {
                    goal[py][px]
                } else {
                    old(fb)@[py][px]
                },
        decreases glyph.height - row,
    {
        let dest_y: i64 = top + row as i64;
        if 0 <= dest_y && dest_y < 64 {
            let mut col: u8 = 0;
            while col < glyph.width
                invariant
                    row < glyph.height,
                    col <= glyph.width,
                    glyph_fits(*glyph, font.bitmap@.len() as int),
                    top == pen_y + glyph.y_offset,
                    left == pen_x + glyph.x_offset,
                    dest_y == top + row,
                    0 <= dest_y < 64,
                    -0x1_0000_0000 <= pen_x <= 0x1_0000_0000,
                    -0x1_0000_0000 <= pen_y <= 0x1_0000_0000,
                    goal == with_glyph_on(
                        old(fb)@,
                        *font,
                        *glyph,
                        pen_x as int,
                        pen_y as int,
                        stored(color),
                    ),
                    forall|px: int, py: int|
                        in_bounds(px, py) ==> #[trigger] fb@[py][px] == if py < dest_y || (py
                            == dest_y && px < left + col) {
                            goal[py][px]
                        } else {
                            old(fb)@[py][px]
                        },
                decreases glyph.width - col,
            {
                let dest_x: i64 = left + col as i64;
                if 0 <= dest_x && dest_x < 64 {
                    if font.pixel(glyph, row, col) {
                        fb.set(dest_x as i32, dest_y as i32, color);
                    }
                }
                col += 1;
            }
        }
        row += 1;
    }
    assert(fb@ =~~= goal);
}

/// Writes `text` on the frame in a packed 5-6-5 colour, the pen starting at
/// (`x`, `y`). Each character that the font has a glyph for is stamped at the
/// pen and moves the pen right by the glyph's advance; other characters are
/// passed over.
pub fn print_text(fb: &mut FrameBuffer, font: &GFXfont, text: &str, x: i32, y: i32, color565: u16)
    requires
        font.well_formed(),
    ensures
        final(fb)@ == with_text_on(
            old(fb)@,
            *font,
            text@,
            x as int,
            y as int,
            text@.len(),
            stored(rgb888_of(color565)),
        ),
{
    let color = to_rgb888(color565);
    // A pen this far right stays where it is: no glyph reaches the frame from
    // there, nor from anywhere further right.
    let mut cursor_x: i64 = x as i64;
    let cursor_y: i64 = y as i64;
    assert(fb@ =~~= with_text_on(old(fb)@, *font, text@, x as int, y as int, 0, stored(color)));
    for c in it: text.chars()
        invariant
            it.seq() == text@,
            font.well_formed(),
            color == rgb888_of(color565),
            cursor_y == y,
            -0x8000_0000 <= cursor_x < 0x8000_0000,
            cursor_x == font.pen_x(text@, x as int, it.index() as nat) || (cursor_x >= PEN_LIMIT
                && font.pen_x(text@, x as int, it.index() as nat) >= cursor_x),
            fb@ == with_text_on(
                old(fb)@,
                *font,
                text@,
                x as int,
                y as int,
                it.index() as nat,
                stored(color),
            ),
    {
        let ghost count = it.index() as nat;
        let ghost pen = font.pen_x(text@, x as int, count);
        match font.glyph_for(c) {
            Some(glyph) => {
                stamp_glyph(fb, font, &glyph, cursor_x, cursor_y, color);
                proof {
                    assert forall|px: int, py: int| in_bounds(px, py) implies font.glyph_covers(
                        glyph,
                        cursor_x as int,
                        y as int,
                        px,
                        py,
                    ) == font.glyph_covers(glyph, pen, y as int, px, py) by {}
                    assert(fb@ =~~= with_text_on(
                        old(fb)@,
                        *font,
                        text@,
                        x as int,
                        y as int,
                        count + 1,
                        stored(color),
                    ));
                }
                if cursor_x < PEN_LIMIT {
                    cursor_x += glyph.x_advance as i64;
                }
            },
            None => {
                assert(fb@ =~~= with_text_on(
                    old(fb)@,
                    *font,
                    text@,
                    x as int,
                    y as int,
                    count + 1,
                    stored(color),
                ));
            },
        }
    }
}

} // verus!
