//! A grid of 16-bit colours to compose a scene into.
//!
//! The grid has `GRID_SIZE` rows of `GRID_SIZE` cells, row after row. Every
//! drawing operation clips: what falls outside the grid is left out, and nothing
//! else is touched.

use vstd::prelude::*;
use crate::engine::font::GFXfont;
use crate::engine::font::GFXglyph;
use crate::engine::font::glyph_fits;
use crate::framebuffer::rect_covers;

verus! {

/// Rows and columns of the grid.
pub const GRID_SIZE: usize = 64;

/// Cells of the grid.
pub const GRID_CELLS: usize = 4096;

/// A pen at or beyond this column cannot reach the grid with any glyph.
pub const PEN_LIMIT: i64 = 192;

/// The column of cell `i`.
pub open spec fn cell_x(i: int) -> int {
    i % (GRID_SIZE as int)
}

/// The row of cell `i`.
pub open spec fn cell_y(i: int) -> int {
    i / (GRID_SIZE as int)
}

/// The first row or column of something placed at `at` that lies on the grid.
pub open spec fn clip_start(at: int) -> int {
    if at < 0 {
        -at
    } else {
        0
    }
}

/// One past the last row or column of something `extent` long placed at `at`
/// that lies on the grid.
pub open spec fn clip_end(at: int, extent: int) -> int {
    if at + extent > GRID_SIZE {
        GRID_SIZE - at
    } else {
        extent
    }
}

/// The index into an image, `width` wide and `height` high with its corner at
/// (`x`, `y`), of the cell that lands on (`px`, `py`), if the image has
/// `length` cells and one of them lands there.
pub open spec fn bitmap_source(
    length: int,
    x: int,
    y: int,
    width: int,
    height: int,
    px: int,
    py: int,
) -> Option<int> {
    let col = px - x;
    let row = py - y;
    if 0 <= col < width && 0 <= row < height && row * width + col < length {
        Some(row * width + col)
    } else {
        None
    }
}

/// `cells` with an image copied over them.
pub open spec fn with_bitmap(
    cells: Seq<u16>,
    x: int,
    y: int,
    image: Seq<u16>,
    width: int,
    height: int,
) -> Seq<u16> {
    Seq::new(
        cells.len(),
        |i: int|
            match bitmap_source(image.len() as int, x, y, width, height, cell_x(i), cell_y(i)) {
                Some(k) => image[k],
                None => cells[i],
            },
    )
}

/// `cells` with a rectangle of one colour laid over them.
pub open spec fn with_rect(cells: Seq<u16>, x: int, y: int, width: int, height: int, color: u16) -> Seq<
    u16,
> {
    Seq::new(
        cells.len(),
        |i: int|
            if rect_covers(x, y, width, height, cell_x(i), cell_y(i)) {
                color
            } else {
                cells[i]
            },
    )
}

/// `cells` with one glyph stamped on them in `color`.
pub open spec fn with_glyph(
    cells: Seq<u16>,
    font: GFXfont,
    glyph: GFXglyph,
    pen_x: int,
    pen_y: int,
    color: u16,
) -> Seq<u16> {
    Seq::new(
        cells.len(),
        |i: int|
            if font.glyph_covers(glyph, pen_x, pen_y, cell_x(i), cell_y(i)) {
                color
            } else {
                cells[i]
            },
    )
}

/// `cells` with the first `count` characters of `text` written on them in `color`,
/// the pen starting at (`x`, `y`).
pub open spec fn with_text(
    cells: Seq<u16>,
    font: GFXfont,
    text: Seq<char>,
    x: int,
    y: int,
    count: nat,
    color: u16,
) -> Seq<u16> {
    Seq::new(
        cells.len(),
        |i: int|
            if font.text_covers(text, x, y, count, cell_x(i), cell_y(i)) {
                color
            } else {
                cells[i]
            },
    )
}

/// Stamps one glyph on a grid of cells.
pub fn stamp_glyph(
    cells: &mut [u16; 4096],
    font: &GFXfont,
    glyph: &GFXglyph,
    pen_x: i64,
    pen_y: i64,
    color: u16,
)
    requires
        glyph_fits(*glyph, font.bitmap@.len() as int),
        -0x1_0000_0000 <= pen_x <= 0x1_0000_0000,
        -0x1_0000_0000 <= pen_y <= 0x1_0000_0000,
    ensures
        final(cells)@ == with_glyph(old(cells)@, *font, *glyph, pen_x as int, pen_y as int, color),
{
    let ghost goal = with_glyph(old(cells)@, *font, *glyph, pen_x as int, pen_y as int, color);
    let top: i64 = pen_y + glyph.y_offset as i64;
    let left: i64 = pen_x + glyph.x_offset as i64;
    let mut row: u8 = 0;
    while row < glyph.height
        invariant
            row <= glyph.height,
            glyph_fits(*glyph, font.bitmap@.len() as int),
            top == pen_y + glyph.y_offset,
            left == pen_x + glyph.x_offset,
            -0x1_0000_0000 <= pen_x <= 0x1_0000_0000,
            -0x1_0000_0000 <= pen_y <= 0x1_0000_0000,
            goal == with_glyph(old(cells)@, *font, *glyph, pen_x as int, pen_y as int, color),
            forall|i: int|
                0 <= i < 4096 ==> #[trigger] cells@[i] == if cell_y(i) < top + row {
                    goal[i]
                } else {
                    old(cells)@[i]
                },
        decreases glyph.height - row,
    {
        let dest_y: i64 = top + row as i64;
        if 0 <= dest_y && dest_y < 64 {
            let mut col: u8 = 0;
            while col < glyph.width
                invariant
                    row < glyph.height,
                    col <= glyph.width,
                    glyph_fits(*glyph, font.bitmap@.len() as int),
                    top == pen_y + glyph.y_offset,
                    left == pen_x + glyph.x_offset,
                    dest_y == top + row,
                    0 <= dest_y < 64,
                    -0x1_0000_0000 <= pen_x <= 0x1_0000_0000,
                    -0x1_0000_0000 <= pen_y <= 0x1_0000_0000,
                    goal == with_glyph(
                        old(cells)@,
                        *font,
                        *glyph,
                        pen_x as int,
                        pen_y as int,
                        color,
                    ),
                    forall|i: int|
                        0 <= i < 4096 ==> #[trigger] cells@[i] == if cell_y(i) < dest_y || (cell_y(
                            i,
                        ) == dest_y && cell_x(i) < left + col) {
                            goal[i]
                        } else {
                            old(cells)@[i]
                        },
                decreases glyph.width - col,
            {
                let dest_x: i64 = left + col as i64;
                if 0 <= dest_x && dest_x < 64 {
                    if font.pixel(glyph, row, col) {
                        let dest_index = (dest_y * 64 + dest_x) as usize;
                        cells[dest_index] = color;
                    }
                }
                col += 1;
            }
        }
        row += 1;
    }
    assert(cells@ =~= goal);
}

/// A colour grid with the font that text is written in.
///
/// Its view is the grid, row after row.
pub struct Display {
    pixel_buffer: [u16; 4096],
    font: Option<GFXfont<'static>>,
}

impl Display {
    /// The cells of the grid, row after row.
    pub closed spec fn view(&self) -> Seq<u16> {
        self.pixel_buffer@
    }

    /// The font that `print` writes in, once one was set.
    pub closed spec fn typeface(&self) -> Option<GFXfont<'static>> {
        self.font
    }

    /// Whether the font, if one was set, has a glyph with existing bits for each
    /// of its character codes. Every display that `new` made and `set_font`
    /// changed is well formed.
    pub open spec fn well_formed(&self) -> bool {
        self.typeface() matches Some(font) ==> font.well_formed()
    }

    /// A grid of zeros without a font.
    pub fn new() -> (display: Self)
        ensures
            display@ == Seq::new(GRID_CELLS as nat, |i: int| 0u16),
            display.typeface() is None,
    {
        let pixel_buffer = [0; 4096];
        let display = Display { pixel_buffer, font: None };
        assert(display@ =~= Seq::new(GRID_CELLS as nat, |i: int| 0u16));
        display
    }

    /// The cells of the grid, row after row.
    pub fn get_buffer(&self) -> (cells: &[u16])
        ensures
            cells@ == self@,
    {
        self.pixel_buffer.as_slice()
    }

    /// Copies an image onto the grid with its upper left corner at (`x`, `y`).
    /// The image is `width` cells wide and `height` high, row after row; cells
    /// that `image` is too short to hold are left out.
    pub fn draw_rgb_bitmap(&mut self, x: i32, y: i32, image: &'static [u16], width: i32, height: i32)
        ensures
            final(self)@ == with_bitmap(
                old(self)@,
                x as int,
                y as int,
                image@,
                width as int,
                height as int,
            ),
            final(self).typeface() == old(self).typeface(),
    {
        let ghost goal = with_bitmap(
            old(self)@,
            x as int,
            y as int,
            image@,
            width as int,
            height as int,
        );
        let x: i64 = x as i64;
        let y: i64 = y as i64;
        let width: i64 = width as i64;
        let height: i64 = height as i64;
        if x >= 64 || y >= 64 || x + width <= 0 || y + height <= 0 {
            assert(self@ =~= goal);
            return ;
        }
        let start_row: i64 = if y < 0 { -y } else { 0 };
        let end_row: i64 = if y + height > 64 { 64 - y } else { height };
        let start_col: i64 = if x < 0 { -x } else { 0 };
        let end_col: i64 = if x + width > 64 { 64 - x } else { width };
        let mut row: i64 = start_row;
        while row < end_row
            invariant
                0 <= start_row <= row,
                -0x8000_0000 <= x < 64,
                -0x8000_0000 <= y < 64,
                -0x8000_0000 <= width < 0x8000_0000,
                -0x8000_0000 <= height < 0x8000_0000,
                start_row == clip_start(y as int),
                end_row == clip_end(y as int, height as int),
                start_col == clip_start(x as int),
                end_col == clip_end(x as int, width as int),
                self.typeface() == old(self).typeface(),
                goal == with_bitmap(old(self)@, x as int, y as int, image@, width as int, height as int),
                forall|i: int|
                    0 <= i < 4096 ==> #[trigger] self@[i] == if cell_y(i) < y + row {
                        goal[i]
                    } else {
                        old(self)@[i]
                    },
            decreases end_row - row,
        {
            let dest_y: i64 = y + row;
            let mut col: i64 = start_col;
            while col < end_col
                invariant
                    0 <= start_row <= row < end_row,
                    0 <= start_col <= col,
                    dest_y == y + row,
                    -0x8000_0000 <= x < 64,
                    -0x8000_0000 <= y < 64,
                    -0x8000_0000 <= width < 0x8000_0000,
                    -0x8000_0000 <= height < 0x8000_0000,
                    start_row == clip_start(y as int),
                    end_row == clip_end(y as int, height as int),
                    start_col == clip_start(x as int),
                    end_col == clip_end(x as int, width as int),
                    self.typeface() == old(self).typeface(),
                    goal == with_bitmap(
                        old(self)@,
                        x as int,
                        y as int,
                        image@,
                        width as int,
                        height as int,
                    ),
                    forall|i: int|
                        0 <= i < 4096 ==> #[trigger] self@[i] == if cell_y(i) < dest_y || (cell_y(i)
                            == dest_y && cell_x(i) < x + col) {
                            goal[i]
                        } else {
                            old(self)@[i]
                        },
                decreases end_col - col,
            {
                let dest_x: i64 = x + col;
                assert(0 <= row < 0x8000_0000 && 0 < width);
                assert(0 <= row * width <= 0x8000_0000 * 0x8000_0000) by (nonlinear_arith)
                    requires
                        0 <= row <= 0x8000_0000,
                        0 <= width <= 0x8000_0000,
                ;
                let src_index: i64 = row * width + col;
                let dest_index = (dest_y * 64 + dest_x) as usize;
                assert(cell_y(dest_index as int) == dest_y);
                assert(cell_x(dest_index as int) == dest_x);
                if (src_index as u64) < (image.len() as u64) {
                    let ghost prev = self@;
                    self.pixel_buffer[dest_index] = image[src_index as usize];
                    assert(self@ == prev.update(dest_index as int, image@[src_index as int]));
                    assert(goal[dest_index as int] == image@[src_index as int]);
                } else {
                    assert(goal[dest_index as int] == old(self)@[dest_index as int]);
                }
                col += 1;
            }
            row += 1;
        }
        assert(self@ =~= goal);
    }

    /// Lays a rectangle of `color` over the grid, its upper left corner at
    /// (`x`, `y`).
    pub fn fill_rect(&mut self, x: i32, y: i32, width: i32, height: i32, color: u16)
        ensures
            final(self)@ == with_rect(
                old(self)@,
                x as int,
                y as int,
                width as int,
                height as int,
                color,
            ),
            final(self).typeface() == old(self).typeface(),
    {
        let ghost goal = with_rect(
            old(self)@,
            x as int,
            y as int,
            width as int,
            height as int,
            color,
        );
        let x: i64 = x as i64;
        let y: i64 = y as i64;
        let width: i64 = width as i64;
        let height: i64 = height as i64;
        if x >= 64 || y >= 64 || x + width <= 0 || y + height <= 0 {
            assert(self@ =~= goal);
            return ;
        }
        let start_row: i64 = if y < 0 { -y } else { 0 };
        let end_row: i64 = if y + height > 64 { 64 - y } else { height };
        let start_col: i64 = if x < 0 { -x } else { 0 };
        let end_col: i64 = if x + width > 64 { 64 - x } else { width };
        let mut row: i64 = start_row;
        while row < end_row
            invariant
                0 <= start_row <= row,
                -0x8000_0000 <= x < 64,
                -0x8000_0000 <= y < 64,
                -0x8000_0000 <= width < 0x8000_0000,
                -0x8000_0000 <= height < 0x8000_0000,
                start_row == clip_start(y as int),
                end_row == clip_end(y as int, height as int),
                start_col == clip_start(x as int),
                end_col == clip_end(x as int, width as int),
                self.typeface() == old(self).typeface(),
                goal == with_rect(old(self)@, x as int, y as int, width as int, height as int, color),
                forall|i: int|
                    0 <= i < 4096 ==> #[trigger] self@[i] == if cell_y(i) < y + row {
                        goal[i]
                    } else {
                        old(self)@[i]
                    },
            decreases end_row - row,
        {
            let dest_y: i64 = y + row;
            let dest_index_base: i64 = dest_y * 64;
            let mut col: i64 = start_col;
            while col < end_col
                invariant
                    0 <= start_row <= row < end_row,
                    0 <= start_col <= col,
                    dest_y == y + row,
                    dest_index_base == dest_y * 64,
                    -0x8000_0000 <= x < 64,
                    -0x8000_0000 <= y < 64,
                    -0x8000_0000 <= width < 0x8000_0000,
                    -0x8000_0000 <= height < 0x8000_0000,
                    start_row == clip_start(y as int),
                    end_row == clip_end(y as int, height as int),
                    start_col == clip_start(x as int),
                    end_col == clip_end(x as int, width as int),
                    self.typeface() == old(self).typeface(),
                    goal == with_rect(
                        old(self)@,
                        x as int,
                        y as int,
                        width as int,
                        height as int,
                        color,
                    ),
                    forall|i: int|
                        0 <= i < 4096 ==> #[trigger] self@[i] == if cell_y(i) < dest_y || (cell_y(i)
                            == dest_y && cell_x(i) < x + col) {
                            goal[i]
                        } else {
                            old(self)@[i]
                        },
                decreases end_col - col,
            {
                let dest_x: i64 = x + col;
                let dest_index = (dest_index_base + dest_x) as usize;
                let ghost prev = self@;
                self.pixel_buffer[dest_index] = color;
                assert(self@ == prev.update(dest_index as int, color));
                assert(cell_y(dest_index as int) == dest_y);
                assert(cell_x(dest_index as int) == dest_x);
                col += 1;
            }
            row += 1;
        }
        assert(self@ =~= goal);
    }

    /// Writes `text` in `color` with the pen starting at (`x`, `y`). Each
    /// character that the font has a glyph for is stamped at the pen and moves
    /// the pen right by the glyph's advance; other characters are passed over.
    /// Without a font nothing is written.
    pub fn print(&mut self, text: &str, x: i32, y: i32, color: u16)
        requires
            old(self).well_formed(),
        ensures
            final(self).typeface() == old(self).typeface(),
            match old(self).typeface() {
                Some(font) => final(self)@ == with_text(
                    old(self)@,
                    font,
                    text@,
                    x as int,
                    y as int,
                    text@.len(),
                    color,
                ),
                None => final(self)@ == old(self)@,
            },
    {
        if let Some(font) = self.font {
            // A pen this far right stays where it is: no glyph reaches the grid
            // from there, nor from anywhere further right.
            let mut cursor_x: i64 = x as i64;
            let cursor_y: i64 = y as i64;
            assert(self@ =~= with_text(old(self)@, font, text@, x as int, y as int, 0, color));
            for c in it: text.chars()
                invariant
                    it.seq() == text@,
                    font.well_formed(),
                    old(self).typeface() == Some(font),
                    self.typeface() == old(self).typeface(),
                    cursor_y == y,
                    -0x8000_0000 <= cursor_x < 0x8000_0000,
                    cursor_x == font.pen_x(text@, x as int, it.index() as nat) || (cursor_x
                        >= PEN_LIMIT && font.pen_x(text@, x as int, it.index() as nat) >= cursor_x),
                    self@ == with_text(
                        old(self)@,
                        font,
                        text@,
                        x as int,
                        y as int,
                        it.index() as nat,
                        color,
                    ),
            {
                let ghost count = it.index() as nat;
                let ghost pen = font.pen_x(text@, x as int, count);
                let ghost before = self@;
                match font.glyph_for(c) {
                    Some(glyph) => {
                        stamp_glyph(&mut self.pixel_buffer, &font, &glyph, cursor_x, cursor_y, color);
                        proof {
                            assert forall|i: int| 0 <= i < 4096 implies font.glyph_covers(
                                glyph,
                                cursor_x as int,
                                y as int,
                                cell_x(i),
                                cell_y(i),
                            ) == font.glyph_covers(glyph, pen, y as int, cell_x(i), cell_y(i)) by {}
                            assert(self@ =~= with_text(
                                old(self)@,
                                font,
                                text@,
                                x as int,
                                y as int,
                                count + 1,
                                color,
                            ));
                        }
                        if cursor_x < PEN_LIMIT {
                            cursor_x += glyph.x_advance as i64;
                        }
                    },
                    None => {
                        assert(self@ =~= with_text(
                            old(self)@,
                            font,
                            text@,
                            x as int,
                            y as int,
                            count + 1,
                            color,
                        ));
                    },
                }
            }
        }
    }

    /// Sets the font that `print` writes in.
    pub fn set_font(&mut self, font: GFXfont<'static>)
        requires
            font.well_formed(),
        ensures
            final(self).typeface() == Some(font),
            final(self)@ == old(self)@,
    {
        self.font = Some(font);
    }
}

} // verus!
