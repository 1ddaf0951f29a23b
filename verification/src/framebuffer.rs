//! The pixel grid that the panel driver scans.
//!
//! A frame is a 64 x 64 grid of pixels with three 8-bit channels each. The grid
//! keeps gamma-corrected intensities, not the linear values that were written, so
//! that scanning needs nothing but integer comparisons. Internally the grid is laid
//! out the way the panel takes it: one slot per addressable row, and per column of
//! that slot the intensities of the pixel in the upper half together with those of
//! the pixel 32 rows below it, since one row address lights both at once.

use vstd::prelude::*;
use crate::gamma::gamma;
use crate::gamma::gamma_of;

verus! {

/// Columns of the panel.
pub const WIDTH: usize = 64;

/// Rows of the panel.
pub const HEIGHT: usize = 64;

/// Row addresses of the panel; each lights row `r` and row `r + ADDRESSABLE_ROWS`.
pub const ADDRESSABLE_ROWS: usize = 32;

/// Three 8-bit colour channels.
#[derive(Clone, Copy, Debug, PartialEq, Eq, Structural)]
pub struct Rgb {
    pub r: u8,
    pub g: u8,
    pub b: u8,
}

/// What one column of a row pair shifts into the panel: the intensities of the
/// upper pixel (`r1`, `g1`, `b1`) and of the lower pixel (`r2`, `g2`, `b2`).
#[derive(Clone, Copy, Debug, PartialEq, Eq, Structural)]
pub struct PixelData {
    pub r1: u8,
    pub g1: u8,
    pub b1: u8,
    pub r2: u8,
    pub g2: u8,
    pub b2: u8,
}

/// The colour with every channel off.
pub open spec fn black() -> Rgb {
    Rgb { r: 0, g: 0, b: 0 }
}

/// The intensities that are kept for a pixel written with the linear `color`.
pub open spec fn stored(color: Rgb) -> Rgb {
    Rgb { r: gamma_of(color.r), g: gamma_of(color.g), b: gamma_of(color.b) }
}

/// Whether `(x, y)` names a pixel of the panel.
pub open spec fn in_bounds(x: int, y: int) -> bool {
    0 <= x < WIDTH && 0 <= y < HEIGHT
}

/// Whether the rectangle with corner `(x, y)` and the given extent holds `(px, py)`.
pub open spec fn rect_covers(x: int, y: int, width: int, height: int, px: int, py: int) -> bool {
    x <= px < x + width && y <= py < y + height
}

/// A grid of the panel's size with every channel off.
pub open spec fn blank() -> Seq<Seq<Rgb>> {
    Seq::new(HEIGHT as nat, |y: int| Seq::new(WIDTH as nat, |x: int| black()))
}

/// `grid` with every channel switched off.
pub open spec fn cleared(grid: Seq<Seq<Rgb>>) -> Seq<Seq<Rgb>> {
    Seq::new(grid.len(), |y: int| Seq::new(grid[y].len(), |x: int| black()))
}

/// `grid` with the pixels inside a rectangle replaced by `value`.
pub open spec fn filled(
    grid: Seq<Seq<Rgb>>,
    x: int,
    y: int,
    width: int,
    height: int,
    value: Rgb,
) -> Seq<Seq<Rgb>> {
    Seq::new(
        grid.len(),
        |py: int|
            Seq::new(
                grid[py].len(),
                |px: int|
                    if rect_covers(x, y, width, height, px, py) {
                        value
                    } else {
                        grid[py][px]
                    },
            ),
    )
}

/// The slot column that a grid presents for row address `row` and column `col`.
pub open spec fn slot_of(grid: Seq<Seq<Rgb>>, row: int, col: int) -> PixelData {
    let upper = grid[row][col];
    let lower = grid[row + ADDRESSABLE_ROWS][col];
    PixelData { r1: upper.r, g1: upper.g, b1: upper.b, r2: lower.r, g2: lower.g, b2: lower.b }
}

/// A frame of gamma-corrected intensities.
///
/// Its view is the grid as rows of pixels: `fb@[y][x]` is what is stored for the
/// pixel in column `x` of row `y`.
pub struct FrameBuffer {
    data: [[PixelData; 64]; 32],
}

impl FrameBuffer {
    /// The intensities stored for the pixel at `(x, y)`.
    pub closed spec fn stored_at(&self, x: int, y: int) -> Rgb {
        if y < 32 {
            let slot = self.data[y][x];
            Rgb { r: slot.r1, g: slot.g1, b: slot.b1 }
        } else {
            let slot = self.data[y - 32][x];
            Rgb { r: slot.r2, g: slot.g2, b: slot.b2 }
        }
    }

    /// The frame as `HEIGHT` rows of `WIDTH` pixels.
    pub open spec fn view(&self) -> Seq<Seq<Rgb>> {
        Seq::new(HEIGHT as nat, |y: int| Seq::new(WIDTH as nat, |x: int| self.stored_at(x, y)))
    }

    /// A frame with every pixel off.
    pub fn new() -> (fb: FrameBuffer)
        ensures
            fb@ == blank(),
    {
        let dark = PixelData { r1: 0, g1: 0, b1: 0, r2: 0, g2: 0, b2: 0 };
        let fb = FrameBuffer { data: [[dark; 64]; 32] };
        assert(fb@ =~~= blank());
        fb
    }

    /// Switches every pixel off in one pass over the slots.
    pub fn clear(&mut self)
        ensures
            final(self)@ == cleared(old(self)@),
            final(self)@ == blank(),
    {
        let dark = PixelData { r1: 0, g1: 0, b1: 0, r2: 0, g2: 0, b2: 0 };
        self.data = [[dark; 64]; 32];
        assert(self@ =~~= blank());
        assert(cleared(old(self)@) =~~= blank());
    }

    /// Writes one pixel, keeping the gamma-corrected intensities of `color`.
    /// A position outside the panel is ignored.
    pub fn set(&mut self, x: i32, y: i32, color: Rgb)
        ensures
            in_bounds(x as int, y as int) ==> final(self)@ == old(self)@.update(
                y as int,
                old(self)@[y as int].update(x as int, stored(color)),
            ),
            !in_bounds(x as int, y as int) ==> final(self)@ == old(self)@,
    {
        if x >= 0 && x < 64 && y >= 0 && y < 64 {
            let value = Rgb { r: gamma(color.r), g: gamma(color.g), b: gamma(color.b) };
            self.put(x as usize, y as usize, value);
            assert(self@ =~~= old(self)@.update(
                y as int,
                old(self)@[y as int].update(x as int, stored(color)),
            ));
        }
    }

    /// Fills the part of a rectangle that lies on the panel with `color`.
    pub fn fill(&mut self, x: i32, y: i32, width: u32, height: u32, color: Rgb)
        ensures
            final(self)@ == filled(
                old(self)@,
                x as int,
                y as int,
                width as int,
                height as int,
                stored(color),
            ),
    {
        let value = Rgb { r: gamma(color.r), g: gamma(color.g), b: gamma(color.b) };
        let left: i64 = if x < 0 { 0 } else { x as i64 };
        let top: i64 = if y < 0 { 0 } else { y as i64 };
        let right: i64 = if x as i64 + width as i64 > 64 { 64 } else { x as i64 + width as i64 };
        let bottom: i64 = if y as i64 + height as i64 > 64 { 64 } else { y as i64 + height as i64 };
        let mut py: i64 = top;
        while py < bottom
            invariant
                0 <= top <= py,
                bottom <= 64,
                0 <= left,
                right <= 64,
                top == if y < 0 { 0 } else { y as int },
                left == if x < 0 { 0 } else { x as int },
                right == if x + width > 64 { 64 } else { x + width },
                bottom == if y + height > 64 { 64 } else { y + height },
                forall|qx: int, qy: int|
                    in_bounds(qx, qy) ==> #[trigger] self.stored_at(qx, qy) == if qy < py && rect_covers(
                        x as int,
                        y as int,
                        width as int,
                        height as int,
                        qx,
                        qy,
                    ) {
                        value
                    } else {
                        old(self).stored_at(qx, qy)
                    },
            decreases bottom - py,
        {
            let mut px: i64 = left;
            while px < right
                invariant
                    0 <= top <= py < bottom <= 64,
                    0 <= left <= px,
                    right <= 64,
                    top == if y < 0 { 0 } else { y as int },
                    left == if x < 0 { 0 } else { x as int },
                    right == if x + width > 64 { 64 } else { x + width },
                    bottom == if y + height > 64 { 64 } else { y + height },
                    forall|qx: int, qy: int|
                        in_bounds(qx, qy) ==> #[trigger] self.stored_at(qx, qy) == if (qy < py || (qy == py
                            && qx < px)) && rect_covers(
                            x as int,
                            y as int,
                            width as int,
                            height as int,
                            qx,
                            qy,
                        ) {
                            value
                        } else {
                            old(self).stored_at(qx, qy)
                        },
                decreases right - px,
            {
                self.put(px as usize, py as usize, value);
                px += 1;
            }
            py += 1;
        }
        assert(self@ =~~= filled(
            old(self)@,
            x as int,
            y as int,
            width as int,
            height as int,
            stored(color),
        ));
    }

    /// Reads back what is stored for the pixel at `(x, y)`, if there is such a pixel.
    pub fn get(&self, x: i32, y: i32) -> (pixel: Option<Rgb>)
        ensures
            in_bounds(x as int, y as int) ==> pixel == Some(self@[y as int][x as int]),
            !in_bounds(x as int, y as int) ==> pixel is None,
    {
        if x >= 0 && x < 64 && y >= 0 && y < 64 {
            let col = x as usize;
            if y >= 32 {
                let slot = self.data[(y - 32) as usize][col];
                Some(Rgb { r: slot.r2, g: slot.g2, b: slot.b2 })
            } else {
                let slot = self.data[y as usize][col];
                Some(Rgb { r: slot.r1, g: slot.g1, b: slot.b1 })
            }
        } else {
            None
        }
    }

    /// The slot column that row address `row` shifts out for column `col`.
    pub fn column(&self, row: usize, col: usize) -> (slot: PixelData)
        requires
            row < ADDRESSABLE_ROWS,
            col < WIDTH,
        ensures
            slot == slot_of(self@, row as int, col as int),
    {
        self.data[row][col]
    }

    /// Stores `value` as it is for the pixel at `(x, y)`.
    fn put(&mut self, x: usize, y: usize, value: Rgb)
        requires
            x < WIDTH,
            y < HEIGHT,
        ensures
            forall|px: int, py: int|
                in_bounds(px, py) ==> #[trigger] final(self).stored_at(px, py) == if px == x && py == y {
                    value
                } else {
                    old(self).stored_at(px, py)
                },
    {
        let row = if y >= 32 { y - 32 } else { y };
        let mut slot = self.data[row][x];
        if y >= 32 {
            slot.r2 = value.r;
            slot.g2 = value.g;
            slot.b2 = value.b;
        } else {
            slot.r1 = value.r;
            slot.g1 = value.g;
            slot.b1 = value.b;
        }
        self.data[row][x] = slot;
        proof {
            assert forall|px: int, py: int| in_bounds(px, py) implies self.stored_at(px, py) == if px
                == x && py == y {
                value
            } else {
                old(self).stored_at(px, py)
            } by {
                if py < 32 {
                    assert(self.data[py][px] == if py == row && px == x {
                        slot
                    } else {
                        old(self).data[py][px]
                    });
                } else {
                    assert(self.data[py - 32][px] == if py - 32 == row && px == x {
                        slot
                    } else {
                        old(self).data[py - 32][px]
                    });
                }
            }
        }
    }
}

/// Clearing a grid that is already clear changes nothing: clearing twice leaves
/// the same all-dark grid as clearing once.
pub proof fn lemma_clear_idempotent(grid: Seq<Seq<Rgb>>)
    ensures
        cleared(cleared(grid)) == cleared(grid),
        forall|x: int, y: int|
            0 <= y < grid.len() && 0 <= x < grid[y].len() ==> #[trigger] cleared(grid)[y][x]
                == black(),
{
    assert(cleared(cleared(grid)) =~~= cleared(grid));
}

/// A pixel that was written reads back as the gamma-corrected colour, and writing
/// it again with the same colour changes nothing.
pub proof fn lemma_set_overwrites(grid: Seq<Seq<Rgb>>, x: int, y: int, first: Rgb, second: Rgb)
    requires
        0 <= y < grid.len(),
        0 <= x < grid[y].len(),
    ensures
        ({
            let once = grid.update(y, grid[y].update(x, stored(first)));
            let twice = once.update(y, once[y].update(x, stored(second)));
            &&& once[y][x] == stored(first)
            &&& twice == grid.update(y, grid[y].update(x, stored(second)))
        }),
{
    let once = grid.update(y, grid[y].update(x, stored(first)));
    let twice = once.update(y, once[y].update(x, stored(second)));
    assert(twice =~~= grid.update(y, grid[y].update(x, stored(second))));
}

} // verus!
