//! Pieces of a scene that repeat.

use vstd::prelude::*;
use crate::display::draw_rgb_bitmap;
use crate::display::with_sprite;
use crate::framebuffer::FrameBuffer;
use crate::framebuffer::Rgb;
use crate::framebuffer::WIDTH;

verus! {

/// The number of tiles of `width` cells that start inside a row of the frame.
pub open spec fn tiles_per_row(width: int) -> nat {
    ((WIDTH - 1) / width + 1) as nat
}

/// `grid` with the first `count` tiles of a row drawn over it, from the left
/// edge on, each `width` cells to the right of the one before.
pub open spec fn with_tiles(
    grid: Seq<Seq<Rgb>>,
    y: int,
    image: Seq<u16>,
    width: int,
    height: int,
    count: nat,
) -> Seq<Seq<Rgb>>
    decreases count,
{
    if count == 0 {
        grid
    } else {
        with_sprite(
            with_tiles(grid, y, image, width, height, (count - 1) as nat),
            (count - 1) * width,
            y,
            image,
            width,
            height,
        )
    }
}

/// A sprite that is laid side by side: the ground, a wall, a backdrop.
pub struct Tile {
    image: &'static [u16],
    width: i32,
    height: i32,
}

impl Tile {
    /// The cells of the tile, row after row.
    pub closed spec fn image(&self) -> Seq<u16> {
        self.image@
    }

    /// The width of the tile in cells.
    pub closed spec fn width(&self) -> int {
        self.width as int
    }

    /// The height of the tile in cells.
    pub closed spec fn spec_height(&self) -> i32 {
        self.height
    }

    /// A tile of `width` by `height` cells held in `image`.
    pub fn new(image: &'static [u16], width: i32, height: i32) -> (tile: Self)
        ensures
            tile.image() == image@,
            tile.width() == width,
            tile.spec_height() == height,
    {
        Tile { image, width, height }
    }

    /// Lays the tile across the frame from the left edge on, with the upper
    /// edge at row `y`.
    pub fn fill_row(&self, y: i32, fb: &mut FrameBuffer)
        requires
            self.width() >= 1,
        ensures
            final(fb)@ == with_tiles(
                old(fb)@,
                y as int,
                self.image(),
                self.width(),
                self.spec_height() as int,
                tiles_per_row(self.width()),
            ),
    {
        let mut x: i32 = 0;
        let mut count: usize = 0;
        while x < 64
            invariant
                self.width() >= 1,
                0 <= x < 64 + self.width(),
                x < 64 ==> x == count * self.width(),
                count <= 64,
                x < 64 ==> count < tiles_per_row(self.width()),
                x >= 64 ==> count == tiles_per_row(self.width()),
                fb@ == with_tiles(
                    old(fb)@,
                    y as int,
                    self.image(),
                    self.width(),
                    self.spec_height() as int,
                    count as nat,
                ),
            decreases 64 + self.width() - x,
        {
            draw_rgb_bitmap(fb, x, y, self.image, self.width, self.height);
            proof {
                lemma_tile_count(x as int, count as int, self.width());
            }
            if self.width >= 64 {
                x = 64;
            } else {
                x += self.width;
            }
            count += 1;
        }
    }

    /// The height of the tile in cells.
    #[verifier::when_used_as_spec(spec_height)]
    pub fn height(&self) -> (height: i32)
        ensures
            height == self.spec_height(),
    {
        self.height
    }
}

/// Where the tile numbered `count` starts decides whether it is the last one
/// that starts inside the row.
proof fn lemma_tile_count(x: int, count: int, width: int)
    requires
        width >= 1,
        0 <= count,
        x == count * width,
        0 <= x < 64,
    ensures
        x + width < 64 ==> count + 1 < tiles_per_row(width),
        x + width >= 64 ==> count + 1 == tiles_per_row(width),
        (count + 1) * width == x + width,
        count < 64,
{
    assert((count + 1) * width == count * width + width) by (nonlinear_arith);
    assert(count <= x) by (nonlinear_arith)
        requires
            width >= 1,
            0 <= count,
            x == count * width,
    ;
    let q = 63int / width;
    assert(q * width <= 63 < (q + 1) * width) by {
        vstd::arithmetic::div_mod::lemma_fundamental_div_mod(63, width);
        vstd::arithmetic::div_mod::lemma_mod_bound(63, width);
        assert((q + 1) * width == q * width + width) by (nonlinear_arith);
        assert(width * q == q * width) by (nonlinear_arith);
    }
    if x + width < 64 {
        assert((count + 1) * width == count * width + width) by (nonlinear_arith);
        assert(count + 1 <= q) by (nonlinear_arith)
            requires
                (count + 1) * width <= 63,
                63 < (q + 1) * width,
                width >= 1,
        ;
    } else {
        assert((count + 1) * width == count * width + width) by (nonlinear_arith);
        assert(count <= q) by (nonlinear_arith)
            requires
                count * width <= 63,
                63 < (q + 1) * width,
                width >= 1,
        ;
        assert(count >= q) by (nonlinear_arith)
            requires
                (count + 1) * width >= 64,
                q * width <= 63,
                width >= 1,
        ;
    }
}

} // verus!
