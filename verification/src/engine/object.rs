//! Free-standing pieces of a scene.

use vstd::prelude::*;
use crate::display::draw_rgb_bitmap;
use crate::display::with_sprite;
use crate::framebuffer::FrameBuffer;

verus! {

/// A sprite that is drawn where the scene wants it: a character, an item, an
/// obstacle.
pub struct Object {
    image: &'static [u16],
    width: i32,
    height: i32,
}

impl Object {
    /// The cells of the sprite, row after row.
    pub closed spec fn image(&self) -> Seq<u16> {
        self.image@
    }

    /// The width of the sprite in cells.
    pub closed spec fn width(&self) -> int {
        self.width as int
    }

    /// The height of the sprite in cells.
    pub closed spec fn height(&self) -> int {
        self.height as int
    }

    /// A sprite of `width` by `height` cells held in `image`.
    pub fn new(image: &'static [u16], width: i32, height: i32) -> (object: Self)
        ensures
            object.image() == image@,
            object.width() == width,
            object.height() == height,
    {
        Object { image, width, height }
    }

    /// Draws the sprite on the frame with its upper left corner at (`x`, `y`).
    pub fn draw(&self, x: i32, y: i32, fb: &mut FrameBuffer)
        ensures
            final(fb)@ == with_sprite(
                old(fb)@,
                x as int,
                y as int,
                self.image(),
                self.width(),
                self.height(),
            ),
    {
        draw_rgb_bitmap(fb, x, y, self.image, self.width, self.height);
    }
}

} // verus!
