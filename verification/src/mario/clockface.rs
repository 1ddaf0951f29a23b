//! The clock face: sky, ground, a hill, a bush and two drifting clouds, the
//! figure, and two blocks that show the hour and the minute.

use vstd::prelude::*;
use crate::display::fill_rect;
use crate::display::lemma_same_typeface_same_frame;
use crate::display::rgb888_of;
use crate::display::with_sprite;
use crate::engine::font::GFXfont;
use crate::engine::font::GFXglyph;
use crate::engine::object::Object;
use crate::engine::sprite::Event;
use crate::engine::tile::tiles_per_row;
use crate::engine::tile::with_tiles;
use crate::engine::tile::Tile;
use crate::framebuffer::filled;
use crate::framebuffer::stored;
use crate::framebuffer::FrameBuffer;
use crate::framebuffer::Rgb;
use crate::mario::gfx::assets::BLACK;
use crate::mario::gfx::assets::BLOCK;
use crate::mario::gfx::assets::BUSH;
use crate::mario::gfx::assets::CLOUD1;
use crate::mario::gfx::assets::CLOUD2;
use crate::mario::gfx::assets::GROUND;
use crate::mario::gfx::assets::HILL;
use crate::mario::gfx::assets::SKY_COLOR;
use crate::mario::gfx::block;
use crate::mario::gfx::block::Block;
use crate::mario::gfx::block::BlockView;
use crate::mario::gfx::font::glyph_entries;
use crate::mario::gfx::font::is_super_mario_bros_24pt;
use crate::mario::gfx::font::super_mario_bros_24pt;
use crate::mario::gfx::font::super_mario_bros_24pt_glyphs;
use crate::mario::gfx::font::SUPER_MARIO_BROS_24PT_BITMAPS;
use crate::mario::gfx::mario;
use crate::mario::gfx::mario::sky;
use crate::mario::gfx::mario::Mario;
use crate::mario::gfx::mario::MarioView;

verus! {

/// The clouds move once in this many frames.
pub const CLOUD_MOVE_INTERVAL: u32 = 100;

/// Pixels a cloud moves when it moves.
pub const CLOUD_PIXELS_PER_MOVE: i32 = 1;

/// The width that a cloud must have left the frame by before it comes back.
pub const CLOUD_SPAN: i32 = 24;

/// Columns of the frame.
pub const COLS: i32 = 64;

/// Rows of the frame.
pub const ROWS: i32 = 64;

/// Where a cloud is after the frame numbered `frame_count`: every
/// `CLOUD_MOVE_INTERVAL` frames it drifts one pixel to the left, and once it has
/// left the frame by its span it comes back in at the right edge.
pub open spec fn drifted(x: int, width: int, frame_count: int) -> int {
    if frame_count % (CLOUD_MOVE_INTERVAL as int) == 0 {
        if x - CLOUD_PIXELS_PER_MOVE + width < 0 {
            COLS as int
        } else {
            x - CLOUD_PIXELS_PER_MOVE
        }
    } else {
        x
    }
}

/// The number of a frame after the frame numbered `frame_count`; the count
/// starts over after the largest number.
pub open spec fn next_frame(frame_count: int) -> int {
    if frame_count == u32::MAX {
        0
    } else {
        frame_count + 1
    }
}

/// `grid` with the scenery drawn over it: the sky everywhere, the ground along
/// the lower edge, the bush, the hill, and the clouds where they have drifted.
pub open spec fn with_scenery(grid: Seq<Seq<Rgb>>, cloud1_x: int, cloud2_x: int) -> Seq<Seq<Rgb>> {
    let sky_only = filled(grid, 0, 0, ROWS as int, COLS as int, sky());
    let ground = with_tiles(sky_only, COLS - 8, GROUND@, 8, 8, tiles_per_row(8));
    let bush = with_sprite(ground, 43, 47, BUSH@, 21, 9);
    let hill = with_sprite(bush, 0, 34, HILL@, 20, 22);
    let cloud1 = with_sprite(hill, cloud1_x, 21, CLOUD1@, 13, 12);
    with_sprite(cloud1, cloud2_x, 7, CLOUD2@, 13, 12)
}

/// The clock face.
pub struct Clockface {
    ground: Tile,
    bush: Object,
    cloud1: Object,
    cloud2: Object,
    hill: Object,
    mario: Mario,
    hour_block: Block,
    minute_block: Block,
    cloud1_x: i32,
    cloud2_x: i32,
    frame_count: u32,
    glyphs: [GFXglyph; 95],
}

impl Clockface {
    /// The figure.
    pub closed spec fn mario(&self) -> MarioView {
        self.mario@
    }

    /// The block that shows the hour.
    pub closed spec fn hour_block(&self) -> BlockView {
        self.hour_block@
    }

    /// The block that shows the minute.
    pub closed spec fn minute_block(&self) -> BlockView {
        self.minute_block@
    }

    /// The column of the left edge of the lower cloud.
    pub closed spec fn cloud1_x(&self) -> int {
        self.cloud1_x as int
    }

    /// The column of the left edge of the upper cloud.
    pub closed spec fn cloud2_x(&self) -> int {
        self.cloud2_x as int
    }

    /// The number of the last frame.
    pub closed spec fn frame_count(&self) -> int {
        self.frame_count as int
    }

    /// Whether the pieces of the clock face are what `new` made of them and
    /// `update_scenery` and the updates of the figure and the blocks changed.
    pub closed spec fn well_formed(&self) -> bool {
        &&& self.mario.well_formed()
        &&& self.hour_block.well_formed()
        &&& self.minute_block.well_formed()
        &&& -CLOUD_SPAN <= self.cloud1_x <= COLS
        &&& -CLOUD_SPAN <= self.cloud2_x <= COLS
        &&& self.glyphs@ == glyph_entries()
        &&& self.ground.image() == GROUND@ && self.ground.width() == 8 && self.ground.spec_height()
            == 8
        &&& self.bush.image() == BUSH@ && self.bush.width() == 21 && self.bush.height() == 9
        &&& self.cloud1.image() == CLOUD1@ && self.cloud1.width() == 13 && self.cloud1.height()
            == 12
        &&& self.cloud2.image() == CLOUD2@ && self.cloud2.width() == 13 && self.cloud2.height()
            == 12
        &&& self.hill.image() == HILL@ && self.hill.width() == 20 && self.hill.height() == 22
    }

    /// The clock face at the start: the figure on the ground, the blocks above
    /// it, one cloud at the left edge and one further right.
    pub fn new() -> (face: Self)
        ensures
            face.well_formed(),
            face.mario() == mario::standing(23, 40),
            face.hour_block() == block::resting(13, 8),
            face.minute_block() == block::resting(32, 8),
            face.cloud1_x() == 0,
            face.cloud2_x() == 51,
            face.frame_count() == 0,
    {
        Clockface {
            ground: Tile::new(&GROUND, 8, 8),
            bush: Object::new(&BUSH, 21, 9),
            cloud1: Object::new(&CLOUD1, 13, 12),
            cloud2: Object::new(&CLOUD2, 13, 12),
            hill: Object::new(&HILL, 20, 22),
            mario: Mario::new(23, 40),
            hour_block: Block::new(13, 8),
            minute_block: Block::new(32, 8),
            cloud1_x: 0,
            cloud2_x: 51,
            frame_count: 0,
            glyphs: super_mario_bros_24pt_glyphs(),
        }
    }

    /// Lets a cloud drift.
    fn update_cloud_position(x: &mut i32, width: i32, frame_count: u32)
        requires
            -CLOUD_SPAN <= *old(x) <= COLS,
            width == CLOUD_SPAN,
        ensures
            *final(x) == drifted(*old(x) as int, width as int, frame_count as int),
            -CLOUD_SPAN <= *final(x) <= COLS,
    {
        if frame_count % CLOUD_MOVE_INTERVAL == 0 {
            *x -= CLOUD_PIXELS_PER_MOVE;
            if *x + width < 0 {
                *x = COLS;
            }
        }
    }

    /// Begins a frame: counts it, lets the clouds drift, and draws the scenery
    /// over the whole frame.
    pub fn update_scenery(&mut self, fb: &mut FrameBuffer)
        requires
            old(self).well_formed(),
        ensures
            final(self).well_formed(),
            final(self).frame_count() == next_frame(old(self).frame_count()),
            final(self).cloud1_x() == drifted(
                old(self).cloud1_x(),
                CLOUD_SPAN as int,
                final(self).frame_count(),
            ),
            final(self).cloud2_x() == drifted(
                old(self).cloud2_x(),
                CLOUD_SPAN as int,
                final(self).frame_count(),
            ),
            final(self).mario() == old(self).mario(),
            final(self).hour_block() == old(self).hour_block(),
            final(self).minute_block() == old(self).minute_block(),
            final(fb)@ == with_scenery(old(fb)@, final(self).cloud1_x(), final(self).cloud2_x()),
    {
        self.frame_count = self.frame_count.wrapping_add(1);
        fill_rect(fb, 0, 0, ROWS as u32, COLS as u32, SKY_COLOR);
        Self::update_cloud_position(&mut self.cloud1_x, CLOUD_SPAN, self.frame_count);
        Self::update_cloud_position(&mut self.cloud2_x, CLOUD_SPAN, self.frame_count);
        self.ground.fill_row(COLS - self.ground.height(), fb);
        self.bush.draw(43, 47, fb);
        self.hill.draw(0, 34, fb);
        self.cloud1.draw(self.cloud1_x, 21, fb);
        self.cloud2.draw(self.cloud2_x, 7, fb);
    }

    /// Takes the figure through one frame; see [`Mario::update`].
    pub fn update_mario(
        &mut self,
        fb: &mut FrameBuffer,
        second: u32,
        current_millis: u64,
        incoming: Option<Event>,
    ) -> (outgoing: Option<Event>)
        requires
            old(self).well_formed(),
        ensures
            final(self).well_formed(),
            final(self).mario() == mario::updated(
                old(self).mario(),
                second as int,
                current_millis as int,
                incoming,
            ),
            outgoing == mario::said(
                old(self).mario(),
                second as int,
                current_millis as int,
                incoming,
            ),
            final(fb)@ == mario::with_mario(
                old(fb)@,
                old(self).mario(),
                second as int,
                current_millis as int,
                incoming,
            ),
            final(self).hour_block() == old(self).hour_block(),
            final(self).minute_block() == old(self).minute_block(),
            final(self).cloud1_x() == old(self).cloud1_x(),
            final(self).cloud2_x() == old(self).cloud2_x(),
            final(self).frame_count() == old(self).frame_count(),
    {
        self.mario.update(fb, second, current_millis, incoming)
    }

    /// Takes the block of the hour through one frame; see [`Block::update`].
    pub fn update_hour_block(
        &mut self,
        fb: &mut FrameBuffer,
        hour: u32,
        current_millis: u64,
        incoming: Option<Event>,
    ) -> (outgoing: Option<Event>)
        requires
            old(self).well_formed(),
        ensures
            final(self).well_formed(),
            final(self).hour_block() == block::updated(
                old(self).hour_block(),
                hour as int,
                current_millis as int,
                incoming,
            ),
            outgoing == block::said(old(self).hour_block(), incoming),
            forall|font: GFXfont|
                #[trigger] is_super_mario_bros_24pt(font) ==> final(fb)@ == block::with_block(
                    old(fb)@,
                    font,
                    final(self).hour_block(),
                ),
            final(self).mario() == old(self).mario(),
            final(self).minute_block() == old(self).minute_block(),
            final(self).cloud1_x() == old(self).cloud1_x(),
            final(self).cloud2_x() == old(self).cloud2_x(),
            final(self).frame_count() == old(self).frame_count(),
    {
        let font = super_mario_bros_24pt(&SUPER_MARIO_BROS_24PT_BITMAPS, &self.glyphs);
        let outgoing = self.hour_block.update(fb, &font, hour, current_millis, incoming);
        proof {
            let shown = self.hour_block@;
            assert forall|other: GFXfont| #[trigger] is_super_mario_bros_24pt(other) implies fb@
                == block::with_block(old(fb)@, other, shown) by {
                lemma_same_typeface_same_frame(
                    with_sprite(old(fb)@, shown.x, shown.y, BLOCK@, shown.width, shown.height),
                    font,
                    other,
                    shown.text,
                    block::text_x(shown),
                    block::text_y(shown),
                    shown.text.len(),
                    stored(rgb888_of(BLACK)),
                );
            }
        }
        outgoing
    }

    /// Takes the block of the minute through one frame; see [`Block::update`].
    pub fn update_minute_block(
        &mut self,
        fb: &mut FrameBuffer,
        minute: u32,
        current_millis: u64,
        incoming: Option<Event>,
    ) -> (outgoing: Option<Event>)
        requires
            old(self).well_formed(),
        ensures
            final(self).well_formed(),
            final(self).minute_block() == block::updated(
                old(self).minute_block(),
                minute as int,
                current_millis as int,
                incoming,
            ),
            outgoing == block::said(old(self).minute_block(), incoming),
            forall|font: GFXfont|
                #[trigger] is_super_mario_bros_24pt(font) ==> final(fb)@ == block::with_block(
                    old(fb)@,
                    font,
                    final(self).minute_block(),
                ),
            final(self).mario() == old(self).mario(),
            final(self).hour_block() == old(self).hour_block(),
            final(self).cloud1_x() == old(self).cloud1_x(),
            final(self).cloud2_x() == old(self).cloud2_x(),
            final(self).frame_count() == old(self).frame_count(),
    {
        let font = super_mario_bros_24pt(&SUPER_MARIO_BROS_24PT_BITMAPS, &self.glyphs);
        let outgoing = self.minute_block.update(fb, &font, minute, current_millis, incoming);
        proof {
            let shown = self.minute_block@;
            assert forall|other: GFXfont| #[trigger] is_super_mario_bros_24pt(other) implies fb@
                == block::with_block(old(fb)@, other, shown) by {
                lemma_same_typeface_same_frame(
                    with_sprite(old(fb)@, shown.x, shown.y, BLOCK@, shown.width, shown.height),
                    font,
                    other,
                    shown.text,
                    block::text_x(shown),
                    block::text_y(shown),
                    shown.text.len(),
                    stored(rgb888_of(BLACK)),
                );
            }
        }
        outgoing
    }
}

} // verus!
