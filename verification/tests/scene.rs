use mario_clock::display::draw_rgb_bitmap;
use mario_clock::display::fill_rect;
use mario_clock::engine::eventbus::EventBus;
use mario_clock::engine::eventbus::MAX_SUBS;
use mario_clock::engine::font::GFXglyph;
use mario_clock::engine::sprite::Event;
use mario_clock::engine::sprite::SpriteInfo;
use mario_clock::framebuffer::FrameBuffer;
use mario_clock::framebuffer::Rgb;
use mario_clock::mario::clockface::Clockface;
use mario_clock::mario::gfx::assets::BLOCK;
use mario_clock::mario::gfx::assets::BUSH;
use mario_clock::mario::gfx::assets::CLOUD1;
use mario_clock::mario::gfx::assets::CLOUD2;
use mario_clock::mario::gfx::assets::GROUND;
use mario_clock::mario::gfx::assets::HILL;
use mario_clock::mario::gfx::assets::MARIO_IDLE;
use mario_clock::mario::gfx::assets::MARIO_JUMP;
use mario_clock::mario::gfx::assets::SKY_COLOR;
use mario_clock::mario::gfx::block::Block;
use mario_clock::mario::gfx::font::super_mario_bros_24pt;
use mario_clock::mario::gfx::font::super_mario_bros_24pt_glyphs;
use mario_clock::mario::gfx::font::SUPER_MARIO_BROS_24PT_BITMAPS;
use mario_clock::mario::gfx::mario::Mario;

const BLACK: Rgb = Rgb { r: 0, g: 0, b: 0 };

fn info(name: &'static str, x: i8, y: i8, width: u8, height: u8) -> SpriteInfo {
    SpriteInfo { name, x, y, width, height }
}

fn same(a: &FrameBuffer, b: &FrameBuffer) -> bool {
    (0..64).all(|y| (0..64).all(|x| a.get(x, y) == b.get(x, y)))
}

fn sky() -> FrameBuffer {
    let mut fb = FrameBuffer::new();
    fill_rect(&mut fb, 0, 0, 64, 64, SKY_COLOR);
    fb
}

fn moved(event: Option<Event>) -> Option<(String, i8, i8, u8, u8)> {
    match event {
        Some(Event::Move(i)) => Some((i.name.to_string(), i.x, i.y, i.width, i.height)),
        _ => None,
    }
}

fn collided(event: Option<Event>) -> Option<(String, i8, i8, u8, u8)> {
    match event {
        Some(Event::Collision(i)) => Some((i.name.to_string(), i.x, i.y, i.width, i.height)),
        _ => None,
    }
}

#[test]
fn rectangles_overlap_or_do_not() {
    let a = info("a", 10, 10, 5, 5);
    assert!(a.collided_with(&info("b", 14, 14, 5, 5)));
    assert!(a.collided_with(&info("b", 6, 6, 5, 5)));
    assert!(a.collided_with(&a));
    assert!(a.collided_with(&info("b", 11, 11, 1, 1)));
    assert!(!a.collided_with(&info("b", 15, 10, 5, 5)));
    assert!(!a.collided_with(&info("b", 10, 15, 5, 5)));
    assert!(!a.collided_with(&info("b", 5, 10, 5, 5)));
    assert!(!a.collided_with(&info("b", 10, 5, 5, 5)));
    // A piece without extent overlaps where it lies inside another.
    assert!(a.collided_with(&info("b", 12, 12, 0, 0)));
    assert!(!a.collided_with(&info("b", 10, 10, 0, 0)));
    assert!(!a.collided_with(&info("b", 15, 15, 0, 0)));
    assert!(a.collided_with(&info("b", -128, -128, 127, 127)) == false);
    assert!(info("c", 100, 100, 27, 27).collided_with(&info("d", 120, 120, 7, 7)));
    // An extent above 127 reads as a negative one.
    assert!(!info("e", 0, 0, 200, 200).collided_with(&info("f", 10, 10, 5, 5)));
}

#[test]
fn a_bus_takes_five_subscribers() {
    let mut bus = EventBus::new();
    assert_eq!(MAX_SUBS, 5);
    assert_eq!(bus.len(), 0);
    assert!(bus.broadcast("MARIO").is_empty());
    for name in ["MARIO", "Block", "Block", "Cloud", "MARIO"] {
        assert!(bus.subscribe(name));
    }
    assert!(!bus.subscribe("Late"));
    assert_eq!(bus.len(), 5);
    assert_eq!(bus.broadcast("MARIO"), vec![1, 2, 3]);
    assert_eq!(bus.broadcast("Block"), vec![0, 3, 4]);
    assert_eq!(bus.broadcast("Late"), vec![0, 1, 2, 3, 4]);
    assert_eq!(bus.broadcast("mario"), vec![0, 1, 2, 3, 4]);
}

#[test]
fn a_block_shows_two_digits() {
    let glyphs = super_mario_bros_24pt_glyphs();
    let font = super_mario_bros_24pt(&SUPER_MARIO_BROS_24PT_BITMAPS, &glyphs);
    let mut block = Block::new(13, 8);
    assert_eq!(block.text(), "");
    assert_eq!((block.x(), block.y(), block.width(), block.height()), (13, 8, 19, 19));
    assert_eq!(block.name(), "Block");
    for (value, text) in [(0u32, "00"), (7, "07"), (10, "10"), (59, "59"), (99, "99")] {
        let mut fb = sky();
        assert!(block.update(&mut fb, &font, value, 0, None).is_none());
        assert_eq!(block.text(), text);
    }
    for value in [100u32, 101, 1000, u32::MAX] {
        let mut fb = sky();
        block.update(&mut fb, &font, value, 0, None);
        assert_eq!(block.text(), "");
    }
}

#[test]
fn a_block_takes_a_text_of_two_bytes() {
    let mut block = Block::new(0, 0);
    block.set_text("ab");
    assert_eq!(block.text(), "ab");
    block.set_text("c");
    assert_eq!(block.text(), "c");
    block.set_text("abc");
    assert_eq!(block.text(), "");
    block.set_text("\u{e9}");
    assert_eq!(block.text(), "\u{e9}");
    block.set_text("\u{20ac}");
    assert_eq!(block.text(), "");
    block.set_text("");
    assert_eq!(block.text(), "");
}

#[test]
fn a_block_is_drawn_with_its_number_in_black() {
    let glyphs = super_mario_bros_24pt_glyphs();
    let font = super_mario_bros_24pt(&SUPER_MARIO_BROS_24PT_BITMAPS, &glyphs);
    let mut block = Block::new(13, 8);
    let mut fb = sky();
    block.update(&mut fb, &font, 12, 0, None);
    let mut bare = sky();
    draw_rgb_bitmap(&mut bare, 13, 8, &BLOCK, 19, 19);
    let mut ink = 0;
    for y in 0..64 {
        for x in 0..64 {
            if fb.get(x, y) != bare.get(x, y) {
                assert_eq!(fb.get(x, y), Some(BLACK));
                assert!((15..32).contains(&x) && (14..21).contains(&y));
                ink += 1;
            }
        }
    }
    assert!(ink > 10);
    assert_eq!(fb.get(14, 8), Some(Rgb { r: 64, g: 8, b: 0 }));
    assert_eq!(fb.get(13, 8), Some(Rgb { r: 0, g: 0, b: 27 }));
    // One digit alone sits further right.
    block.set_text("1");
    assert_eq!(block.text(), "1");
}

#[test]
fn a_block_that_is_hit_rises_and_falls_back() {
    let glyphs = super_mario_bros_24pt_glyphs();
    let font = super_mario_bros_24pt(&SUPER_MARIO_BROS_24PT_BITMAPS, &glyphs);
    let mut block = Block::new(13, 8);
    let mut fb = sky();
    let mover = Event::Move(info("MARIO", 15, 20, 17, 16));
    let said = block.update(&mut fb, &font, 7, 1000, Some(mover));
    assert_eq!(collided(said), Some(("Block".to_string(), 13, 8, 19, 19)));
    assert_eq!(block.y(), 8);
    let mut heights = Vec::new();
    for step in 1..=6u64 {
        assert!(block.update(&mut fb, &font, 7, 1000 + 60 * step, None).is_none());
        heights.push(block.y());
    }
    assert_eq!(heights, vec![6, 4, 6, 8, 8, 8]);
    // Too early for the next frame: the block stays where it is.
    let mut block = Block::new(13, 8);
    block.update(&mut fb, &font, 7, 1000, Some(mover));
    block.update(&mut fb, &font, 7, 1059, None);
    assert_eq!(block.y(), 8);
    block.update(&mut fb, &font, 7, 1060, None);
    assert_eq!(block.y(), 6);
    block.update(&mut fb, &font, 7, 1119, Some(mover));
    assert_eq!(block.y(), 6);
    block.update(&mut fb, &font, 7, 900, None);
    assert_eq!(block.y(), 6);
}

#[test]
fn a_block_ignores_what_does_not_hit_it() {
    let glyphs = super_mario_bros_24pt_glyphs();
    let font = super_mario_bros_24pt(&SUPER_MARIO_BROS_24PT_BITMAPS, &glyphs);
    let mut fb = sky();
    for event in [
        Event::Move(info("Block", 15, 20, 17, 16)),
        Event::Move(info("MARIO", 40, 40, 17, 16)),
        Event::Move(info("MARIO", 15, 27, 17, 16)),
        Event::Collision(info("MARIO", 15, 20, 17, 16)),
        Event::JumpTrigger,
        Event::TimeUpdate { hour: 1, minute: 2 },
    ] {
        let mut block = Block::new(13, 8);
        assert!(block.update(&mut fb, &font, 7, 1000, Some(event)).is_none());
        block.update(&mut fb, &font, 7, 2000, None);
        assert_eq!(block.y(), 8);
    }
}

#[test]
fn the_figure_stands_until_the_seconds_reach_a_multiple_of_ten() {
    let mut mario = Mario::new(23, 40);
    assert_eq!(mario.name(), "MARIO");
    assert_eq!((mario.x(), mario.y(), mario.width(), mario.height()), (23, 40, 13, 16));
    for second in [1u32, 9, 11, 59] {
        let mut fb = sky();
        assert!(mario.update(&mut fb, second, 10_000, None).is_none());
        assert_eq!(mario.y(), 40);
        let mut expected = sky();
        draw_rgb_bitmap(&mut expected, 23, 40, &MARIO_IDLE, 13, 16);
        assert!(same(&fb, &expected));
    }
    // Not rested long enough.
    let mut fb = sky();
    assert!(mario.update(&mut fb, 10, 500, None).is_none());
    assert_eq!(mario.width(), 13);
}

#[test]
fn the_figure_jumps_up_and_comes_down() {
    let mut mario = Mario::new(23, 40);
    let mut fb = sky();
    let mut heights = Vec::new();
    let mut now = 1000u64;
    let first = mario.update(&mut fb, 10, now, None);
    assert_eq!(moved(first), Some(("MARIO".to_string(), 23, 37, 17, 16)));
    heights.push(mario.y());
    let mut expected = sky();
    draw_rgb_bitmap(&mut expected, 23, 37, &MARIO_JUMP, 17, 16);
    assert!(same(&fb, &expected));
    for _ in 0..12 {
        now += 50;
        let said = mario.update(&mut fb, 10, now, None);
        heights.push(mario.y());
        if mario.width() == 17 {
            assert_eq!(moved(said), Some(("MARIO".to_string(), 23, mario.y(), 17, 16)));
        }
    }
    assert_eq!(heights, vec![37, 34, 31, 28, 25, 28, 31, 34, 37, 40, 40, 40, 40]);
    assert_eq!(mario.width(), 13);
    let mut landed = sky();
    draw_rgb_bitmap(&mut landed, 23, 40, &MARIO_IDLE, 13, 16);
    assert!(same(&fb, &landed));
    // The figure landed at 1450. The next jump waits for more than half a
    // second after that.
    assert_eq!(now, 1600);
    assert!(mario.update(&mut fb, 20, 1950, None).is_none());
    assert_eq!(mario.y(), 40);
    assert!(mario.update(&mut fb, 20, 1951, None).is_some());
    assert_eq!(mario.y(), 37);
}

#[test]
fn the_figure_moves_only_when_a_frame_is_due() {
    let mut mario = Mario::new(23, 40);
    let mut fb = sky();
    mario.update(&mut fb, 0, 1000, None);
    assert_eq!(mario.y(), 37);
    assert!(mario.update(&mut fb, 0, 1049, None).is_none());
    assert_eq!(mario.y(), 37);
    assert!(mario.update(&mut fb, 0, 999, None).is_none());
    assert_eq!(mario.y(), 37);
    let mut expected = sky();
    draw_rgb_bitmap(&mut expected, 23, 37, &MARIO_JUMP, 17, 16);
    assert!(same(&fb, &expected));
    assert!(mario.update(&mut fb, 3, 1050, None).is_some());
    assert_eq!(mario.y(), 34);
}

#[test]
fn the_figure_turns_back_when_it_runs_into_a_block() {
    let mut mario = Mario::new(23, 40);
    let mut fb = sky();
    mario.update(&mut fb, 10, 1000, None);
    mario.update(&mut fb, 10, 1050, None);
    assert_eq!(mario.y(), 34);
    // Its own name and other events do not turn it.
    mario.update(&mut fb, 10, 1100, Some(Event::Collision(info("MARIO", 0, 0, 1, 1))));
    assert_eq!(mario.y(), 31);
    mario.update(&mut fb, 10, 1150, Some(Event::Move(info("Block", 0, 0, 1, 1))));
    assert_eq!(mario.y(), 28);
    let said = mario.update(&mut fb, 10, 1200, Some(Event::Collision(info("Block", 13, 8, 19, 19))));
    assert_eq!(moved(said), Some(("MARIO".to_string(), 23, 31, 17, 16)));
    let mut heights = vec![mario.y()];
    for step in 1..=4u64 {
        mario.update(&mut fb, 10, 1200 + 50 * step, None);
        heights.push(mario.y());
    }
    assert_eq!(heights, vec![31, 34, 37, 40, 40]);
    // A figure on the ground does not mind.
    let mut resting = Mario::new(23, 40);
    resting.update(&mut fb, 5, 1000, Some(Event::Collision(info("Block", 13, 8, 19, 19))));
    assert_eq!(resting.y(), 40);
}

#[test]
fn the_scenery_is_the_sum_of_its_parts() {
    let mut face = Clockface::new();
    let mut fb = FrameBuffer::new();
    face.update_scenery(&mut fb);
    let mut expected = sky();
    for i in 0..8 {
        draw_rgb_bitmap(&mut expected, 8 * i, 56, &GROUND, 8, 8);
    }
    draw_rgb_bitmap(&mut expected, 43, 47, &BUSH, 21, 9);
    draw_rgb_bitmap(&mut expected, 0, 34, &HILL, 20, 22);
    draw_rgb_bitmap(&mut expected, 0, 21, &CLOUD1, 13, 12);
    draw_rgb_bitmap(&mut expected, 51, 7, &CLOUD2, 13, 12);
    assert!(same(&fb, &expected));
    assert_eq!(fb.get(0, 0), Some(Rgb { r: 0, g: 0, b: 27 }));
    // Whatever was on the frame is gone.
    let mut other = FrameBuffer::new();
    other.fill(0, 0, 64, 64, Rgb { r: 255, g: 255, b: 255 });
    let mut again = Clockface::new();
    again.update_scenery(&mut other);
    assert!(same(&other, &expected));
}

#[test]
fn the_clouds_drift_every_hundredth_frame_and_come_back() {
    let mut face = Clockface::new();
    let mut fb = FrameBuffer::new();
    let cloud_at = |fb: &FrameBuffer, x: i32, y: i32, cloud: &[u16; 156]| {
        let mut expected = sky();
        draw_rgb_bitmap(&mut expected, x, y, cloud, 13, 12);
        (y..y + 12).all(|py| (0..64).all(|px| fb.get(px, py) == expected.get(px, py)))
    };
    for frame in 1..=2600u32 {
        face.update_scenery(&mut fb);
        let moves = (frame / 100) as i32;
        // The upper cloud starts at column 51 and is alone in its rows.
        let upper = if moves <= 75 { 51 - moves } else { 64 - (moves - 76) };
        if frame % 50 == 0 {
            assert!(cloud_at(&fb, upper, 7, &CLOUD2));
        }
    }
}

#[test]
fn the_face_takes_its_pieces_through_a_frame() {
    let glyphs: [GFXglyph; 95] = super_mario_bros_24pt_glyphs();
    let font = super_mario_bros_24pt(&SUPER_MARIO_BROS_24PT_BITMAPS, &glyphs);
    let mut face = Clockface::new();
    let mut fb = FrameBuffer::new();
    face.update_scenery(&mut fb);
    let said = face.update_mario(&mut fb, 30, 1000, None);
    let heard = face.update_hour_block(&mut fb, 12, 1000, said);
    assert!(heard.is_none());
    assert!(face.update_minute_block(&mut fb, 34, 1000, said).is_none());
    // The same by hand.
    let mut expected = FrameBuffer::new();
    let mut other = Clockface::new();
    other.update_scenery(&mut expected);
    let mut mario = Mario::new(23, 40);
    let mut hour = Block::new(13, 8);
    let mut minute = Block::new(32, 8);
    let moved = mario.update(&mut expected, 30, 1000, None);
    hour.update(&mut expected, &font, 12, 1000, moved);
    minute.update(&mut expected, &font, 34, 1000, moved);
    assert!(same(&fb, &expected));
    // The figure reaches the blocks at the top of its jump.
    let mut now = 1000;
    let mut hit = Vec::new();
    for _ in 0..6 {
        now += 50;
        let said = face.update_mario(&mut fb, 30, now, None);
        if face.update_hour_block(&mut fb, 12, now, said).is_some() {
            hit.push(("hour", moved_y(said)));
        }
        if face.update_minute_block(&mut fb, 34, now, said).is_some() {
            hit.push(("minute", moved_y(said)));
        }
    }
    assert_eq!(hit, vec![("hour", 25), ("minute", 25)]);
}

fn moved_y(event: Option<Event>) -> i8 {
    match event {
        Some(Event::Move(i)) => i.y,
        _ => panic!("the figure did not move"),
    }
}
