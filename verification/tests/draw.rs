use mario_clock::display::draw_rgb_bitmap;
use mario_clock::display::fill_contiguous;
use mario_clock::display::fill_rect;
use mario_clock::display::print_text;
use mario_clock::display::to_rgb888;
use mario_clock::engine::display::Display;
use mario_clock::engine::font::GFXfont;
use mario_clock::engine::font::GFXglyph;
use mario_clock::engine::object::Object;
use mario_clock::engine::tile::Tile;
use mario_clock::framebuffer::FrameBuffer;
use mario_clock::framebuffer::Rgb;
use mario_clock::mario::gfx::assets::GROUND;
use mario_clock::mario::gfx::font::super_mario_bros_24pt;
use mario_clock::mario::gfx::font::super_mario_bros_24pt_glyphs;
use mario_clock::mario::gfx::font::SUPER_MARIO_BROS_24PT_BITMAPS;

const DARK: Rgb = Rgb { r: 0, g: 0, b: 0 };

fn rgb(r: u8, g: u8, b: u8) -> Rgb {
    Rgb { r, g, b }
}

fn lit(fb: &FrameBuffer) -> Vec<(i32, i32, Rgb)> {
    let mut all = Vec::new();
    for y in 0..64 {
        for x in 0..64 {
            let p = fb.get(x, y).unwrap();
            if p != DARK {
                all.push((x, y, p));
            }
        }
    }
    all
}

fn same(a: &FrameBuffer, b: &FrameBuffer) -> bool {
    (0..64).all(|y| (0..64).all(|x| a.get(x, y) == b.get(x, y)))
}

#[test]
fn packed_colours_widen_to_eight_bits() {
    assert_eq!(to_rgb888(0x0000), rgb(0, 0, 0));
    assert_eq!(to_rgb888(0xFFFF), rgb(255, 255, 255));
    assert_eq!(to_rgb888(0xF800), rgb(255, 0, 0));
    assert_eq!(to_rgb888(0x07E0), rgb(0, 255, 0));
    assert_eq!(to_rgb888(0x001F), rgb(0, 0, 255));
    assert_eq!(to_rgb888(0x000E), rgb(0, 0, 115));
    assert_eq!(to_rgb888(0x9A40), rgb(156, 73, 0));
    assert_eq!(to_rgb888(0xE4E4), rgb(230, 158, 33));
    assert_eq!(to_rgb888(0x0400), rgb(0, 130, 0));
    assert_eq!(to_rgb888(0x0801), rgb(8, 0, 8));
    assert_eq!(to_rgb888(0x0020), rgb(0, 4, 0));
    assert_eq!(to_rgb888(0x7BCF), rgb(123, 121, 123));
}

#[test]
fn widening_never_goes_down() {
    for v in 0..31u16 {
        assert!(to_rgb888(v).b <= to_rgb888(v + 1).b);
        assert!(to_rgb888(v << 11).r <= to_rgb888((v + 1) << 11).r);
    }
    for v in 0..63u16 {
        assert!(to_rgb888(v << 5).g <= to_rgb888((v + 1) << 5).g);
    }
}

#[test]
fn a_sprite_is_drawn_with_gamma_and_transparency() {
    let image: [u16; 4] = [0xFFFF, 0x0000, 0x9A40, 0x000E];
    let mut fb = FrameBuffer::new();
    fb.fill(0, 0, 64, 64, rgb(255, 255, 255));
    draw_rgb_bitmap(&mut fb, 5, 6, &image, 2, 2);
    assert_eq!(fb.get(5, 6), Some(rgb(255, 255, 255)));
    assert_eq!(fb.get(6, 6), Some(rgb(255, 255, 255)));
    assert_eq!(fb.get(5, 7), Some(rgb(64, 8, 0)));
    assert_eq!(fb.get(6, 7), Some(rgb(0, 0, 27)));
    let changed = lit(&fb).iter().filter(|(_, _, p)| *p != rgb(255, 255, 255)).count();
    assert_eq!(changed, 2);
}

#[test]
fn a_sprite_is_clipped_and_may_be_short() {
    let image: [u16; 5] = [0xF800, 0x07E0, 0x001F, 0xFFFF, 0xF800];
    let mut fb = FrameBuffer::new();
    draw_rgb_bitmap(&mut fb, 62, 63, &image, 3, 2);
    assert_eq!(lit(&fb), vec![(62, 63, rgb(255, 0, 0)), (63, 63, rgb(0, 255, 0))]);
    let mut fb = FrameBuffer::new();
    draw_rgb_bitmap(&mut fb, -1, -1, &image, 3, 2);
    assert_eq!(lit(&fb), vec![(0, 0, rgb(255, 0, 0))]);
    let mut fb = FrameBuffer::new();
    draw_rgb_bitmap(&mut fb, 0, 0, &image, 3, 2);
    assert_eq!(lit(&fb).len(), 5);
    assert_eq!(fb.get(2, 1), Some(DARK));
    for (w, h) in [(0, 2), (3, 0), (-3, 2), (3, -2), (i32::MIN, i32::MIN)] {
        let mut fb = FrameBuffer::new();
        draw_rgb_bitmap(&mut fb, 1, 1, &image, w, h);
        assert!(lit(&fb).is_empty());
    }
    let mut fb = FrameBuffer::new();
    draw_rgb_bitmap(&mut fb, i32::MIN, i32::MIN, &image, i32::MAX, i32::MAX);
    draw_rgb_bitmap(&mut fb, i32::MAX, i32::MAX, &image, i32::MAX, i32::MAX);
    assert!(lit(&fb).is_empty());
}

#[test]
fn a_rectangle_is_filled_in_the_widened_colour() {
    let mut fb = FrameBuffer::new();
    fill_rect(&mut fb, 60, 62, 10, 1, 0x000E);
    assert_eq!(
        lit(&fb),
        vec![
            (60, 62, rgb(0, 0, 27)),
            (61, 62, rgb(0, 0, 27)),
            (62, 62, rgb(0, 0, 27)),
            (63, 62, rgb(0, 0, 27))
        ]
    );
    fill_rect(&mut fb, 0, 0, 64, 64, 0x0000);
    assert!(lit(&fb).is_empty());
}

#[test]
fn text_is_written_in_the_typeface_of_the_clock() {
    let glyphs = super_mario_bros_24pt_glyphs();
    let font = super_mario_bros_24pt(&SUPER_MARIO_BROS_24PT_BITMAPS, &glyphs);
    assert!(font.is_well_formed());
    assert_eq!(font.first, 0x20);
    assert_eq!(font.last, 0x7E);
    assert_eq!(glyphs.len(), 95);
    let bang: GFXglyph = font.glyph_for('!').unwrap();
    assert_eq!((bang.bitmap_offset, bang.width, bang.height, bang.x_advance), (1, 3, 7, 8));
    assert_eq!((bang.x_offset, bang.y_offset), (2, -6));
    let mut fb = FrameBuffer::new();
    print_text(&mut fb, &font, "!", 10, 30, 0xFFFF);
    let white = rgb(255, 255, 255);
    let ink = lit(&fb);
    assert!(!ink.is_empty());
    assert!(ink.iter().all(|(x, y, p)| {
        *p == white
            && (12..15).contains(x)
            && (24..31).contains(y)
    }));
    for row in 0..7u8 {
        for col in 0..3u8 {
            let x = 12 + col as i32;
            let y = 24 + row as i32;
            assert_eq!(fb.get(x, y) == Some(white), font.pixel(&bang, row, col));
        }
    }
    // The bits of the glyph are 0xFF 0xEC 0x30: three full rows, two narrower
    // ones, a gap, and the dot.
    let rows: Vec<Vec<bool>> =
        (0..7u8).map(|row| (0..3u8).map(|col| font.pixel(&bang, row, col)).collect()).collect();
    assert_eq!(
        rows,
        vec![
            vec![true, true, true],
            vec![true, true, true],
            vec![true, true, true],
            vec![true, true, false],
            vec![true, true, false],
            vec![false, false, false],
            vec![true, true, false]
        ]
    );
}

#[test]
fn text_on_a_frame_matches_text_on_a_grid() {
    let glyphs = super_mario_bros_24pt_glyphs();
    let font = super_mario_bros_24pt(&SUPER_MARIO_BROS_24PT_BITMAPS, &glyphs);
    let boxed: &'static [GFXglyph; 95] = Box::leak(Box::new(glyphs));
    let fixed: GFXfont<'static> = GFXfont {
        bitmap: Box::leak(Box::new(SUPER_MARIO_BROS_24PT_BITMAPS)),
        glyph: boxed,
        first: 0x20,
        last: 0x7E,
    };
    for (text, x, y) in [("12:34", 2, 12), ("Hello, world", -7, 5), ("\u{e9}~ {}", 50, 66)] {
        let mut fb = FrameBuffer::new();
        print_text(&mut fb, &font, text, x, y, 0xFFFF);
        let mut display = Display::new();
        display.set_font(fixed);
        display.print(text, x, y, 0xFFFF);
        for py in 0..64 {
            for px in 0..64 {
                let on_grid = display.get_buffer()[(py * 64 + px) as usize] != 0;
                assert_eq!(fb.get(px, py) != Some(DARK), on_grid);
            }
        }
    }
}

#[test]
fn a_grid_is_copied_onto_a_frame() {
    let mut display = Display::new();
    display.fill_rect(0, 0, 64, 64, 0x000E);
    display.fill_rect(3, 4, 2, 1, 0xFFFF);
    let mut fb = FrameBuffer::new();
    fill_contiguous(&mut fb, display.get_buffer());
    for y in 0..64 {
        for x in 0..64 {
            let expected = if y == 4 && (x == 3 || x == 4) { rgb(255, 255, 255) } else { rgb(0, 0, 27) };
            assert_eq!(fb.get(x, y), Some(expected));
        }
    }
    let mut fb = FrameBuffer::new();
    fill_contiguous(&mut fb, &[0xFFFF; 70]);
    assert_eq!(lit(&fb).len(), 70);
    assert_eq!(fb.get(5, 1), Some(rgb(255, 255, 255)));
    assert_eq!(fb.get(6, 1), Some(DARK));
    let mut fb = FrameBuffer::new();
    fill_contiguous(&mut fb, &vec![0xF800; 5000]);
    assert_eq!(lit(&fb).len(), 4096);
}

#[test]
fn an_object_is_drawn_where_it_is_put() {
    static IMAGE: [u16; 2] = [0xF800, 0x001F];
    let object = Object::new(&IMAGE, 1, 2);
    let mut fb = FrameBuffer::new();
    object.draw(7, 8, &mut fb);
    object.draw(63, 63, &mut fb);
    assert_eq!(
        lit(&fb),
        vec![(7, 8, rgb(255, 0, 0)), (7, 9, rgb(0, 0, 255)), (63, 63, rgb(255, 0, 0))]
    );
}

#[test]
fn a_tile_is_laid_across_the_frame() {
    static IMAGE: [u16; 3] = [0xF800, 0x0000, 0x001F];
    let tile = Tile::new(&IMAGE, 3, 1);
    assert_eq!(tile.height(), 1);
    let mut fb = FrameBuffer::new();
    tile.fill_row(10, &mut fb);
    let mut expected = Vec::new();
    for x in 0..64 {
        match x % 3 {
            0 => expected.push((x, 10, rgb(255, 0, 0))),
            2 => expected.push((x, 10, rgb(0, 0, 255))),
            _ => {}
        }
    }
    assert_eq!(lit(&fb), expected);
    // A tile as wide as the frame, or wider, is laid once.
    let wide = Tile::new(&IMAGE, 64, 1);
    let mut fb = FrameBuffer::new();
    wide.fill_row(0, &mut fb);
    assert_eq!(lit(&fb), vec![(0, 0, rgb(255, 0, 0)), (2, 0, rgb(0, 0, 255))]);
    let huge = Tile::new(&IMAGE, i32::MAX, 1);
    let mut fb = FrameBuffer::new();
    huge.fill_row(0, &mut fb);
    assert_eq!(lit(&fb).len(), 2);
}

#[test]
fn the_ground_tiles_the_lowest_rows() {
    let ground = Tile::new(&GROUND, 8, 8);
    let mut fb = FrameBuffer::new();
    ground.fill_row(64 - ground.height(), &mut fb);
    let mut by_hand = FrameBuffer::new();
    for i in 0..8 {
        draw_rgb_bitmap(&mut by_hand, 8 * i, 56, &GROUND, 8, 8);
    }
    assert!(same(&fb, &by_hand));
    assert!(lit(&fb).iter().all(|(_, y, _)| *y >= 56));
    assert_eq!(fb.get(0, 56), fb.get(8, 56));
    assert_ne!(fb.get(0, 56), Some(DARK));
}
