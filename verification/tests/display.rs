use mario_clock::engine::display::Display;
use mario_clock::engine::display::GRID_SIZE;
use mario_clock::engine::font::fits;
use mario_clock::engine::font::GFXfont;
use mario_clock::engine::font::GFXglyph;
use mario_clock::engine::game::Direction;
use mario_clock::engine::game::Event;

static IMAGE: [u16; 6] = [1, 2, 3, 4, 5, 6];

static BITS: [u8; 2] = [0x90, 0x80];

static GLYPHS: [GFXglyph; 2] = [
    GFXglyph { bitmap_offset: 0, width: 2, height: 2, x_advance: 3, x_offset: 0, y_offset: -1 },
    GFXglyph { bitmap_offset: 1, width: 1, height: 1, x_advance: 2, x_offset: 1, y_offset: 0 },
];

fn tiny_font() -> GFXfont<'static> {
    GFXfont { bitmap: &BITS, glyph: &GLYPHS, first: b'A', last: b'B' }
}

fn cell(display: &Display, x: usize, y: usize) -> u16 {
    display.get_buffer()[y * GRID_SIZE + x]
}

fn lit(display: &Display) -> Vec<(usize, usize, u16)> {
    let mut all = Vec::new();
    for y in 0..GRID_SIZE {
        for x in 0..GRID_SIZE {
            if cell(display, x, y) != 0 {
                all.push((x, y, cell(display, x, y)));
            }
        }
    }
    all
}

#[test]
fn a_new_display_is_a_grid_of_zeros() {
    let display = Display::new();
    assert_eq!(GRID_SIZE, 64);
    assert_eq!(display.get_buffer().len(), 4096);
    assert!(display.get_buffer().iter().all(|c| *c == 0));
}

#[test]
fn fill_rect_covers_the_rectangle() {
    let mut display = Display::new();
    display.fill_rect(2, 3, 4, 2, 0xABCD);
    let mut expected = Vec::new();
    for y in 3..5 {
        for x in 2..6 {
            expected.push((x, y, 0xABCD));
        }
    }
    assert_eq!(lit(&display), expected);
}

#[test]
fn fill_rect_clips_on_every_side() {
    let mut display = Display::new();
    display.fill_rect(-3, -3, 5, 5, 1);
    display.fill_rect(62, 62, 10, 10, 2);
    display.fill_rect(64, 0, 5, 5, 3);
    display.fill_rect(0, 64, 5, 5, 3);
    display.fill_rect(-5, 0, 5, 5, 3);
    display.fill_rect(0, -5, 5, 5, 3);
    display.fill_rect(10, 10, 0, 5, 3);
    display.fill_rect(10, 10, -4, 5, 3);
    display.fill_rect(10, 10, 5, -4, 3);
    assert_eq!(
        lit(&display),
        vec![
            (0, 0, 1),
            (1, 0, 1),
            (0, 1, 1),
            (1, 1, 1),
            (62, 62, 2),
            (63, 62, 2),
            (62, 63, 2),
            (63, 63, 2)
        ]
    );
}

#[test]
fn fill_rect_takes_the_largest_extents() {
    let mut display = Display::new();
    display.fill_rect(1, 1, i32::MAX, i32::MAX, 9);
    assert_eq!(lit(&display).len(), 63 * 63);
    display.fill_rect(i32::MIN, i32::MIN, i32::MAX, i32::MAX, 5);
    assert_eq!(lit(&display).len(), 63 * 63);
    assert_eq!(cell(&display, 0, 0), 0);
    assert_eq!(cell(&display, 1, 1), 9);
}

#[test]
fn a_bitmap_lands_row_by_row() {
    let mut display = Display::new();
    display.draw_rgb_bitmap(10, 20, &IMAGE, 3, 2);
    assert_eq!(
        lit(&display),
        vec![(10, 20, 1), (11, 20, 2), (12, 20, 3), (10, 21, 4), (11, 21, 5), (12, 21, 6)]
    );
}

#[test]
fn a_bitmap_is_clipped_and_keeps_its_rows() {
    let mut display = Display::new();
    display.draw_rgb_bitmap(-1, -1, &IMAGE, 3, 2);
    assert_eq!(lit(&display), vec![(0, 0, 5), (1, 0, 6)]);
    let mut display = Display::new();
    display.draw_rgb_bitmap(62, 63, &IMAGE, 3, 2);
    assert_eq!(lit(&display), vec![(62, 63, 1), (63, 63, 2)]);
}

#[test]
fn a_bitmap_that_is_too_short_leaves_the_rest_out() {
    let mut display = Display::new();
    display.fill_rect(0, 0, 64, 64, 0x1111);
    display.draw_rgb_bitmap(0, 0, &IMAGE, 3, 3);
    assert_eq!(cell(&display, 2, 1), 6);
    assert_eq!(cell(&display, 0, 2), 0x1111);
    assert_eq!(cell(&display, 2, 2), 0x1111);
    // A zero in the image is copied like any other value.
    static WITH_ZERO: [u16; 2] = [0, 7];
    display.draw_rgb_bitmap(5, 5, &WITH_ZERO, 2, 1);
    assert_eq!(cell(&display, 5, 5), 0);
    assert_eq!(cell(&display, 6, 5), 7);
}

#[test]
fn a_bitmap_outside_the_grid_or_without_extent_changes_nothing() {
    let mut display = Display::new();
    display.draw_rgb_bitmap(64, 0, &IMAGE, 3, 2);
    display.draw_rgb_bitmap(0, 64, &IMAGE, 3, 2);
    display.draw_rgb_bitmap(-3, 0, &IMAGE, 3, 2);
    display.draw_rgb_bitmap(0, -2, &IMAGE, 3, 2);
    display.draw_rgb_bitmap(5, 5, &IMAGE, 0, 2);
    display.draw_rgb_bitmap(5, 5, &IMAGE, -3, 2);
    display.draw_rgb_bitmap(5, 5, &IMAGE, 3, -2);
    display.draw_rgb_bitmap(i32::MIN, i32::MIN, &IMAGE, i32::MAX, i32::MAX);
    assert!(lit(&display).is_empty());
}

#[test]
fn print_without_a_font_writes_nothing() {
    let mut display = Display::new();
    display.print("AB", 10, 20, 7);
    assert!(lit(&display).is_empty());
}

#[test]
fn print_stamps_glyphs_and_moves_the_pen() {
    let font = tiny_font();
    assert!(font.is_well_formed());
    let mut display = Display::new();
    display.set_font(font);
    display.print("AxB", 10, 20, 7);
    assert_eq!(lit(&display), vec![(10, 19, 7), (11, 20, 7), (14, 20, 7)]);
    display.print("BB", 0, 0, 9);
    assert_eq!(cell(&display, 1, 0), 9);
    assert_eq!(cell(&display, 3, 0), 9);
    assert_eq!(lit(&display).len(), 5);
}

#[test]
fn print_clips_at_the_edges() {
    let mut display = Display::new();
    display.set_font(tiny_font());
    display.print("A", 63, 0, 8);
    display.print("A", -1, 64, 8);
    display.print("A", 62, 0, 1);
    display.print("A", 0, 64, 2);
    display.print("A", 0, 65, 3);
    display.print("B", 63, 5, 4);
    display.print("A", i32::MAX, i32::MAX, 5);
    display.print("AB", i32::MIN, i32::MIN, 6);
    assert_eq!(lit(&display), vec![(63, 0, 1), (0, 63, 2)]);
}

#[test]
fn a_long_text_runs_off_the_grid_without_harm() {
    let mut display = Display::new();
    display.set_font(tiny_font());
    let text = "A".repeat(10_000);
    display.print(&text, 0, 1, 3);
    // One glyph every three columns, two pixels each, until the right edge.
    assert_eq!(lit(&display).len(), 2 * 21 + 1);
    assert_eq!(cell(&display, 63, 0), 3);
}

#[test]
fn the_font_check_finds_what_is_missing() {
    assert!(tiny_font().is_well_formed());
    let short = GFXfont { bitmap: &BITS[..1], glyph: &GLYPHS, first: b'A', last: b'B' };
    assert!(!short.is_well_formed());
    let few = GFXfont { bitmap: &BITS, glyph: &GLYPHS[..1], first: b'A', last: b'B' };
    assert!(!few.is_well_formed());
    let backwards = GFXfont { bitmap: &BITS, glyph: &GLYPHS, first: b'B', last: b'A' };
    assert!(!backwards.is_well_formed());
    let one = GFXfont { bitmap: &BITS, glyph: &GLYPHS, first: b'A', last: b'A' };
    assert!(one.is_well_formed());
    let wide =
        GFXglyph { bitmap_offset: 0, width: 200, height: 3, x_advance: 0, x_offset: 0, y_offset: 0 };
    assert!(!fits(&wide, 10_000));
    let empty =
        GFXglyph { bitmap_offset: 2, width: 0, height: 0, x_advance: 0, x_offset: 0, y_offset: 0 };
    assert!(fits(&empty, 2));
    assert!(!fits(&empty, 1));
    let pixel = tiny_font().pixel(&GLYPHS[0], 1, 1);
    assert!(pixel);
    assert!(!tiny_font().pixel(&GLYPHS[0], 0, 1));
    assert_eq!(tiny_font().glyph_for('B'), Some(GLYPHS[1]));
    assert_eq!(tiny_font().glyph_for('C'), None);
    assert_eq!(tiny_font().glyph_for('\u{20AC}'), None);
}

#[test]
fn directions_and_events_compare_by_variant() {
    assert_ne!(Direction::Up, Direction::Down);
    assert_ne!(Direction::Left, Direction::Right);
    assert_eq!(Direction::Up, Direction::Up);
    assert_ne!(Event::Move, Event::Collision);
}
