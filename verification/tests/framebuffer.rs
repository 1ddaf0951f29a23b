use mario_clock::framebuffer::FrameBuffer;
use mario_clock::framebuffer::PixelData;
use mario_clock::framebuffer::Rgb;
use mario_clock::framebuffer::ADDRESSABLE_ROWS;
use mario_clock::framebuffer::HEIGHT;
use mario_clock::framebuffer::WIDTH;
use mario_clock::gamma::gamma;

const DARK: Rgb = Rgb { r: 0, g: 0, b: 0 };

fn snapshot(fb: &FrameBuffer) -> Vec<Rgb> {
    let mut all = Vec::new();
    for y in 0..64 {
        for x in 0..64 {
            all.push(fb.get(x, y).unwrap());
        }
    }
    all
}

#[test]
fn panel_geometry() {
    assert_eq!(WIDTH, 64);
    assert_eq!(HEIGHT, 64);
    assert_eq!(ADDRESSABLE_ROWS, 32);
}

#[test]
fn new_frame_is_dark() {
    let fb = FrameBuffer::new();
    assert!(snapshot(&fb).iter().all(|p| *p == DARK));
}

#[test]
fn set_keeps_gamma_corrected_intensities() {
    let mut fb = FrameBuffer::new();
    fb.set(0, 0, Rgb { r: 255, g: 0, b: 0 });
    assert_eq!(fb.get(0, 0), Some(Rgb { r: 255, g: 0, b: 0 }));
    fb.set(5, 40, Rgb { r: 128, g: 127, b: 28 });
    assert_eq!(fb.get(5, 40), Some(Rgb { r: 37, g: 36, b: 1 }));
    fb.set(63, 63, Rgb { r: 200, g: 100, b: 50 });
    assert_eq!(fb.get(63, 63), Some(Rgb { r: gamma(200), g: gamma(100), b: gamma(50) }));
    let lit = snapshot(&fb).iter().filter(|p| **p != DARK).count();
    assert_eq!(lit, 3);
}

#[test]
fn set_overwrites_the_same_pixel() {
    let mut fb = FrameBuffer::new();
    fb.set(10, 10, Rgb { r: 255, g: 255, b: 255 });
    fb.set(10, 10, Rgb { r: 0, g: 255, b: 0 });
    assert_eq!(fb.get(10, 10), Some(Rgb { r: 0, g: 255, b: 0 }));
}

#[test]
fn set_outside_the_panel_is_ignored() {
    let mut fb = FrameBuffer::new();
    fb.set(3, 3, Rgb { r: 255, g: 255, b: 255 });
    let before = snapshot(&fb);
    let white = Rgb { r: 255, g: 255, b: 255 };
    for (x, y) in [
        (-1, 0),
        (0, -1),
        (64, 0),
        (0, 64),
        (0, -32),
        (0, -64),
        (-64, 5),
        (i32::MAX, 0),
        (0, i32::MIN),
    ] {
        fb.set(x, y, white);
        assert_eq!(fb.get(x, y), None);
    }
    assert_eq!(snapshot(&fb), before);
}

#[test]
fn get_outside_the_panel_is_none() {
    let fb = FrameBuffer::new();
    assert_eq!(fb.get(-1, 0), None);
    assert_eq!(fb.get(64, 63), None);
    assert_eq!(fb.get(0, 64), None);
    assert_eq!(fb.get(63, 63), Some(DARK));
}

#[test]
fn clear_twice_is_clear_once() {
    let mut once = FrameBuffer::new();
    let mut twice = FrameBuffer::new();
    for fb in [&mut once, &mut twice] {
        fb.set(1, 2, Rgb { r: 9, g: 99, b: 199 });
        fb.set(40, 50, Rgb { r: 255, g: 255, b: 255 });
    }
    once.clear();
    twice.clear();
    twice.clear();
    assert_eq!(snapshot(&once), snapshot(&twice));
    assert!(snapshot(&twice).iter().all(|p| *p == DARK));
}

#[test]
fn fill_covers_exactly_the_rectangle() {
    let mut fb = FrameBuffer::new();
    let color = Rgb { r: 255, g: 128, b: 0 };
    fb.fill(10, 20, 3, 2, color);
    for y in 0..64 {
        for x in 0..64 {
            let inside = (10..13).contains(&x) && (20..22).contains(&y);
            let expected = if inside { Rgb { r: 255, g: 37, b: 0 } } else { DARK };
            assert_eq!(fb.get(x, y), Some(expected));
        }
    }
}

#[test]
fn fill_clips_to_the_panel() {
    let mut fb = FrameBuffer::new();
    let white = Rgb { r: 255, g: 255, b: 255 };
    fb.fill(-5, 60, 10, 100, white);
    for y in 0..64 {
        for x in 0..64 {
            let inside = x < 5 && y >= 60;
            assert_eq!(fb.get(x, y) == Some(white), inside);
        }
    }
    fb.fill(i32::MIN, i32::MIN, 0x8000_0000, 0x8000_0000, Rgb { r: 0, g: 0, b: 255 });
    assert!(snapshot(&fb).iter().all(|p| *p != Rgb { r: 0, g: 0, b: 255 }));
    fb.fill(i32::MIN, i32::MIN, 0x8000_0001, 0x8000_0001, Rgb { r: 0, g: 0, b: 255 });
    assert_eq!(fb.get(0, 0), Some(Rgb { r: 0, g: 0, b: 255 }));
    assert_eq!(fb.get(1, 0), Some(Rgb { r: 0, g: 0, b: 0 }));
    assert_eq!(fb.get(0, 1), Some(Rgb { r: 0, g: 0, b: 0 }));
    fb.fill(0, 0, u32::MAX, u32::MAX, Rgb { r: 0, g: 255, b: 0 });
    assert!(snapshot(&fb).iter().all(|p| *p == Rgb { r: 0, g: 255, b: 0 }));
    fb.fill(i32::MIN, i32::MIN, u32::MAX, u32::MAX, Rgb { r: 255, g: 0, b: 0 });
    assert!(snapshot(&fb).iter().all(|p| *p == Rgb { r: 255, g: 0, b: 0 }));
}

#[test]
fn fill_of_empty_rectangle_changes_nothing() {
    let mut fb = FrameBuffer::new();
    fb.fill(5, 5, 0, 10, Rgb { r: 255, g: 255, b: 255 });
    fb.fill(5, 5, 10, 0, Rgb { r: 255, g: 255, b: 255 });
    fb.fill(64, 0, 10, 10, Rgb { r: 255, g: 255, b: 255 });
    assert!(snapshot(&fb).iter().all(|p| *p == DARK));
}

#[test]
fn a_slot_column_pairs_two_rows() {
    let mut fb = FrameBuffer::new();
    fb.set(7, 3, Rgb { r: 255, g: 0, b: 128 });
    fb.set(7, 35, Rgb { r: 0, g: 255, b: 127 });
    assert_eq!(
        fb.column(3, 7),
        PixelData { r1: 255, g1: 0, b1: 37, r2: 0, g2: 255, b2: 36 }
    );
    assert_eq!(fb.column(3, 8), PixelData { r1: 0, g1: 0, b1: 0, r2: 0, g2: 0, b2: 0 });
}
