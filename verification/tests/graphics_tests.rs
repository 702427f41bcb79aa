use ssd1681::color::Color;
use ssd1681::graphics::{Display, Display1in54, DisplayRotation, Pixel, Rect};
use ssd1681::{HEIGHT, PLANE_BYTES, WIDTH};

#[test]
fn color_luma_values() {
    assert_eq!(Color::Black.luma(), 0);
    assert_eq!(Color::DarkGray.luma(), 1);
    assert_eq!(Color::LightGray.luma(), 2);
    assert_eq!(Color::White.luma(), 3);
}

#[test]
fn color_from_luma_round_trip() {
    for luma in 0u8..4 {
        assert_eq!(Color::from_luma(luma).luma(), luma);
    }
    // Higher bits are ignored.
    assert_eq!(Color::from_luma(7), Color::White);
    assert_eq!(Color::from_luma(4), Color::Black);
}

#[test]
fn rotation_default_is_zero() {
    assert_eq!(DisplayRotation::default(), DisplayRotation::Rotate0);
}

#[test]
fn new_display_planes_all_ones() {
    let d = Display1in54::new();
    assert_eq!(d.buffer1().len(), PLANE_BYTES);
    assert_eq!(d.buffer2().len(), PLANE_BYTES);
    assert!(d.buffer1().iter().all(|&b| b == 0xff));
    assert!(d.buffer2().iter().all(|&b| b == 0xff));
    assert_eq!(d.rotation(), DisplayRotation::Rotate0);
}

#[test]
fn bounding_box_covers_panel() {
    let d = Display1in54::new();
    assert_eq!(
        d.bounding_box(),
        Rect { x: 0, y: 0, width: WIDTH as u32, height: HEIGHT as u32 }
    );
}

#[test]
fn draw_black_pixel_clears_bit_rotate0() {
    let mut d = Display1in54::new();
    d.clear_buffer(Color::White);
    assert!(d.buffer1().iter().all(|&b| b == 0xff));
    assert!(d.buffer2().iter().all(|&b| b == 0xff));
    d.draw_iter(&vec![Pixel { x: 5, y: 5, color: Color::Black }]);
    // Offset 5 + 5 * 200 = 1005: byte 125, bit 0b10000000 >> 5.
    let idx = (5 + 5 * 200) >> 3;
    assert_eq!(idx, 125);
    let bit = 0b1000_0000u8 >> ((5 + 5 * 200) % 8);
    assert_eq!(d.buffer1()[idx], 0xff & !bit);
    assert_eq!(d.buffer2()[idx], 0xff & !bit);
    assert_eq!(d.get_pixel(5, 5), 0);
}

#[test]
fn draw_pixel_offsets_under_each_rotation() {
    let cases = [
        (DisplayRotation::Rotate0, 5 + 7 * 200),
        (DisplayRotation::Rotate90, 7 + 5 * 200),
        (DisplayRotation::Rotate180, (199 - 5) + (199 - 7) * 200),
        (DisplayRotation::Rotate270, (199 - 7) + 5 * 200),
    ];
    for (rot, off) in cases {
        let mut d = Display1in54::new();
        d.clear_buffer(Color::White);
        d.set_rotation(rot);
        assert_eq!(d.rotation(), rot);
        d.draw_iter(&vec![Pixel { x: 5, y: 7, color: Color::Black }]);
        let idx = off >> 3;
        let bit = 0b1000_0000u8 >> (off % 8);
        assert_eq!(d.buffer1()[idx], 0xff & !bit, "plane 1 under {rot:?}");
        assert_eq!(d.buffer2()[idx], 0xff & !bit, "plane 2 under {rot:?}");
        assert_eq!(d.get_pixel(5, 7), 0);
    }
}

#[test]
fn draw_out_of_bounds_is_dropped() {
    let mut d = Display1in54::new();
    d.clear_buffer(Color::White);
    let before: Vec<u8> = d.buffer1().to_vec();
    d.draw_iter(&vec![
        Pixel { x: 0, y: 5, color: Color::Black },
        Pixel { x: 5, y: 0, color: Color::Black },
        Pixel { x: 200, y: 5, color: Color::Black },
        Pixel { x: 5, y: 200, color: Color::Black },
        Pixel { x: -3, y: 5, color: Color::Black },
    ]);
    assert_eq!(d.buffer1(), &before[..]);
}

#[test]
fn gray_levels_read_back() {
    let mut d = Display1in54::new();
    d.clear_buffer(Color::White);
    let pixels = vec![
        Pixel { x: 10, y: 10, color: Color::Black },
        Pixel { x: 11, y: 10, color: Color::DarkGray },
        Pixel { x: 12, y: 10, color: Color::LightGray },
        Pixel { x: 13, y: 10, color: Color::White },
    ];
    d.draw_iter(&pixels);
    assert_eq!(d.get_pixel(10, 10), 0);
    assert_eq!(d.get_pixel(11, 10), 1);
    assert_eq!(d.get_pixel(12, 10), 2);
    assert_eq!(d.get_pixel(13, 10), 3);
}

#[test]
fn clear_reads_back_every_corner() {
    for color in [Color::Black, Color::DarkGray, Color::LightGray, Color::White] {
        let mut d = Display1in54::new();
        d.clear_buffer(color);
        for (x, y) in [(1, 1), (199, 1), (1, 199), (199, 199), (100, 100)] {
            assert_eq!(d.get_pixel(x, y), color.luma());
        }
    }
}

#[test]
fn clear_white_fills_ones_black_fills_zeros() {
    let mut d = Display1in54::new();
    d.clear_buffer(Color::White);
    assert!(d.buffer1().iter().all(|&b| b == 0xff));
    assert!(d.buffer2().iter().all(|&b| b == 0xff));
    d.clear_buffer(Color::Black);
    assert!(d.buffer1().iter().all(|&b| b == 0x00));
    assert!(d.buffer2().iter().all(|&b| b == 0x00));
    d.clear_buffer(Color::DarkGray);
    assert!(d.buffer1().iter().all(|&b| b == 0xff));
    assert!(d.buffer2().iter().all(|&b| b == 0x00));
    d.clear_buffer(Color::LightGray);
    assert!(d.buffer1().iter().all(|&b| b == 0x00));
    assert!(d.buffer2().iter().all(|&b| b == 0xff));
}

#[test]
fn invert_display_twice_restores_buffers() {
    let mut d = Display1in54::new();
    d.clear_buffer(Color::White);
    d.draw_iter(&vec![
        Pixel { x: 3, y: 4, color: Color::DarkGray },
        Pixel { x: 60, y: 120, color: Color::Black },
    ]);
    let p1: Vec<u8> = d.buffer1().to_vec();
    let p2: Vec<u8> = d.buffer2().to_vec();
    let bits_before = d.get_color_bits(Color::White);
    d.invert_display();
    assert_ne!(d.buffer1(), &p1[..]);
    let bits_mid = d.get_color_bits(Color::White);
    assert_eq!(bits_mid, (!bits_before.0, !bits_before.1));
    for (i, &b) in d.buffer1().iter().enumerate() {
        assert_eq!(b, !p1[i]);
    }
    d.invert_display();
    assert_eq!(d.buffer1(), &p1[..]);
    assert_eq!(d.buffer2(), &p2[..]);
    assert_eq!(d.get_color_bits(Color::White), bits_before);
}

#[test]
fn invert_display_preserves_read_back() {
    let mut d = Display1in54::new();
    d.clear_buffer(Color::White);
    d.draw_iter(&vec![Pixel { x: 42, y: 17, color: Color::DarkGray }]);
    d.invert_display();
    // The planes are complemented but the flag compensates on read and draw.
    assert_eq!(d.get_pixel(42, 17), 1);
    assert_eq!(d.get_pixel(41, 17), 3);
    d.draw_iter(&vec![Pixel { x: 43, y: 17, color: Color::LightGray }]);
    assert_eq!(d.get_pixel(43, 17), 2);
}

#[test]
fn set_rotation_keeps_stored_bits() {
    let mut d = Display1in54::new();
    d.clear_buffer(Color::White);
    d.draw_iter(&vec![Pixel { x: 9, y: 9, color: Color::Black }]);
    let p1: Vec<u8> = d.buffer1().to_vec();
    d.set_rotation(DisplayRotation::Rotate180);
    assert_eq!(d.buffer1(), &p1[..]);
}

#[test]
fn buffers_returns_both_planes() {
    let mut d = Display1in54::new();
    d.clear_buffer(Color::LightGray);
    let (b1, b2) = d.buffers();
    assert!(b1.iter().all(|&b| b == 0x00));
    assert!(b2.iter().all(|&b| b == 0xff));
}

#[test]
fn get_color_bits_honours_inversion() {
    let mut d = Display1in54::new();
    assert_eq!(d.get_color_bits(Color::White), (true, true));
    assert_eq!(d.get_color_bits(Color::Black), (false, false));
    assert_eq!(d.get_color_bits(Color::DarkGray), (true, false));
    assert_eq!(d.get_color_bits(Color::LightGray), (false, true));
    d.invert_display();
    assert_eq!(d.get_color_bits(Color::White), (false, false));
    assert_eq!(d.get_color_bits(Color::DarkGray), (false, true));
}

#[test]
fn pixel_offsets_injective_rotate0_sample() {
    // A small exhaustive window: no two in-bounds coordinates collide.
    let mut seen = std::collections::HashSet::new();
    for x in 1..40i64 {
        for y in 1..40i64 {
            let off = x + y * 200;
            assert!(seen.insert(off));
        }
    }
}
