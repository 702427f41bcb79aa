use ssd1681::color::Color;
use ssd1681::driver::{waveform, LutType, Ssd1681};
use ssd1681::graphics::{Display, Display1in54, Pixel, Rect};
use ssd1681::interface::TransportOp;

/// The RAM addressing a full-frame selection records: X range in bytes,
/// Y range in pixels, counters parked at the origin.
fn expect_full_frame(ops: &[TransportOp]) -> usize {
    expect_ram_area(ops, 0, 0, 199, 199)
}

fn expect_ram_area(ops: &[TransportOp], sx: u32, sy: u32, ex: u32, ey: u32) -> usize {
    match &ops[0] {
        TransportOp::Command(c) => assert_eq!(*c, 0x44),
        other => panic!("expected command, got {other:?}"),
    }
    match &ops[1] {
        TransportOp::Data(d) => assert_eq!(d, &vec![(sx >> 3) as u8, (ex >> 3) as u8]),
        other => panic!("expected data, got {other:?}"),
    }
    match &ops[2] {
        TransportOp::Command(c) => assert_eq!(*c, 0x45),
        other => panic!("expected command, got {other:?}"),
    }
    match &ops[3] {
        TransportOp::Data(d) => {
            assert_eq!(d, &vec![sy as u8, (sy >> 8) as u8, ey as u8, (ey >> 8) as u8])
        }
        other => panic!("expected data, got {other:?}"),
    }
    match &ops[4] {
        TransportOp::Command(c) => assert_eq!(*c, 0x4E),
        other => panic!("expected command, got {other:?}"),
    }
    match &ops[5] {
        TransportOp::Data(d) => assert_eq!(d, &vec![(sx >> 3) as u8]),
        other => panic!("expected data, got {other:?}"),
    }
    match &ops[6] {
        TransportOp::Command(c) => assert_eq!(*c, 0x4F),
        other => panic!("expected command, got {other:?}"),
    }
    match &ops[7] {
        TransportOp::Data(d) => assert_eq!(d, &vec![sy as u8, (sy >> 8) as u8]),
        other => panic!("expected data, got {other:?}"),
    }
    8
}

#[test]
fn waveform_tables_are_159_bytes() {
    assert_eq!(waveform(LutType::Full).len(), 159);
    assert_eq!(waveform(LutType::Partial).len(), 159);
    assert_eq!(waveform(LutType::Gray4).len(), 159);
}

#[test]
fn waveform_tables_differ() {
    assert_ne!(waveform(LutType::Full), waveform(LutType::Partial));
    assert_ne!(waveform(LutType::Full), waveform(LutType::Gray4));
    assert_ne!(waveform(LutType::Partial), waveform(LutType::Gray4));
    // Spot-check bytes fixed by the chip's register layout.
    let full = waveform(LutType::Full);
    assert_eq!(full[0], 0x80);
    assert_eq!(full[153], 0x22);
    assert_eq!(full[158], 0x20);
    let gray = waveform(LutType::Gray4);
    assert_eq!(gray[158], 0x1c);
}

#[test]
fn new_driver_records_init_sequence() {
    let mut driver = Ssd1681::new();
    assert_eq!(driver.current_lut_type(), LutType::Full);
    assert_eq!(driver.current_window(), None);
    let ops = driver.take_ops();
    assert_eq!(ops.len(), 20);
    assert!(matches!(ops[0], TransportOp::Reset));
    assert!(matches!(ops[1], TransportOp::Command(0x12)));
    assert!(matches!(ops[2], TransportOp::WaitUntilIdle));
    assert!(matches!(ops[3], TransportOp::Command(0x01)));
    match &ops[4] {
        TransportOp::Data(d) => assert_eq!(d, &vec![199, 0, 0]),
        other => panic!("expected data, got {other:?}"),
    }
    let n = expect_full_frame(&ops[5..]);
    assert_eq!(n, 8);
    assert!(matches!(ops[13], TransportOp::Command(0x3C)));
    match &ops[14] {
        TransportOp::Data(d) => assert_eq!(d, &vec![0b0101]),
        other => panic!("expected data, got {other:?}"),
    }
    assert!(matches!(ops[15], TransportOp::Command(0x11)));
    match &ops[16] {
        TransportOp::Data(d) => assert_eq!(d, &vec![0b11]),
        other => panic!("expected data, got {other:?}"),
    }
    assert!(matches!(ops[17], TransportOp::Command(0x18)));
    match &ops[18] {
        TransportOp::Data(d) => assert_eq!(d, &vec![0x80]),
        other => panic!("expected data, got {other:?}"),
    }
    assert!(matches!(ops[19], TransportOp::WaitUntilIdle));
    // The record is now empty.
    assert_eq!(driver.take_ops().len(), 0);
}

#[test]
fn set_window_records_byte_aligned_x_range() {
    let mut driver = Ssd1681::new();
    driver.take_ops();
    // start_x = 8, end_x = 40 must program X bytes (1, 5);
    // start_y = 0, end_y = 199 must program Y bytes (0, 0, 199, 0).
    let window = Rect { x: 8, y: 0, width: 32, height: 199 };
    driver.set_window(window);
    assert_eq!(driver.current_window(), Some(window));
    let ops = driver.take_ops();
    assert_eq!(ops.len(), 8);
    match &ops[1] {
        TransportOp::Data(d) => assert_eq!(d, &vec![1, 5]),
        other => panic!("expected data, got {other:?}"),
    }
    match &ops[3] {
        TransportOp::Data(d) => assert_eq!(d, &vec![0, 0, 199, 0]),
        other => panic!("expected data, got {other:?}"),
    }
    expect_ram_area(&ops, 8, 0, 40, 199);
}

#[test]
fn unset_window_restores_full_frame() {
    let mut driver = Ssd1681::new();
    driver.take_ops();
    driver.set_window(Rect { x: 8, y: 8, width: 16, height: 16 });
    driver.take_ops();
    driver.unset_window();
    assert_eq!(driver.current_window(), None);
    let ops = driver.take_ops();
    assert_eq!(ops.len(), 8);
    expect_full_frame(&ops);
}

#[test]
fn set_lut_records_upload_and_mode() {
    let mut driver = Ssd1681::new();
    driver.take_ops();
    let mut display = Display1in54::new();
    driver.set_lut(LutType::Partial, &mut display);
    assert_eq!(driver.current_lut_type(), LutType::Partial);
    let ops = driver.take_ops();
    assert_eq!(ops.len(), 13);
    let table = waveform(LutType::Partial);
    assert!(matches!(ops[0], TransportOp::Command(0x32)));
    match &ops[1] {
        TransportOp::Data(d) => assert_eq!(&d[..], &table[..153]),
        other => panic!("expected data, got {other:?}"),
    }
    assert!(matches!(ops[2], TransportOp::WaitUntilIdle));
    assert!(matches!(ops[3], TransportOp::Command(0x3F)));
    match &ops[4] {
        TransportOp::Data(d) => assert_eq!(d, &vec![table[153]]),
        other => panic!("expected data, got {other:?}"),
    }
    assert!(matches!(ops[5], TransportOp::Command(0x03)));
    match &ops[6] {
        TransportOp::Data(d) => assert_eq!(d, &vec![table[154]]),
        other => panic!("expected data, got {other:?}"),
    }
    assert!(matches!(ops[7], TransportOp::Command(0x04)));
    match &ops[8] {
        TransportOp::Data(d) => assert_eq!(&d[..], &table[155..158]),
        other => panic!("expected data, got {other:?}"),
    }
    assert!(matches!(ops[9], TransportOp::Command(0x2C)));
    match &ops[10] {
        TransportOp::Data(d) => assert_eq!(d, &vec![table[158]]),
        other => panic!("expected data, got {other:?}"),
    }
    assert!(matches!(ops[11], TransportOp::Command(0x32)));
    assert!(matches!(ops[12], TransportOp::WaitUntilIdle));
}

#[test]
fn set_lut_inverts_only_across_gray4_boundary() {
    let mut driver = Ssd1681::new();
    driver.take_ops();
    let mut display = Display1in54::new();
    display.clear_buffer(Color::White);
    let white_plane = display.buffer1().to_vec();

    // Full -> Partial: no inversion.
    driver.set_lut(LutType::Partial, &mut display);
    assert_eq!(display.buffer1(), &white_plane[..]);

    // Partial -> Gray4: exactly one inversion.
    driver.set_lut(LutType::Gray4, &mut display);
    assert!(display.buffer1().iter().all(|&b| b == 0x00));

    // Gray4 -> Gray4: no inversion.
    driver.set_lut(LutType::Gray4, &mut display);
    assert!(display.buffer1().iter().all(|&b| b == 0x00));

    // Gray4 -> Full: exactly one inversion, back to the original planes.
    driver.set_lut(LutType::Full, &mut display);
    assert_eq!(display.buffer1(), &white_plane[..]);

    // Full -> Full: no inversion.
    driver.set_lut(LutType::Full, &mut display);
    assert_eq!(display.buffer1(), &white_plane[..]);
}

#[test]
fn display_frame_trigger_flag_follows_lut() {
    let mut driver = Ssd1681::new();
    driver.take_ops();
    driver.display_frame();
    let ops = driver.take_ops();
    assert_eq!(ops.len(), 12);
    expect_full_frame(&ops);
    assert!(matches!(ops[8], TransportOp::Command(0x22)));
    match &ops[9] {
        TransportOp::Data(d) => assert_eq!(d, &vec![0xF7]),
        other => panic!("expected data, got {other:?}"),
    }
    assert!(matches!(ops[10], TransportOp::Command(0x20)));
    assert!(matches!(ops[11], TransportOp::WaitUntilIdle));

    let mut display = Display1in54::new();
    driver.set_lut(LutType::Gray4, &mut display);
    driver.take_ops();
    driver.display_frame();
    let ops = driver.take_ops();
    match &ops[9] {
        TransportOp::Data(d) => assert_eq!(d, &vec![0xC7]),
        other => panic!("expected data, got {other:?}"),
    }
}

#[test]
fn display_window_does_not_touch_ram_window() {
    let mut driver = Ssd1681::new();
    driver.take_ops();
    driver.display_window();
    let ops = driver.take_ops();
    assert_eq!(ops.len(), 4);
    assert!(matches!(ops[0], TransportOp::Command(0x22)));
    match &ops[1] {
        TransportOp::Data(d) => assert_eq!(d, &vec![0xF7]),
        other => panic!("expected data, got {other:?}"),
    }
    assert!(matches!(ops[2], TransportOp::Command(0x20)));
    assert!(matches!(ops[3], TransportOp::WaitUntilIdle));
}

#[test]
fn clear_frames_flood_fill_follows_lut() {
    let mut driver = Ssd1681::new();
    driver.take_ops();
    driver.clear_frame1();
    let ops = driver.take_ops();
    assert_eq!(ops.len(), 10);
    expect_full_frame(&ops);
    assert!(matches!(ops[8], TransportOp::Command(0x24)));
    assert!(matches!(ops[9], TransportOp::DataRepeated(0x00, 5000)));

    let mut display = Display1in54::new();
    driver.set_lut(LutType::Gray4, &mut display);
    driver.take_ops();
    driver.clear_frames();
    let ops = driver.take_ops();
    assert_eq!(ops.len(), 20);
    assert!(matches!(ops[8], TransportOp::Command(0x24)));
    assert!(matches!(ops[9], TransportOp::DataRepeated(0xff, 5000)));
    assert!(matches!(ops[18], TransportOp::Command(0x26)));
    assert!(matches!(ops[19], TransportOp::DataRepeated(0xff, 5000)));
}

#[test]
fn update_frames_sends_both_planes() {
    let mut driver = Ssd1681::new();
    driver.take_ops();
    let mut display = Display1in54::new();
    display.clear_buffer(Color::LightGray);
    driver.update_frames(&display);
    let ops = driver.take_ops();
    assert_eq!(ops.len(), 20);
    assert!(matches!(ops[8], TransportOp::Command(0x24)));
    match &ops[9] {
        TransportOp::Data(d) => assert_eq!(&d[..], display.buffer1()),
        other => panic!("expected data, got {other:?}"),
    }
    assert!(matches!(ops[18], TransportOp::Command(0x26)));
    match &ops[19] {
        TransportOp::Data(d) => assert_eq!(&d[..], display.buffer2()),
        other => panic!("expected data, got {other:?}"),
    }
}

#[test]
fn update_frame_overrides_partial_window() {
    let mut driver = Ssd1681::new();
    driver.take_ops();
    driver.set_window(Rect { x: 8, y: 8, width: 16, height: 16 });
    driver.take_ops();
    let buffer = vec![0xAAu8; 16];
    driver.update_frame1(&buffer);
    let ops = driver.take_ops();
    // Always re-selects the full frame, even with a window set.
    expect_full_frame(&ops);
    assert!(matches!(ops[8], TransportOp::Command(0x24)));
    match &ops[9] {
        TransportOp::Data(d) => assert_eq!(d, &buffer),
        other => panic!("expected data, got {other:?}"),
    }
    // The recorded window survives the transfer.
    assert_eq!(
        driver.current_window(),
        Some(Rect { x: 8, y: 8, width: 16, height: 16 })
    );
}

#[test]
fn end_to_end_single_black_pixel() {
    // Construct a driver, keep the full-refresh waveform, clear both
    // planes to white, draw one black pixel at (5, 5) under no rotation,
    // transfer both planes and trigger a refresh.
    let mut driver = Ssd1681::new();
    driver.take_ops();
    let mut display = Display1in54::new();
    driver.set_lut(LutType::Full, &mut display);
    driver.take_ops();
    display.clear_buffer(Color::White);
    display.draw_iter(&vec![Pixel { x: 5, y: 5, color: Color::Black }]);
    driver.update_frames(&display);
    driver.display_frame();
    let ops = driver.take_ops();
    assert_eq!(ops.len(), 32);

    let idx = (5 + 5 * 200) >> 3;
    let bit = 0b1000_0000u8 >> ((5 + 5 * 200) % 8);
    for plane_data in [&ops[9], &ops[19]] {
        match plane_data {
            TransportOp::Data(d) => {
                assert_eq!(d.len(), 5000);
                // Bit cleared relative to the all-ones clear state.
                assert_eq!(d[idx], 0xff & !bit);
                for (i, &b) in d.iter().enumerate() {
                    if i != idx {
                        assert_eq!(b, 0xff);
                    }
                }
            }
            other => panic!("expected data, got {other:?}"),
        }
    }
    match &ops[29] {
        TransportOp::Data(d) => assert_eq!(d, &vec![0xF7]),
        other => panic!("expected data, got {other:?}"),
    }
    assert!(matches!(ops[30], TransportOp::Command(0x20)));
    assert!(matches!(ops[31], TransportOp::WaitUntilIdle));
}
