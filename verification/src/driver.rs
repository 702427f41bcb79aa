//! Controller driver: sequences initialization, waveform selection and
//! upload, RAM-window addressing, frame transfer and update triggering,
//! recording the exact command/data stream the chip must receive.
use vstd::prelude::*;

use crate::graphics::{complement_bytes, Display, Rect};
use crate::interface::{ops_view, DisplayInterface, OpSpec, TransportOp};
use crate::{HEIGHT, WIDTH};

verus! {

/// Software reset opcode.
pub const SW_RESET: u8 = 0x12;

/// Gate driver range opcode.
pub const DRIVER_CONTROL: u8 = 0x01;

/// Data entry mode opcode.
pub const DATA_ENTRY_MODE: u8 = 0x11;

/// RAM X address range opcode.
pub const SET_RAMXPOS: u8 = 0x44;

/// RAM Y address range opcode.
pub const SET_RAMYPOS: u8 = 0x45;

/// Border waveform control opcode.
pub const BORDER_WAVEFORM_CONTROL: u8 = 0x3C;

/// Temperature sensor control opcode.
pub const TEMP_CONTROL: u8 = 0x18;

/// RAM X address counter opcode.
pub const SET_RAMX_COUNTER: u8 = 0x4E;

/// RAM Y address counter opcode.
pub const SET_RAMY_COUNTER: u8 = 0x4F;

/// Write to buffer 1 (black/white plane) opcode.
pub const WRITE_BUFFER1_DATA: u8 = 0x24;

/// Write to buffer 2 (second gray plane) opcode.
pub const WRITE_BUFFER2_DATA: u8 = 0x26;

/// Update display control 2 opcode.
pub const UPDATE_DISPLAY_CTRL2: u8 = 0x22;

/// Master activate opcode.
pub const MASTER_ACTIVATE: u8 = 0x20;

/// Main waveform lookup-table register opcode.
pub const LUT_REGISTER: u8 = 0x32;

/// Frame-rate register opcode.
pub const FRAME_RATE: u8 = 0x3F;

/// Group-select register opcode.
pub const GROUP_SELECT: u8 = 0x03;

/// Group-select extension register opcode.
pub const GROUP_SELECT_EXT: u8 = 0x04;

/// VCOM voltage register opcode.
pub const VCOM_VOLTAGE: u8 = 0x2C;

/// Data entry mode flag: increment X, increment Y.
pub const DATA_ENTRY_INCRY_INCRX: u8 = 0b11;

/// Temperature control flag: use the internal sensor.
pub const INTERNAL_TEMP_SENSOR: u8 = 0x80;

/// Border waveform flag: follow the active waveform table.
pub const BORDER_WAVEFORM_FOLLOW_LUT: u8 = 0b0100;

/// Border waveform flag: waveform group 1.
pub const BORDER_WAVEFORM_LUT1: u8 = 0b0001;

/// Update trigger flag for the monochrome waveforms.
pub const BW_DISPLAY_MODE_1: u8 = 0xF7;

/// Update trigger flag for the four-level gray waveform.
pub const GRAY4_DISPLAY_MODE_1: u8 = 0xC7;

/// The refresh waveform in use: full redraw, partial (fast) redraw, or
/// four-level grayscale redraw.
#[derive(Copy, Clone, Debug, PartialEq, Eq, Structural)]
pub enum LutType {
    /// Full refresh.
    Full,
    /// Partial refresh. Fast, but stresses the panel.
    Partial,
    /// Four-level gray refresh. Stores luma bits inverted in the planes.
    Gray4,
}

/// The 159-byte waveform table for a full refresh.
pub open spec fn full_waveform_spec() -> Seq<u8> {
    seq![
        0x80u8, 0x48u8, 0x40u8, 0x00u8, 0x00u8, 0x00u8, 0x00u8, 0x00u8, 0x00u8, 0x00u8, 0x00u8, 0x00u8,
        0x40u8, 0x48u8, 0x80u8, 0x00u8, 0x00u8, 0x00u8, 0x00u8, 0x00u8, 0x00u8, 0x00u8, 0x00u8, 0x00u8,
        0x80u8, 0x48u8, 0x40u8, 0x00u8, 0x00u8, 0x00u8, 0x00u8, 0x00u8, 0x00u8, 0x00u8, 0x00u8, 0x00u8,
        0x40u8, 0x48u8, 0x80u8, 0x00u8, 0x00u8, 0x00u8, 0x00u8, 0x00u8, 0x00u8, 0x00u8, 0x00u8, 0x00u8,
        0x00u8, 0x00u8, 0x00u8, 0x00u8, 0x00u8, 0x00u8, 0x00u8, 0x00u8, 0x00u8, 0x00u8, 0x00u8, 0x00u8,
        0x0au8, 0x00u8, 0x00u8, 0x00u8, 0x00u8, 0x00u8, 0x00u8, 0x08u8, 0x01u8, 0x00u8, 0x08u8, 0x01u8,
        0x00u8, 0x02u8, 0x0au8, 0x00u8, 0x00u8, 0x00u8, 0x00u8, 0x00u8, 0x00u8, 0x00u8, 0x00u8, 0x00u8,
        0x00u8, 0x00u8, 0x00u8, 0x00u8, 0x00u8, 0x00u8, 0x00u8, 0x00u8, 0x00u8, 0x00u8, 0x00u8, 0x00u8,
        0x00u8, 0x00u8, 0x00u8, 0x00u8, 0x00u8, 0x00u8, 0x00u8, 0x00u8, 0x00u8, 0x00u8, 0x00u8, 0x00u8,
        0x00u8, 0x00u8, 0x00u8, 0x00u8, 0x00u8, 0x00u8, 0x00u8, 0x00u8, 0x00u8, 0x00u8, 0x00u8, 0x00u8,
        0x00u8, 0x00u8, 0x00u8, 0x00u8, 0x00u8, 0x00u8, 0x00u8, 0x00u8, 0x00u8, 0x00u8, 0x00u8, 0x00u8,
        0x00u8, 0x00u8, 0x00u8, 0x00u8, 0x00u8, 0x00u8, 0x00u8, 0x00u8, 0x00u8, 0x00u8, 0x00u8, 0x00u8,
        0x22u8, 0x22u8, 0x22u8, 0x22u8, 0x22u8, 0x22u8, 0x00u8, 0x00u8, 0x00u8, 0x22u8, 0x17u8, 0x41u8,
        0x00u8, 0x32u8, 0x20u8,
    ]
}

/// The 159-byte waveform table for a partial refresh.
pub open spec fn partial_waveform_spec() -> Seq<u8> {
    seq![
        0x00u8, 0x40u8, 0x00u8, 0x00u8, 0x00u8, 0x00u8, 0x00u8, 0x00u8, 0x00u8, 0x00u8, 0x00u8, 0x00u8,
        0x80u8, 0x80u8, 0x00u8, 0x00u8, 0x00u8, 0x00u8, 0x00u8, 0x00u8, 0x00u8, 0x00u8, 0x00u8, 0x00u8,
        0x40u8, 0x40u8, 0x00u8, 0x00u8, 0x00u8, 0x00u8, 0x00u8, 0x00u8, 0x00u8, 0x00u8, 0x00u8, 0x00u8,
        0x00u8, 0x80u8, 0x00u8, 0x00u8, 0x00u8, 0x00u8, 0x00u8, 0x00u8, 0x00u8, 0x00u8, 0x00u8, 0x00u8,
        0x00u8, 0x00u8, 0x00u8, 0x00u8, 0x00u8, 0x00u8, 0x00u8, 0x00u8, 0x00u8, 0x00u8, 0x00u8, 0x00u8,
        0x0fu8, 0x00u8, 0x00u8, 0x00u8, 0x00u8, 0x00u8, 0x00u8, 0x01u8, 0x01u8, 0x00u8, 0x00u8, 0x00u8,
        0x00u8, 0x00u8, 0x00u8, 0x00u8, 0x00u8, 0x00u8, 0x00u8, 0x00u8, 0x00u8, 0x00u8, 0x00u8, 0x00u8,
        0x00u8, 0x00u8, 0x00u8, 0x00u8, 0x00u8, 0x00u8, 0x00u8, 0x00u8, 0x00u8, 0x00u8, 0x00u8, 0x00u8,
        0x00u8, 0x00u8, 0x00u8, 0x00u8, 0x00u8, 0x00u8, 0x00u8, 0x00u8, 0x00u8, 0x00u8, 0x00u8, 0x00u8,
        0x00u8, 0x00u8, 0x00u8, 0x00u8, 0x00u8, 0x00u8, 0x00u8, 0x00u8, 0x00u8, 0x00u8, 0x00u8, 0x00u8,
        0x00u8, 0x00u8, 0x00u8, 0x00u8, 0x00u8, 0x00u8, 0x00u8, 0x00u8, 0x00u8, 0x00u8, 0x00u8, 0x00u8,
        0x00u8, 0x00u8, 0x00u8, 0x00u8, 0x00u8, 0x00u8, 0x00u8, 0x00u8, 0x00u8, 0x00u8, 0x00u8, 0x00u8,
        0x22u8, 0x22u8, 0x22u8, 0x22u8, 0x22u8, 0x22u8, 0x00u8, 0x00u8, 0x00u8, 0x02u8, 0x17u8, 0x41u8,
        0xb0u8, 0x32u8, 0x28u8,
    ]
}

/// The 159-byte waveform table for a four-level gray refresh.
pub open spec fn gray4_waveform_spec() -> Seq<u8> {
    seq![
        0x40u8, 0x48u8, 0x80u8, 0x00u8, 0x00u8, 0x00u8, 0x00u8, 0x00u8, 0x00u8, 0x00u8, 0x00u8, 0x00u8,
        0x08u8, 0x48u8, 0x10u8, 0x00u8, 0x00u8, 0x00u8, 0x00u8, 0x00u8, 0x00u8, 0x00u8, 0x00u8, 0x00u8,
        0x02u8, 0x48u8, 0x04u8, 0x00u8, 0x00u8, 0x00u8, 0x00u8, 0x00u8, 0x00u8, 0x00u8, 0x00u8, 0x00u8,
        0x20u8, 0x48u8, 0x01u8, 0x00u8, 0x00u8, 0x00u8, 0x00u8, 0x00u8, 0x00u8, 0x00u8, 0x00u8, 0x00u8,
        0x00u8, 0x00u8, 0x00u8, 0x00u8, 0x00u8, 0x00u8, 0x00u8, 0x00u8, 0x00u8, 0x00u8, 0x00u8, 0x00u8,
        0x0au8, 0x19u8, 0x00u8, 0x03u8, 0x08u8, 0x00u8, 0x00u8, 0x14u8, 0x01u8, 0x00u8, 0x14u8, 0x01u8,
        0x00u8, 0x03u8, 0x0au8, 0x03u8, 0x00u8, 0x08u8, 0x19u8, 0x00u8, 0x00u8, 0x01u8, 0x00u8, 0x00u8,
        0x00u8, 0x00u8, 0x00u8, 0x01u8, 0x00u8, 0x00u8, 0x00u8, 0x00u8, 0x00u8, 0x00u8, 0x00u8, 0x00u8,
        0x00u8, 0x00u8, 0x00u8, 0x00u8, 0x00u8, 0x00u8, 0x00u8, 0x00u8, 0x00u8, 0x00u8, 0x00u8, 0x00u8,
        0x00u8, 0x00u8, 0x00u8, 0x00u8, 0x00u8, 0x00u8, 0x00u8, 0x00u8, 0x00u8, 0x00u8, 0x00u8, 0x00u8,
        0x00u8, 0x00u8, 0x00u8, 0x00u8, 0x00u8, 0x00u8, 0x00u8, 0x00u8, 0x00u8, 0x00u8, 0x00u8, 0x00u8,
        0x00u8, 0x00u8, 0x00u8, 0x00u8, 0x00u8, 0x00u8, 0x00u8, 0x00u8, 0x00u8, 0x00u8, 0x00u8, 0x00u8,
        0x22u8, 0x22u8, 0x22u8, 0x22u8, 0x22u8, 0x22u8, 0x00u8, 0x00u8, 0x00u8, 0x22u8, 0x17u8, 0x41u8,
        0x00u8, 0x32u8, 0x1cu8,
    ]
}

/// The waveform table a refresh mode selects.
pub open spec fn lut_table(t: LutType) -> Seq<u8> {
    match t {
        LutType::Full => full_waveform_spec(),
        LutType::Partial => partial_waveform_spec(),
        LutType::Gray4 => gray4_waveform_spec(),
    }
}

/// Builds the waveform table a refresh mode selects.
pub fn waveform(t: LutType) -> (r: Vec<u8>)
    ensures
        r@ == lut_table(t),
        r@.len() == 159,
{
    let a: [u8; 159] = match t {
        LutType::Full => [
            0x80, 0x48, 0x40, 0x00, 0x00, 0x00, 0x00, 0x00, 0x00, 0x00, 0x00, 0x00,
            0x40, 0x48, 0x80, 0x00, 0x00, 0x00, 0x00, 0x00, 0x00, 0x00, 0x00, 0x00,
            0x80, 0x48, 0x40, 0x00, 0x00, 0x00, 0x00, 0x00, 0x00, 0x00, 0x00, 0x00,
            0x40, 0x48, 0x80, 0x00, 0x00, 0x00, 0x00, 0x00, 0x00, 0x00, 0x00, 0x00,
            0x00, 0x00, 0x00, 0x00, 0x00, 0x00, 0x00, 0x00, 0x00, 0x00, 0x00, 0x00,
            0x0a, 0x00, 0x00, 0x00, 0x00, 0x00, 0x00, 0x08, 0x01, 0x00, 0x08, 0x01,
            0x00, 0x02, 0x0a, 0x00, 0x00, 0x00, 0x00, 0x00, 0x00, 0x00, 0x00, 0x00,
            0x00, 0x00, 0x00, 0x00, 0x00, 0x00, 0x00, 0x00, 0x00, 0x00, 0x00, 0x00,
            0x00, 0x00, 0x00, 0x00, 0x00, 0x00, 0x00, 0x00, 0x00, 0x00, 0x00, 0x00,
            0x00, 0x00, 0x00, 0x00, 0x00, 0x00, 0x00, 0x00, 0x00, 0x00, 0x00, 0x00,
            0x00, 0x00, 0x00, 0x00, 0x00, 0x00, 0x00, 0x00, 0x00, 0x00, 0x00, 0x00,
            0x00, 0x00, 0x00, 0x00, 0x00, 0x00, 0x00, 0x00, 0x00, 0x00, 0x00, 0x00,
            0x22, 0x22, 0x22, 0x22, 0x22, 0x22, 0x00, 0x00, 0x00, 0x22, 0x17, 0x41,
            0x00, 0x32, 0x20,
        ],
        LutType::Partial => [
            0x00, 0x40, 0x00, 0x00, 0x00, 0x00, 0x00, 0x00, 0x00, 0x00, 0x00, 0x00,
            0x80, 0x80, 0x00, 0x00, 0x00, 0x00, 0x00, 0x00, 0x00, 0x00, 0x00, 0x00,
            0x40, 0x40, 0x00, 0x00, 0x00, 0x00, 0x00, 0x00, 0x00, 0x00, 0x00, 0x00,
            0x00, 0x80, 0x00, 0x00, 0x00, 0x00, 0x00, 0x00, 0x00, 0x00, 0x00, 0x00,
            0x00, 0x00, 0x00, 0x00, 0x00, 0x00, 0x00, 0x00, 0x00, 0x00, 0x00, 0x00,
            0x0f, 0x00, 0x00, 0x00, 0x00, 0x00, 0x00, 0x01, 0x01, 0x00, 0x00, 0x00,
            0x00, 0x00, 0x00, 0x00, 0x00, 0x00, 0x00, 0x00, 0x00, 0x00, 0x00, 0x00,
            0x00, 0x00, 0x00, 0x00, 0x00, 0x00, 0x00, 0x00, 0x00, 0x00, 0x00, 0x00,
            0x00, 0x00, 0x00, 0x00, 0x00, 0x00, 0x00, 0x00, 0x00, 0x00, 0x00, 0x00,
            0x00, 0x00, 0x00, 0x00, 0x00, 0x00, 0x00, 0x00, 0x00, 0x00, 0x00, 0x00,
            0x00, 0x00, 0x00, 0x00, 0x00, 0x00, 0x00, 0x00, 0x00, 0x00, 0x00, 0x00,
            0x00, 0x00, 0x00, 0x00, 0x00, 0x00, 0x00, 0x00, 0x00, 0x00, 0x00, 0x00,
            0x22, 0x22, 0x22, 0x22, 0x22, 0x22, 0x00, 0x00, 0x00, 0x02, 0x17, 0x41,
            0xb0, 0x32, 0x28,
        ],
        LutType::Gray4 => [
            0x40, 0x48, 0x80, 0x00, 0x00, 0x00, 0x00, 0x00, 0x00, 0x00, 0x00, 0x00,
            0x08, 0x48, 0x10, 0x00, 0x00, 0x00, 0x00, 0x00, 0x00, 0x00, 0x00, 0x00,
            0x02, 0x48, 0x04, 0x00, 0x00, 0x00, 0x00, 0x00, 0x00, 0x00, 0x00, 0x00,
            0x20, 0x48, 0x01, 0x00, 0x00, 0x00, 0x00, 0x00, 0x00, 0x00, 0x00, 0x00,
            0x00, 0x00, 0x00, 0x00, 0x00, 0x00, 0x00, 0x00, 0x00, 0x00, 0x00, 0x00,
            0x0a, 0x19, 0x00, 0x03, 0x08, 0x00, 0x00, 0x14, 0x01, 0x00, 0x14, 0x01,
            0x00, 0x03, 0x0a, 0x03, 0x00, 0x08, 0x19, 0x00, 0x00, 0x01, 0x00, 0x00,
            0x00, 0x00, 0x00, 0x01, 0x00, 0x00, 0x00, 0x00, 0x00, 0x00, 0x00, 0x00,
            0x00, 0x00, 0x00, 0x00, 0x00, 0x00, 0x00, 0x00, 0x00, 0x00, 0x00, 0x00,
            0x00, 0x00, 0x00, 0x00, 0x00, 0x00, 0x00, 0x00, 0x00, 0x00, 0x00, 0x00,
            0x00, 0x00, 0x00, 0x00, 0x00, 0x00, 0x00, 0x00, 0x00, 0x00, 0x00, 0x00,
            0x00, 0x00, 0x00, 0x00, 0x00, 0x00, 0x00, 0x00, 0x00, 0x00, 0x00, 0x00,
            0x22, 0x22, 0x22, 0x22, 0x22, 0x22, 0x00, 0x00, 0x00, 0x22, 0x17, 0x41,
            0x00, 0x32, 0x1c,
        ],
    };
    proof {
        assert(a@ =~~= lut_table(t));
    }
    vstd::slice::slice_to_vec(a.as_slice())
}

/// Whether switching from `from` to `to` enters or leaves the four-level
/// gray waveform, whose planes store luma bits inverted.
pub open spec fn crosses_gray4(from: LutType, to: LutType) -> bool {
    (from == LutType::Gray4) != (to == LutType::Gray4)
}

/// Update trigger flag a refresh mode selects.
pub open spec fn trigger_flag(t: LutType) -> u8 {
    if t == LutType::Gray4 {
        GRAY4_DISPLAY_MODE_1
    } else {
        BW_DISPLAY_MODE_1
    }
}

/// Byte controller RAM is flooded with when a buffer is cleared: the two
/// polarity conventions are inverted between the gray and monochrome modes.
pub open spec fn clear_fill_byte(t: LutType) -> u8 {
    if t == LutType::Gray4 {
        0xff
    } else {
        0x00
    }
}

/// Transfers that bound the RAM window: the X range in bytes (eight
/// horizontal pixels per RAM byte, so values are shifted right three
/// bits), then the Y range as two 16-bit little-endian values.
pub open spec fn ram_area_ops(start_x: u32, start_y: u32, end_x: u32, end_y: u32) -> Seq<OpSpec> {
    seq![
        OpSpec::Command(SET_RAMXPOS),
        OpSpec::Data(seq![(start_x >> 3u32) as u8, (end_x >> 3u32) as u8]),
        OpSpec::Command(SET_RAMYPOS),
        OpSpec::Data(
            seq![start_y as u8, (start_y >> 8u32) as u8, end_y as u8, (end_y >> 8u32) as u8],
        ),
    ]
}

/// Transfers that reset the RAM address counters to a coordinate: X in
/// bytes, Y as one 16-bit little-endian value.
pub open spec fn ram_counter_ops(x: u32, y: u32) -> Seq<OpSpec> {
    seq![
        OpSpec::Command(SET_RAMX_COUNTER),
        OpSpec::Data(seq![(x >> 3u32) as u8]),
        OpSpec::Command(SET_RAMY_COUNTER),
        OpSpec::Data(seq![y as u8, (y >> 8u32) as u8]),
    ]
}

/// Transfers that select the whole panel as the RAM window and park the
/// address counters at its top-left corner.
pub open spec fn full_frame_ops() -> Seq<OpSpec> {
    ram_area_ops(0, 0, ((WIDTH - 1) as u32), ((HEIGHT - 1) as u32)) + ram_counter_ops(0, 0)
}

/// Transfers that bound the RAM window to a rectangle and park the address
/// counters at its top-left corner.
pub open spec fn window_ops(w: Rect) -> Seq<OpSpec> {
    ram_area_ops(w.x, w.y, (w.x + w.width) as u32, (w.y + w.height) as u32) + ram_counter_ops(
        w.x,
        w.y,
    )
}

/// Transfers that upload one 159-byte waveform table: the first 153 bytes
/// to the main table register (followed by an idle wait), byte 153 to the
/// frame-rate register, byte 154 to the group-select register, bytes 155
/// through 157 to the group-select extension register and byte 158 to the
/// VCOM voltage register; the main table command is then re-issued bare
/// as a confirm step, and the sequence ends with an idle wait.
pub open spec fn lut_upload_ops(t: Seq<u8>) -> Seq<OpSpec> {
    seq![
        OpSpec::Command(LUT_REGISTER),
        OpSpec::Data(t.subrange(0, 153)),
        OpSpec::WaitUntilIdle,
        OpSpec::Command(FRAME_RATE),
        OpSpec::Data(seq![t[153]]),
        OpSpec::Command(GROUP_SELECT),
        OpSpec::Data(seq![t[154]]),
        OpSpec::Command(GROUP_SELECT_EXT),
        OpSpec::Data(t.subrange(155, 158)),
        OpSpec::Command(VCOM_VOLTAGE),
        OpSpec::Data(seq![t[158]]),
        OpSpec::Command(LUT_REGISTER),
        OpSpec::WaitUntilIdle,
    ]
}

/// Transfers that trigger a refresh: the update-control register takes the
/// trigger flag the active waveform selects, then master-activate starts
/// the refresh, and the busy line is polled until it finishes.
pub open spec fn update_trigger_ops(t: LutType) -> Seq<OpSpec> {
    seq![
        OpSpec::Command(UPDATE_DISPLAY_CTRL2),
        OpSpec::Data(seq![trigger_flag(t)]),
        OpSpec::Command(MASTER_ACTIVATE),
        OpSpec::WaitUntilIdle,
    ]
}

/// Transfers that write one full bit-plane to a buffer register after
/// selecting the whole panel as the RAM window.
pub open spec fn update_frame_ops(buffer_cmd: u8, data: Seq<u8>) -> Seq<OpSpec> {
    full_frame_ops() + seq![OpSpec::Command(buffer_cmd), OpSpec::Data(data)]
}

/// Transfers that flood one buffer register with a fill byte for the whole
/// panel, after selecting the whole panel as the RAM window.
pub open spec fn clear_frame_ops(buffer_cmd: u8, fill: u8) -> Seq<OpSpec> {
    full_frame_ops() + seq![
        OpSpec::Command(buffer_cmd),
        OpSpec::DataRepeated(fill, (WIDTH / 8 * HEIGHT) as u32),
    ]
}

/// Transfers that initialize the controller: reset pulse, software reset,
/// idle wait, gate driver range set to the panel height minus one,
/// full-frame RAM window, border waveform following the active table's
/// first group, data entry mode incrementing both axes, internal
/// temperature sensor enable, and a final idle wait.
pub open spec fn init_ops() -> Seq<OpSpec> {
    seq![
        OpSpec::Reset,
        OpSpec::Command(SW_RESET),
        OpSpec::WaitUntilIdle,
        OpSpec::Command(DRIVER_CONTROL),
        OpSpec::Data(seq![((HEIGHT as u32) - 1) as u8, 0u8, 0u8]),
    ] + full_frame_ops() + seq![
        OpSpec::Command(BORDER_WAVEFORM_CONTROL),
        OpSpec::Data(seq![BORDER_WAVEFORM_FOLLOW_LUT | BORDER_WAVEFORM_LUT1]),
        OpSpec::Command(DATA_ENTRY_MODE),
        OpSpec::Data(seq![DATA_ENTRY_INCRY_INCRX]),
        OpSpec::Command(TEMP_CONTROL),
        OpSpec::Data(seq![INTERNAL_TEMP_SENSOR]),
        OpSpec::WaitUntilIdle,
    ]
}

/// A window rectangle the controller can address: at least one pixel on
/// each axis, with coordinates that do not wrap.
pub open spec fn valid_window(w: Rect) -> bool {
    w.width >= 1 && w.height >= 1 && w.x + w.width <= u32::MAX && w.y + w.height <= u32::MAX
}

/// Law: entering or leaving the four-level gray waveform crosses the
/// inversion boundary; switching between the full and partial waveforms,
/// or re-selecting the current one, never does.
pub proof fn lemma_gray4_crossing()
    ensures
        crosses_gray4(LutType::Full, LutType::Gray4),
        crosses_gray4(LutType::Gray4, LutType::Full),
        crosses_gray4(LutType::Partial, LutType::Gray4),
        crosses_gray4(LutType::Gray4, LutType::Partial),
        !crosses_gray4(LutType::Full, LutType::Partial),
        !crosses_gray4(LutType::Partial, LutType::Full),
        !crosses_gray4(LutType::Full, LutType::Full),
        !crosses_gray4(LutType::Partial, LutType::Partial),
        !crosses_gray4(LutType::Gray4, LutType::Gray4),
{
}

/// Law: all three waveform tables are exactly 159 bytes.
pub proof fn lemma_waveform_lengths()
    ensures
        full_waveform_spec().len() == 159,
        partial_waveform_spec().len() == 159,
        gray4_waveform_spec().len() == 159,
        forall|t: LutType| (#[trigger] lut_table(t)).len() == 159,
{
    assert forall|t: LutType| (#[trigger] lut_table(t)).len() == 159 by {
        match t {
            LutType::Full => assert(lut_table(t).len() == 159),
            LutType::Partial => assert(lut_table(t).len() == 159),
            LutType::Gray4 => assert(lut_table(t).len() == 159),
        }
    }
}

/// Law: the sub-slices a waveform upload sends, in order the first 153
/// bytes, byte 153, byte 154, bytes 155 through 157 and byte 158,
/// partition the 159-byte table without gaps or overlaps.
pub proof fn lemma_lut_upload_partition(t: Seq<u8>)
    requires
        t.len() == 159,
    ensures
        t.subrange(0, 153) + seq![t[153]] + seq![t[154]] + t.subrange(155, 158) + seq![t[158]]
            == t,
{
    assert(t.subrange(0, 153) + seq![t[153]] + seq![t[154]] + t.subrange(155, 158) + seq![t[158]]
        =~~= t);
}

/// A configured controller driver: owns the transport record, the active
/// waveform selection and the optional partial-update window.
pub struct Ssd1681 {
    interface: DisplayInterface,
    window: Option<Rect>,
    lut_type: LutType,
}

impl Ssd1681 {
    /// Transport operations recorded and not yet handed out.
    pub closed spec fn log(&self) -> Seq<OpSpec> {
        self.interface.log()
    }

    /// The waveform table the driver believes the controller holds.
    pub closed spec fn lut(&self) -> LutType {
        self.lut_type
    }

    /// The active partial-update window, if one is set.
    pub closed spec fn window_spec(&self) -> Option<Rect> {
        self.window
    }

    /// Create the driver and record the controller initialization
    /// sequence: the waveform starts at full refresh with no window set.
    pub fn new() -> (r: Ssd1681)
        ensures
            r.lut() == LutType::Full,
            r.window_spec() == Option::<Rect>::None,
            r.log() == init_ops(),
    {
        let mut driver = Ssd1681 {
            interface: DisplayInterface::new(),
            window: None,
            lut_type: LutType::Full,
        };
        driver.init();
        driver
    }

    /// Records the initialization sequence.
    fn init(&mut self)
        ensures
            final(self).log() == old(self).log() + init_ops(),
            final(self).lut_type == old(self).lut_type,
            final(self).window == old(self).window,
    {
        self.interface.reset();
        self.interface.cmd(SW_RESET);
        self.interface.wait_until_idle();

        let driver_range: [u8; 3] = [(HEIGHT as u8) - 1, 0x00, 0x00];
        self.interface.cmd_with_data(DRIVER_CONTROL, driver_range.as_slice());

        self.use_full_frame();

        let border: [u8; 1] = [BORDER_WAVEFORM_FOLLOW_LUT | BORDER_WAVEFORM_LUT1];
        self.interface.cmd_with_data(BORDER_WAVEFORM_CONTROL, border.as_slice());

        let entry_mode: [u8; 1] = [DATA_ENTRY_INCRY_INCRX];
        self.interface.cmd_with_data(DATA_ENTRY_MODE, entry_mode.as_slice());

        let temp: [u8; 1] = [INTERNAL_TEMP_SENSOR];
        self.interface.cmd_with_data(TEMP_CONTROL, temp.as_slice());

        self.interface.wait_until_idle();
        proof {
            assert(self.log() =~~= old(self).log() + init_ops());
        }
    }

    /// Applies the inversion rule against the current waveform, records the
    /// upload of the new waveform table, and remembers the new selection.
    /// Entering or leaving the four-level gray waveform inverts the
    /// framebuffer exactly once; switching between full and partial, or
    /// re-selecting the current waveform, leaves it untouched.
    pub fn set_lut<D: Display>(&mut self, lut_type: LutType, display: &mut D)
        requires
            old(display).wf(),
        ensures
            final(self).lut() == lut_type,
            final(self).window_spec() == old(self).window_spec(),
            final(self).log() == old(self).log() + lut_upload_ops(lut_table(lut_type)),
            final(display).wf(),
            final(display).rot() == old(display).rot(),
            crosses_gray4(old(self).lut(), lut_type) ==> final(display).is_inverted()
                == !old(display).is_inverted() && final(display).plane1() == complement_bytes(
                old(display).plane1(),
            ) && final(display).plane2() == complement_bytes(old(display).plane2()),
            !crosses_gray4(old(self).lut(), lut_type) ==> final(display).is_inverted()
                == old(display).is_inverted() && final(display).plane1() == old(display).plane1()
                && final(display).plane2() == old(display).plane2(),
    {
        match self.lut_type {
            LutType::Gray4 => {
                if lut_type != LutType::Gray4 {
                    display.invert_display();
                }
            },
            _ => {
                if lut_type == LutType::Gray4 {
                    display.invert_display();
                }
            },
        }
        let lut = waveform(lut_type);
        self.lut_type = lut_type;

        self.interface.cmd_with_data(
            LUT_REGISTER,
            vstd::slice::slice_subrange(lut.as_slice(), 0, 153),
        );
        self.interface.wait_until_idle();

        let frame_rate: [u8; 1] = [lut[153]];
        self.interface.cmd_with_data(FRAME_RATE, frame_rate.as_slice());
        let group_select: [u8; 1] = [lut[154]];
        self.interface.cmd_with_data(GROUP_SELECT, group_select.as_slice());
        self.interface.cmd_with_data(
            GROUP_SELECT_EXT,
            vstd::slice::slice_subrange(lut.as_slice(), 155, 158),
        );
        let vcom: [u8; 1] = [lut[158]];
        self.interface.cmd_with_data(VCOM_VOLTAGE, vcom.as_slice());

        self.interface.cmd(LUT_REGISTER);
        self.interface.wait_until_idle();
        proof {
            assert(self.log() =~~= old(self).log() + lut_upload_ops(lut_table(lut_type)));
        }
    }

    /// The waveform selection the driver last uploaded.
    pub fn current_lut_type(&self) -> (r: LutType)
        ensures
            r == self.lut(),
    {
        self.lut_type
    }

    /// Records a transfer of `buffer` into controller buffer 1, always
    /// re-selecting the whole panel first: a full-buffer transfer targets
    /// the whole panel regardless of an active window.
    pub fn update_frame1(&mut self, buffer: &[u8])
        ensures
            final(self).log() == old(self).log() + update_frame_ops(WRITE_BUFFER1_DATA, buffer@),
            final(self).lut() == old(self).lut(),
            final(self).window_spec() == old(self).window_spec(),
    {
        self.use_full_frame();
        self.interface.cmd_with_data(WRITE_BUFFER1_DATA, buffer);
        proof {
            assert(self.log() =~~= old(self).log() + update_frame_ops(
                WRITE_BUFFER1_DATA,
                buffer@,
            ));
        }
    }

    /// Records a transfer of `buffer` into controller buffer 2, always
    /// re-selecting the whole panel first.
    pub fn update_frame2(&mut self, buffer: &[u8])
        ensures
            final(self).log() == old(self).log() + update_frame_ops(WRITE_BUFFER2_DATA, buffer@),
            final(self).lut() == old(self).lut(),
            final(self).window_spec() == old(self).window_spec(),
    {
        self.use_full_frame();
        self.interface.cmd_with_data(WRITE_BUFFER2_DATA, buffer);
        proof {
            assert(self.log() =~~= old(self).log() + update_frame_ops(
                WRITE_BUFFER2_DATA,
                buffer@,
            ));
        }
    }

    /// Records the transfer of both planes of a framebuffer, plane 1 then
    /// plane 2.
    pub fn update_frames<D: Display>(&mut self, buffers: &D)
        requires
            buffers.wf(),
        ensures
            final(self).log() == old(self).log() + update_frame_ops(
                WRITE_BUFFER1_DATA,
                buffers.plane1(),
            ) + update_frame_ops(WRITE_BUFFER2_DATA, buffers.plane2()),
            final(self).lut() == old(self).lut(),
            final(self).window_spec() == old(self).window_spec(),
    {
        self.update_frame1(buffers.buffer1());
        self.update_frame2(buffers.buffer2());
    }

    /// Sets the partial-update window and records the RAM addressing that
    /// bounds subsequent transfers to it.
    pub fn set_window(&mut self, window: Rect)
        requires
            valid_window(window),
        ensures
            final(self).window_spec() == Some(window),
            final(self).lut() == old(self).lut(),
            final(self).log() == old(self).log() + window_ops(window),
    {
        self.window = Some(window);
        self.use_window(window);
    }

    /// Clears the partial-update window and records the RAM addressing
    /// that restores the full-panel bounds.
    pub fn unset_window(&mut self)
        ensures
            final(self).window_spec() == Option::<Rect>::None,
            final(self).lut() == old(self).lut(),
            final(self).log() == old(self).log() + full_frame_ops(),
    {
        self.window = None;
        self.use_full_frame();
    }

    /// The active partial-update window, if one is set.
    pub fn current_window(&self) -> (r: Option<Rect>)
        ensures
            r == self.window_spec(),
    {
        self.window
    }

    /// Records a refresh trigger for whatever RAM window is currently
    /// active: update-control flag for the active waveform, master
    /// activate, then a busy wait while the panel redraws.
    pub fn display_window(&mut self)
        ensures
            final(self).log() == old(self).log() + update_trigger_ops(old(self).lut()),
            final(self).lut() == old(self).lut(),
            final(self).window_spec() == old(self).window_spec(),
    {
        let flag: [u8; 1] = match self.lut_type {
            LutType::Gray4 => [GRAY4_DISPLAY_MODE_1],
            _ => [BW_DISPLAY_MODE_1],
        };
        self.interface.cmd_with_data(UPDATE_DISPLAY_CTRL2, flag.as_slice());
        self.interface.cmd(MASTER_ACTIVATE);
        self.interface.wait_until_idle();
        proof {
            assert(self.log() =~~= old(self).log() + update_trigger_ops(old(self).lut()));
        }
    }

    /// Records a refresh of the whole display: re-selects the full-panel
    /// window first, then triggers the update.
    pub fn display_frame(&mut self)
        ensures
            final(self).log() == old(self).log() + full_frame_ops() + update_trigger_ops(
                old(self).lut(),
            ),
            final(self).lut() == old(self).lut(),
            final(self).window_spec() == old(self).window_spec(),
    {
        self.use_full_frame();
        self.display_window();
    }

    /// Records a flood fill of controller buffer 1 with the fill byte the
    /// active waveform selects, covering the whole panel.
    pub fn clear_frame1(&mut self)
        ensures
            final(self).log() == old(self).log() + clear_frame_ops(
                WRITE_BUFFER1_DATA,
                clear_fill_byte(old(self).lut()),
            ),
            final(self).lut() == old(self).lut(),
            final(self).window_spec() == old(self).window_spec(),
    {
        self.use_full_frame();
        let color: u8 = match self.lut_type {
            LutType::Gray4 => 0xff,
            _ => 0,
        };
        self.interface.cmd(WRITE_BUFFER1_DATA);
        self.interface.data_x_times(color, (WIDTH as u32) / 8 * (HEIGHT as u32));
        proof {
            assert(self.log() =~~= old(self).log() + clear_frame_ops(
                WRITE_BUFFER1_DATA,
                clear_fill_byte(old(self).lut()),
            ));
        }
    }

    /// Records a flood fill of controller buffer 2 with the fill byte the
    /// active waveform selects, covering the whole panel.
    pub fn clear_frame2(&mut self)
        ensures
            final(self).log() == old(self).log() + clear_frame_ops(
                WRITE_BUFFER2_DATA,
                clear_fill_byte(old(self).lut()),
            ),
            final(self).lut() == old(self).lut(),
            final(self).window_spec() == old(self).window_spec(),
    {
        self.use_full_frame();
        let color: u8 = match self.lut_type {
            LutType::Gray4 => 0xff,
            _ => 0,
        };
        self.interface.cmd(WRITE_BUFFER2_DATA);
        self.interface.data_x_times(color, (WIDTH as u32) / 8 * (HEIGHT as u32));
        proof {
            assert(self.log() =~~= old(self).log() + clear_frame_ops(
                WRITE_BUFFER2_DATA,
                clear_fill_byte(old(self).lut()),
            ));
        }
    }

    /// Records a flood fill of both controller buffers.
    pub fn clear_frames(&mut self)
        ensures
            final(self).log() == old(self).log() + clear_frame_ops(
                WRITE_BUFFER1_DATA,
                clear_fill_byte(old(self).lut()),
            ) + clear_frame_ops(WRITE_BUFFER2_DATA, clear_fill_byte(old(self).lut())),
            final(self).lut() == old(self).lut(),
            final(self).window_spec() == old(self).window_spec(),
    {
        self.clear_frame1();
        self.clear_frame2();
    }

    /// Hands the recorded transport operations out for the bus shell to
    /// perform, leaving the record empty.
    pub fn take_ops(&mut self) -> (r: Vec<TransportOp>)
        ensures
            ops_view(r@) == old(self).log(),
            final(self).log() == Seq::<OpSpec>::empty(),
            final(self).lut() == old(self).lut(),
            final(self).window_spec() == old(self).window_spec(),
    {
        self.interface.take_ops()
    }

    /// Records the RAM addressing that selects the whole panel and parks
    /// the address counters at its top-left corner.
    fn use_full_frame(&mut self)
        ensures
            final(self).log() == old(self).log() + full_frame_ops(),
            final(self).lut_type == old(self).lut_type,
            final(self).window == old(self).window,
    {
        self.set_ram_area(0, 0, (WIDTH as u32) - 1, (HEIGHT as u32) - 1);
        self.set_ram_counter(0, 0);
        proof {
            assert(self.log() =~~= old(self).log() + full_frame_ops());
        }
    }

    /// Records the RAM addressing for a window rectangle.
    fn use_window(&mut self, window: Rect)
        requires
            valid_window(window),
        ensures
            final(self).log() == old(self).log() + window_ops(window),
            final(self).lut_type == old(self).lut_type,
            final(self).window == old(self).window,
    {
        let end_x = window.x + window.width;
        let end_y = window.y + window.height;
        self.set_ram_area(window.x, window.y, end_x, end_y);
        self.set_ram_counter(window.x, window.y);
        proof {
            assert(self.log() =~~= old(self).log() + window_ops(window));
        }
    }

    /// Records the RAM X and Y position registers bounding the addressable
    /// area. The start must lie strictly before the end on each axis: a
    /// violation is a malformed rectangle, a programming error.
    fn set_ram_area(&mut self, start_x: u32, start_y: u32, end_x: u32, end_y: u32)
        requires
            start_x < end_x,
            start_y < end_y,
        ensures
            final(self).log() == old(self).log() + ram_area_ops(start_x, start_y, end_x, end_y),
            final(self).lut_type == old(self).lut_type,
            final(self).window == old(self).window,
    {
        let xpos: [u8; 2] = [(start_x >> 3u32) as u8, (end_x >> 3u32) as u8];
        self.interface.cmd_with_data(SET_RAMXPOS, xpos.as_slice());

        let ypos: [u8; 4] = [
            start_y as u8,
            (start_y >> 8u32) as u8,
            end_y as u8,
            (end_y >> 8u32) as u8,
        ];
        self.interface.cmd_with_data(SET_RAMYPOS, ypos.as_slice());
        proof {
            assert(self.log() =~~= old(self).log() + ram_area_ops(start_x, start_y, end_x, end_y));
        }
    }

    /// Records the RAM address counters: X in bytes, so the low three bits
    /// of the X coordinate are dropped.
    fn set_ram_counter(&mut self, x: u32, y: u32)
        ensures
            final(self).log() == old(self).log() + ram_counter_ops(x, y),
            final(self).lut_type == old(self).lut_type,
            final(self).window == old(self).window,
    {
        let xb: [u8; 1] = [(x >> 3u32) as u8];
        self.interface.cmd_with_data(SET_RAMX_COUNTER, xb.as_slice());

        let yb: [u8; 2] = [y as u8, (y >> 8u32) as u8];
        self.interface.cmd_with_data(SET_RAMY_COUNTER, yb.as_slice());
        proof {
            assert(self.log() =~~= old(self).log() + ram_counter_ops(x, y));
        }
    }
}

} // verus!
