//! The four gray levels a two-plane framebuffer can represent.
use vstd::prelude::*;

verus! {

/// A 2-bit gray level. `White` has luma 3, `Black` luma 0; the two bits of
/// the luma are stored on separate bit-planes of the framebuffer.
#[derive(Clone, Copy, Debug, PartialEq, Eq, Structural)]
pub enum Color {
    /// Luma 0.
    Black,
    /// Luma 1.
    DarkGray,
    /// Luma 2.
    LightGray,
    /// Luma 3.
    White,
}

impl Color {
    /// The 2-bit luma value of this gray level.
    pub open spec fn luma_spec(self) -> u8 {
        match self {
            Color::Black => 0,
            Color::DarkGray => 1,
            Color::LightGray => 2,
            Color::White => 3,
        }
    }

    /// Returns the 2-bit luma value: 0 for black up to 3 for white.
    pub fn luma(self) -> (r: u8)
        ensures
            r == self.luma_spec(),
            r < 4,
    {
        match self {
            Color::Black => 0,
            Color::DarkGray => 1,
            Color::LightGray => 2,
            Color::White => 3,
        }
    }

    /// The gray level whose luma is the low two bits of `luma`.
    pub open spec fn from_luma_spec(luma: u8) -> Color {
        match luma & 3 {
            0 => Color::Black,
            1 => Color::DarkGray,
            2 => Color::LightGray,
            _ => Color::White,
        }
    }

    /// Builds the gray level for the low two bits of `luma`; higher bits are ignored.
    pub fn from_luma(luma: u8) -> (r: Color)
        ensures
            r == Color::from_luma_spec(luma),
            r.luma_spec() == luma & 3,
    {
        let low = luma & 3;
        assert(luma & 3 < 4) by (bit_vector);
        if low == 0 {
            Color::Black
        } else if low == 1 {
            Color::DarkGray
        } else if low == 2 {
            Color::LightGray
        } else {
            Color::White
        }
    }
}

} // verus!
