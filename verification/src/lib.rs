//! Driver library for an SSD1681 e-paper display controller: a verified
//! framebuffer with rotation-aware pixel packing, and a controller driver
//! that plans the exact command/data byte stream for the chip.
use vstd::prelude::*;

pub mod color;
pub mod graphics;
pub mod driver;
pub mod interface;
pub mod prelude;

verus! {

/// Width of the supported panel in pixels.
pub const WIDTH: usize = 200;

/// Height of the supported panel in pixels.
pub const HEIGHT: usize = 200;

/// Number of bytes in one full bit-plane: eight pixels per byte.
pub const PLANE_BYTES: usize = 5000;

/// The plane size is exactly `WIDTH / 8 * HEIGHT`.
pub proof fn lemma_plane_bytes()
    ensures
        PLANE_BYTES == WIDTH / 8 * HEIGHT,
{
}

} // verus!
