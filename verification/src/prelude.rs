//! Useful exports.
pub use crate::color::Color;
pub use crate::driver::Ssd1681;
pub use crate::graphics::{Display, Display1in54, DisplayRotation};
