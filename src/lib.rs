//! Driver logic for the ST7567 monochrome LCD controller: a packed page-major
//! framebuffer and the command/data transfers that bring the controller up
//! and stream the framebuffer to it.
pub mod constants;
pub mod display;
pub mod sequence;
pub mod transfer;

pub use display::{BacklightStatus, Bias, DisplayErrors, ScreenDirection, ST7567};
