//! Display geometry constants.

use vstd::prelude::*;

verus! {

/// Number of pixel columns of the display.
pub const DISPLAY_WIDTH: u8 = 128;

/// Number of pixel rows of the display.
pub const DISPLAY_HEIGHT: u8 = 64;

/// Size of a packed framebuffer in bytes: one byte holds 8 vertically
/// stacked pixels, so the buffer is `width * height / 8` bytes long.
pub const BUFFER_SIZE: usize = 128 * 64 / 8;

} // verus!
