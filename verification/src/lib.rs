//! Driver for the ST7567S segment-addressed LCD controller.
//!
//! The driver translates a logical 128x64 monochrome framebuffer into the
//! command/data byte sequence the controller understands. It works in two
//! modes:
//!
//! - Direct write mode (the default): the caller owns the pixel buffer and
//!   hands it to [`display::ST7567S::draw`] or
//!   [`display::ST7567S::bounded_draw`] on every update.
//! - Buffered mode: the driver owns a framebuffer, mutated through
//!   [`display::ST7567S::set_pixel`] and [`display::ST7567S::clear`] and sent
//!   with [`display::ST7567S::flush`].
//!
//! The heart of the crate is the region flush encoder in [`encode`]: it lowers
//! a rectangular window of the packed buffer into the controller's
//! page/column addressing model, and its output is specified byte for byte.

pub mod command;
pub mod consts;
pub mod controller;
pub mod display;
pub mod encode;
pub mod error;
pub mod interface;
pub mod pixel;
