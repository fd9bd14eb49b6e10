//! Display driver.
//!
//! The driver owns the transport handle and, in buffered mode, one
//! framebuffer. Every operation first encodes what it wants to say as
//! chunks (see [`crate::encode`]) and only then hands them to the
//! transport, so validation always precedes the first wire write and a
//! rejected request performs none.

use vstd::prelude::*;

use display_interface::{DataFormat, DisplayError, WriteOnlyDataCommand};

use crate::command::{encode_command, ResetCommand};
use crate::consts::{BUFFER_SIZE, DISPLAY_HEIGHT, DISPLAY_WIDTH};
use crate::encode::{
    chunks_view, commands_fit, encode_region, init_chunks, lemma_flush_trace_commands_fit,
    lemma_init_trace_commands_fit, spec_valid_rect, Chunk,
};
use crate::error::Error;
use crate::pixel::{
    lemma_pixel_index_in_range, pixel_bit, pixel_index, set_bit, spec_zero_buffer, zero_buffer_vec,
};

verus! {

/// Relies on `WriteOnlyDataCommand::send_commands`: hands the bytes to the
/// transport as one ordered command write. Nothing is promised of the
/// outcome - the channel may reject any write. Short writes only: the I2C
/// transport prefixes the run into a small fixed buffer.
#[verifier::external_body]
fn send_command_bytes<DI: WriteOnlyDataCommand>(
    display_interface: &mut DI,
    bytes: &Vec<u8>,
) -> (r: Result<(), DisplayError>)
    requires
        bytes@.len() <= 2,
{
    display_interface.send_commands(DataFormat::U8(bytes.as_slice()))
}

/// Relies on `WriteOnlyDataCommand::send_data`: hands the bytes to the
/// transport as one ordered data write. Nothing is promised of the
/// outcome - the channel may reject any write.
#[verifier::external_body]
fn send_data_bytes<DI: WriteOnlyDataCommand>(
    display_interface: &mut DI,
    bytes: &Vec<u8>,
) -> (r: Result<(), DisplayError>)
{
    display_interface.send_data(DataFormat::U8(bytes.as_slice()))
}

/// Send a chunk sequence to the transport in order, stopping at the first
/// failure.
fn send_all<DI: WriteOnlyDataCommand>(display_interface: &mut DI, chunks: &Vec<Chunk>) -> (r:
    Result<(), Error>)
    requires
        commands_fit(chunks_view(chunks@)),
    ensures
        r is Ok || r matches Err(Error::Transport(_)),
{
    let mut i: usize = 0;
    while i < chunks.len()
        invariant
            commands_fit(chunks_view(chunks@)),
            i <= chunks@.len(),
        decreases chunks@.len() - i,
    {
        let sent = match &chunks[i] {
            Chunk::Commands(bytes) => {
                proof {
                    assert(chunks_view(chunks@)[i as int] == chunks@[i as int]@);
                }
                send_command_bytes(display_interface, bytes)
            },
            Chunk::Data(bytes) => send_data_bytes(display_interface, bytes),
        };
        match sent {
            Ok(()) => {},
            Err(e) => {
                return Err(Error::Transport(e));
            },
        }
        i = i + 1;
    }
    Ok(())
}

/// ST7567S display driver.
///
/// Works in two modes:
/// - Direct write mode (the default): the caller owns the pixel buffer and
///   hands it to [`Self::draw`] or [`Self::bounded_draw`] on every update.
/// - Buffered mode: the driver owns a framebuffer, mutated through
///   [`Self::set_pixel`] and [`Self::clear`] and sent with
///   [`Self::flush`].
pub struct ST7567S<DI, MODE> {
    mode: MODE,
    display_interface: DI,
}

/// Basic mode allowing only direct writes to the controller memory. It
/// carries no buffer, so a driver that never needs one pays no memory for
/// it, and the buffer-owning operations do not exist on it.
pub struct DirectWriteMode;

/// Buffered mode: owns a framebuffer, collects changes, flushes on demand.
pub struct BufferedMode {
    buffer: Vec<u8>,
}

impl BufferedMode {
    /// The packed buffer contents.
    pub closed spec fn spec_buffer(&self) -> Seq<u8> {
        self.buffer@
    }

    pub(crate) fn new() -> (r: Self)
        ensures
            r.spec_buffer() == spec_zero_buffer(),
    {
        BufferedMode { buffer: zero_buffer_vec() }
    }
}

impl<DI, MODE> ST7567S<DI, MODE> {
    /// The driver's mode value.
    pub closed spec fn spec_mode(&self) -> MODE {
        self.mode
    }

    /// The driver's transport handle.
    pub closed spec fn spec_interface(&self) -> DI {
        self.display_interface
    }
}

impl<DI> ST7567S<DI, BufferedMode> {
    /// The owned framebuffer's contents.
    pub open spec fn buffer_view(&self) -> Seq<u8> {
        self.spec_mode().spec_buffer()
    }

    /// Well-formed: the owned buffer has the exact packed size.
    pub open spec fn wf(&self) -> bool {
        self.buffer_view().len() == BUFFER_SIZE
    }
}

impl<DI: WriteOnlyDataCommand> ST7567S<DI, DirectWriteMode> {
    /// Create a new driver in direct write mode around a transport.
    pub fn new(display_interface: DI) -> (r: Self)
        ensures
            r.spec_interface() == display_interface,
    {
        ST7567S { mode: DirectWriteMode, display_interface }
    }

    /// Move the driver to buffered mode, around a fresh all-zero buffer.
    /// One-way: the buffer exists from here on.
    pub fn into_buffered_graphics_mode(self) -> (r: ST7567S<DI, BufferedMode>)
        ensures
            r.spec_interface() == self.spec_interface(),
            r.buffer_view() == spec_zero_buffer(),
            r.wf(),
    {
        ST7567S { mode: BufferedMode::new(), display_interface: self.display_interface }
    }
}

impl<DI: WriteOnlyDataCommand> ST7567S<DI, BufferedMode> {
    /// Reset every byte of the internal buffer to zero: all pixels off.
    pub fn clear(&mut self)
        ensures
            final(self).buffer_view() == spec_zero_buffer(),
            final(self).wf(),
            final(self).spec_interface() == old(self).spec_interface(),
    {
        self.mode.buffer = zero_buffer_vec();
    }

    /// Set one pixel in the internal buffer.
    ///
    /// Coordinates run from the top left corner. An out-of-bounds
    /// coordinate reports `OutOfBounds` and changes nothing; otherwise
    /// exactly the addressed bit of the packed byte is replaced.
    pub fn set_pixel(&mut self, x: u8, y: u8, value: bool) -> (r: Result<(), Error>)
        requires
            old(self).wf(),
        ensures
            final(self).wf(),
            final(self).spec_interface() == old(self).spec_interface(),
            x < DISPLAY_WIDTH && y < DISPLAY_HEIGHT ==> r is Ok && final(self).buffer_view()
                == old(self).buffer_view().update(
                pixel_index(x, y),
                set_bit(old(self).buffer_view()[pixel_index(x, y)], pixel_bit(y), value),
            ),
            !(x < DISPLAY_WIDTH && y < DISPLAY_HEIGHT) ==> r == Err::<(), Error>(
                Error::OutOfBounds,
            ) && final(self).buffer_view() == old(self).buffer_view(),
    {
        if x >= DISPLAY_WIDTH || y >= DISPLAY_HEIGHT {
            return Err(Error::OutOfBounds);
        }

        let column: usize = x as usize;
        let page: usize = (y / 8) as usize;
        let page_bit: u8 = y % 8;

        let byte_idx: usize = page * (DISPLAY_WIDTH as usize) + column;
        proof {
            lemma_pixel_index_in_range(x, y);
            assert(byte_idx == pixel_index(x, y));
        }
        let byte = self.mode.buffer[byte_idx];
        let bit_value: u8 = if value {
            1
        } else {
            0
        };
        let new_byte = byte & !(1u8 << page_bit) | (bit_value << page_bit);
        proof {
            if value {
                assert(byte & !(1u8 << page_bit) | (1u8 << page_bit) == (byte | (1u8 << page_bit)))
                    by (bit_vector)
                    requires
                        page_bit < 8,
                ;
            } else {
                assert(byte & !(1u8 << page_bit) | (0u8 << page_bit) == (byte & !(1u8 << page_bit)))
                    by (bit_vector)
                    requires
                        page_bit < 8,
                ;
            }
        }
        self.mode.buffer[byte_idx] = new_byte;

        Ok(())
    }

    /// The internal buffer's bytes, for inspection. Mutation goes through
    /// [`Self::set_pixel`] and [`Self::clear`] alone, which keeps the
    /// packing invariant.
    pub fn buffer(&self) -> (r: &[u8])
        ensures
            r@ == self.buffer_view(),
    {
        self.mode.buffer.as_slice()
    }

    /// Send the internal buffer to the display: a whole-display region
    /// flush. Only the transport can fail here; the buffer is untouched.
    pub fn flush(&mut self) -> (r: Result<(), Error>)
        requires
            old(self).wf(),
        ensures
            final(self).wf(),
            final(self).buffer_view() == old(self).buffer_view(),
            r is Ok || r matches Err(Error::Transport(_)),
    {
        let chunks = encode_region(
            self.mode.buffer.as_slice(),
            (0, 0),
            (DISPLAY_WIDTH - 1, DISPLAY_HEIGHT - 1),
        ).unwrap();
        proof {
            lemma_flush_trace_commands_fit(
                self.mode.buffer@,
                (0u8, 0u8),
                ((DISPLAY_WIDTH - 1) as u8, (DISPLAY_HEIGHT - 1) as u8),
            );
        }
        send_all(&mut self.display_interface, &chunks)
    }
}

impl<DI: WriteOnlyDataCommand, MODE> ST7567S<DI, MODE> {
    /// Send the power-up sequence and turn the display on: the fixed
    /// command list of [`crate::encode::init_trace`], which ends in a
    /// whole-display zero draw and display-on, and nothing else.
    pub fn init(&mut self) -> (r: Result<(), Error>)
        ensures
            final(self).spec_mode() == old(self).spec_mode(),
            r is Ok || r matches Err(Error::Transport(_)),
    {
        let chunks = init_chunks();
        proof {
            lemma_init_trace_commands_fit();
        }
        send_all(&mut self.display_interface, &chunks)
    }

    /// Send the single software-reset command, restoring the controller's
    /// default start line, column, page and COM direction.
    pub fn reset(&mut self) -> (r: Result<(), Error>)
        ensures
            final(self).spec_mode() == old(self).spec_mode(),
            r is Ok || r matches Err(Error::Transport(_)),
    {
        let bytes = encode_command(ResetCommand.command(), None);
        match send_command_bytes(&mut self.display_interface, &bytes) {
            Ok(()) => Ok(()),
            Err(e) => Err(Error::Transport(e)),
        }
    }

    /// Send a caller-supplied whole-display buffer to the display.
    ///
    /// The buffer is 8 pages of 128 columns, one byte per 8 vertical
    /// pixels; any other length reports `OutOfBounds` before anything is
    /// sent.
    pub fn draw(&mut self, buffer: &[u8]) -> (r: Result<(), Error>)
        ensures
            final(self).spec_mode() == old(self).spec_mode(),
            buffer@.len() == BUFFER_SIZE ==> (r is Ok || r matches Err(Error::Transport(_))),
            buffer@.len() != BUFFER_SIZE ==> r == Err::<(), Error>(Error::OutOfBounds),
    {
        if buffer.len() != BUFFER_SIZE {
            return Err(Error::OutOfBounds);
        }

        self.bounded_draw(buffer, (0, 0), (DISPLAY_WIDTH - 1, DISPLAY_HEIGHT - 1))
    }

    /// Send one rectangle of a caller-supplied whole-display buffer to the
    /// display.
    ///
    /// `top_left` and `bottom_right` are inclusive pixel corners. The
    /// buffer must have the exact packed size and the rectangle must lie
    /// within the display with ordered corners; any violation reports
    /// `OutOfBounds` and performs no transport write at all.
    pub fn bounded_draw(
        &mut self,
        buffer: &[u8],
        top_left: (u8, u8),
        bottom_right: (u8, u8),
    ) -> (r: Result<(), Error>)
        ensures
            final(self).spec_mode() == old(self).spec_mode(),
            buffer@.len() == BUFFER_SIZE && spec_valid_rect(top_left, bottom_right) ==> (r is Ok
                || r matches Err(Error::Transport(_))),
            !(buffer@.len() == BUFFER_SIZE && spec_valid_rect(top_left, bottom_right)) ==> r
                == Err::<(), Error>(Error::OutOfBounds),
    {
        let chunks = match encode_region(buffer, top_left, bottom_right) {
            Ok(chunks) => chunks,
            Err(e) => {
                return Err(e);
            },
        };
        proof {
            lemma_flush_trace_commands_fit(buffer@, top_left, bottom_right);
        }
        send_all(&mut self.display_interface, &chunks)
    }
}

} // verus!
