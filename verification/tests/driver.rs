use std::cell::RefCell;
use std::rc::Rc;

use display_interface::{DataFormat, DisplayError, WriteOnlyDataCommand};
use st7567s::consts::BUFFER_SIZE;
use st7567s::display::{BufferedMode, ST7567S};
use st7567s::error::Error;
use st7567s::interface::I2CDisplayInterface;

/// The log a recording transport fills: `(is_data, bytes)` per write.
type WriteLog = Rc<RefCell<Vec<(bool, Vec<u8>)>>>;

/// A transport that records every write it is handed in a shared log.
struct Recorder {
    writes: WriteLog,
}

impl Recorder {
    fn new() -> (Self, WriteLog) {
        let log: WriteLog = Rc::new(RefCell::new(Vec::new()));
        (Recorder { writes: Rc::clone(&log) }, log)
    }
}

impl WriteOnlyDataCommand for Recorder {
    fn send_commands(&mut self, cmd: DataFormat<'_>) -> Result<(), DisplayError> {
        match cmd {
            DataFormat::U8(slice) => {
                self.writes.borrow_mut().push((false, slice.to_vec()));
                Ok(())
            }
            _ => Err(DisplayError::DataFormatNotImplemented),
        }
    }

    fn send_data(&mut self, buf: DataFormat<'_>) -> Result<(), DisplayError> {
        match buf {
            DataFormat::U8(slice) => {
                self.writes.borrow_mut().push((true, slice.to_vec()));
                Ok(())
            }
            _ => Err(DisplayError::DataFormatNotImplemented),
        }
    }
}

/// A transport that rejects every write.
struct BrokenTransport;

impl WriteOnlyDataCommand for BrokenTransport {
    fn send_commands(&mut self, _cmd: DataFormat<'_>) -> Result<(), DisplayError> {
        Err(DisplayError::BusWriteError)
    }

    fn send_data(&mut self, _buf: DataFormat<'_>) -> Result<(), DisplayError> {
        Err(DisplayError::BusWriteError)
    }
}

/// Replay a recorded write sequence against a simulated controller:
/// page-address and column-nibble commands move the registers, data writes
/// stream bytes into memory from the addressed cell on.
fn replay(writes: &[(bool, Vec<u8>)], initial: u8) -> Vec<u8> {
    let mut mem: Vec<u8> = vec![initial; BUFFER_SIZE];
    let mut page: usize = 0;
    let mut col: usize = 0;
    for (is_data, bytes) in writes {
        if *is_data {
            for byte in bytes {
                let idx: usize = page * 128 + col;
                if col < 128 && idx < BUFFER_SIZE {
                    mem[idx] = *byte;
                }
                col += 1;
            }
        } else {
            for byte in bytes {
                let b: u8 = *byte;
                if (0xb0..0xb8).contains(&b) {
                    page = (b - 0xb0) as usize;
                } else if b < 0x10 {
                    col = col / 16 * 16 + b as usize;
                } else if b < 0x20 {
                    col = col % 16 + (b - 0x10) as usize * 16;
                }
            }
        }
    }
    mem
}

fn buffered_with_recorder() -> (ST7567S<Recorder, BufferedMode>, WriteLog) {
    let (recorder, log) = Recorder::new();
    (ST7567S::new(recorder).into_buffered_graphics_mode(), log)
}

fn direct_with_recorder() -> (ST7567S<Recorder, st7567s::display::DirectWriteMode>, WriteLog) {
    let (recorder, log) = Recorder::new();
    (ST7567S::new(recorder), log)
}

fn pixel_at(buffer: &[u8], x: u8, y: u8) -> bool {
    let idx: usize = (y as usize / 8) * 128 + x as usize;
    (buffer[idx] >> (y % 8)) & 1 == 1
}

#[test]
fn set_pixel_reads_back_and_clears() {
    let (mut display, _log) = buffered_with_recorder();
    assert!(display.set_pixel(17, 42, true).is_ok());
    assert!(pixel_at(display.buffer(), 17, 42));
    assert!(display.set_pixel(17, 42, false).is_ok());
    assert!(!pixel_at(display.buffer(), 17, 42));
}

#[test]
fn set_pixel_no_cross_talk_within_byte() {
    let (mut display, _log) = buffered_with_recorder();
    // (40, 16) and (40, 17) share a packed byte.
    assert!(display.set_pixel(40, 16, true).is_ok());
    assert!(display.set_pixel(40, 17, true).is_ok());
    assert!(pixel_at(display.buffer(), 40, 16));
    assert!(pixel_at(display.buffer(), 40, 17));
    assert!(display.set_pixel(40, 16, false).is_ok());
    assert!(!pixel_at(display.buffer(), 40, 16));
    assert!(pixel_at(display.buffer(), 40, 17));
}

#[test]
fn set_pixel_out_of_bounds_reports_and_leaves_buffer() {
    let (mut display, _log) = buffered_with_recorder();
    assert!(display.set_pixel(3, 5, true).is_ok());
    let before: Vec<u8> = display.buffer().to_vec();
    assert!(matches!(display.set_pixel(128, 0, true), Err(Error::OutOfBounds)));
    assert!(matches!(display.set_pixel(0, 64, true), Err(Error::OutOfBounds)));
    assert!(matches!(display.set_pixel(255, 255, true), Err(Error::OutOfBounds)));
    assert_eq!(display.buffer(), before.as_slice());
}

#[test]
fn clear_turns_every_pixel_off() {
    let (mut display, _log) = buffered_with_recorder();
    assert!(display.set_pixel(0, 0, true).is_ok());
    assert!(display.set_pixel(127, 63, true).is_ok());
    assert!(display.set_pixel(64, 31, true).is_ok());
    display.clear();
    for x in 0..128u8 {
        for y in 0..64u8 {
            assert!(!pixel_at(display.buffer(), x, y));
        }
    }
}

#[test]
fn draw_round_trips_through_wire_protocol() {
    let (mut display, log) = direct_with_recorder();
    let buffer: Vec<u8> = (0..BUFFER_SIZE).map(|i| (i % 251) as u8).collect();
    assert!(display.draw(&buffer).is_ok());
    let recorded: Vec<(bool, Vec<u8>)> = log.borrow().clone();
    let mem = replay(&recorded, 0xaa);
    assert_eq!(mem, buffer);
}

#[test]
fn flush_round_trips_internal_buffer() {
    let (mut display, log) = buffered_with_recorder();
    assert!(display.set_pixel(0, 0, true).is_ok());
    assert!(display.set_pixel(127, 63, true).is_ok());
    assert!(display.set_pixel(77, 13, true).is_ok());
    assert!(display.flush().is_ok());
    let expected: Vec<u8> = display.buffer().to_vec();
    let recorded: Vec<(bool, Vec<u8>)> = log.borrow().clone();
    let mem = replay(&recorded, 0x55);
    assert_eq!(mem, expected);
}

#[test]
fn single_page_flush_is_three_commands_one_data() {
    let (mut display, log) = direct_with_recorder();
    let buffer: Vec<u8> = vec![0x5a; BUFFER_SIZE];
    assert!(display.bounded_draw(&buffer, (0, 0), (127, 7)).is_ok());
    let recorded: Vec<(bool, Vec<u8>)> = log.borrow().clone();
    assert_eq!(recorded.len(), 4);
    assert_eq!(recorded[0], (false, vec![0xb0]));
    assert_eq!(recorded[1], (false, vec![0x00]));
    assert_eq!(recorded[2], (false, vec![0x10]));
    assert_eq!(recorded[3], (true, buffer[0..128].to_vec()));
}

#[test]
fn inverted_rectangle_reports_and_writes_nothing() {
    let (mut display, log) = direct_with_recorder();
    let buffer: Vec<u8> = vec![0; BUFFER_SIZE];
    // Inverted X: top-left right of bottom-right.
    assert!(matches!(
        display.bounded_draw(&buffer, (5, 10), (3, 10)),
        Err(Error::OutOfBounds)
    ));
    assert!(log.borrow().is_empty());
}

#[test]
fn out_of_range_corner_reports_and_writes_nothing() {
    let (mut display, log) = direct_with_recorder();
    let buffer: Vec<u8> = vec![0; BUFFER_SIZE];
    assert!(matches!(
        display.bounded_draw(&buffer, (0, 0), (128, 10)),
        Err(Error::OutOfBounds)
    ));
    assert!(matches!(
        display.bounded_draw(&buffer, (0, 64), (5, 70)),
        Err(Error::OutOfBounds)
    ));
    assert!(log.borrow().is_empty());
}

#[test]
fn draw_rejects_wrong_length_buffer() {
    let (mut display, log) = direct_with_recorder();
    let short: Vec<u8> = vec![0; BUFFER_SIZE - 1];
    let long: Vec<u8> = vec![0; BUFFER_SIZE + 1];
    assert!(matches!(display.draw(&short), Err(Error::OutOfBounds)));
    assert!(matches!(display.draw(&long), Err(Error::OutOfBounds)));
    assert!(log.borrow().is_empty());
}

#[test]
fn init_emits_fixed_sequence() {
    let (mut display, log) = direct_with_recorder();
    assert!(display.init().is_ok());
    let recorded: Vec<(bool, Vec<u8>)> = log.borrow().clone();
    let mut expected: Vec<(bool, Vec<u8>)> = vec![
        (false, vec![0xa2]),
        (false, vec![0xa0]),
        (false, vec![0xc8]),
        (false, vec![0x24]),
        (false, vec![0x81, 40]),
        (false, vec![0x2c]),
        (false, vec![0x2e]),
        (false, vec![0x2f]),
        (false, vec![0x40]),
    ];
    for page in 0..8u8 {
        expected.push((false, vec![0xb0 | page]));
        expected.push((false, vec![0x00]));
        expected.push((false, vec![0x10]));
        expected.push((true, vec![0; 128]));
    }
    expected.push((false, vec![0xaf]));
    assert_eq!(recorded, expected);
}

#[test]
fn reset_emits_single_command() {
    let (mut display, log) = direct_with_recorder();
    assert!(display.reset().is_ok());
    assert_eq!(*log.borrow(), vec![(false, vec![0xe2])]);
}

#[test]
fn column_commands_split_nibbles() {
    let (mut display, log) = direct_with_recorder();
    let buffer: Vec<u8> = (0..BUFFER_SIZE).map(|i| (i % 97) as u8).collect();
    // One cell: page 3, column 0x35.
    assert!(display.bounded_draw(&buffer, (0x35, 24), (0x35, 24)).is_ok());
    let recorded: Vec<(bool, Vec<u8>)> = log.borrow().clone();
    assert_eq!(recorded.len(), 4);
    assert_eq!(recorded[0], (false, vec![0xb3]));
    assert_eq!(recorded[1], (false, vec![0x05]));
    assert_eq!(recorded[2], (false, vec![0x13]));
    assert_eq!(recorded[3], (true, vec![buffer[3 * 128 + 0x35]]));
}

#[test]
fn transport_failure_is_reported() {
    let mut display = ST7567S::new(BrokenTransport);
    let buffer: Vec<u8> = vec![0; BUFFER_SIZE];
    assert!(matches!(display.draw(&buffer), Err(Error::Transport(_))));
    assert!(matches!(display.init(), Err(Error::Transport(_))));
    assert!(matches!(display.reset(), Err(Error::Transport(_))));
    let mut buffered = ST7567S::new(BrokenTransport).into_buffered_graphics_mode();
    assert!(matches!(buffered.flush(), Err(Error::Transport(_))));
}

/// An I2C bus that logs each `(address, bytes)` write to shared storage.
struct BusLog {
    log: Rc<RefCell<Vec<(u8, Vec<u8>)>>>,
}

impl embedded_hal::blocking::i2c::Write for BusLog {
    type Error = ();

    fn write(&mut self, addr: u8, bytes: &[u8]) -> Result<(), ()> {
        self.log.borrow_mut().push((addr, bytes.to_vec()));
        Ok(())
    }
}

#[test]
fn i2c_interface_uses_display_address() {
    let log: Rc<RefCell<Vec<(u8, Vec<u8>)>>> = Rc::new(RefCell::new(Vec::new()));
    let interface = I2CDisplayInterface::new(BusLog { log: Rc::clone(&log) });
    let mut display = ST7567S::new(interface);
    assert!(display.reset().is_ok());
    // One bus write: display address 0x3f, command-mode prefix 0x00, opcode.
    assert_eq!(*log.borrow(), vec![(0x3f, vec![0x00, 0xe2])]);
}
