//! Driver errors.

use vstd::prelude::*;

verus! {

/// What a fallible driver operation can report.
///
/// `OutOfBounds` covers every geometry violation: a coordinate outside the
/// display, a rectangle with disordered corners, or a buffer whose length
/// is not the packed size. It is detected before any transport write, so a
/// rejected request never leaves the controller mid-protocol.
/// `Transport` reports that the underlying channel rejected a write and
/// carries the channel's own error verbatim.
#[derive(Debug)]
pub enum Error {
    OutOfBounds,
    Transport(display_interface::DisplayError),
}

/// Declares the transport's error type so results of driver operations can
/// carry it through.
#[verifier::external_type_specification]
#[verifier::external_body]
pub struct ExDisplayError(display_interface::DisplayError);

} // verus!
