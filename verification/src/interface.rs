//! Display interface convenience factory methods.

use vstd::prelude::*;

pub use display_interface_i2c::I2CInterface;

verus! {

/// Declares the I2C transport type from `display_interface_i2c` so the
/// factory below can hand it out.
#[verifier::external_type_specification]
#[verifier::external_body]
#[verifier::reject_recursive_types(I2C)]
pub struct ExI2CInterface<I2C>(I2CInterface<I2C>);

/// Wrapper for creating an `I2CInterface` with device-specific parameters.
pub struct I2CDisplayInterface;

impl I2CDisplayInterface {
    /// Create a new `I2CInterface` for this display.
    ///
    /// Relies on `display_interface_i2c::I2CInterface::new`: wraps the bus
    /// handle with the display's fixed I2C address and data-mode prefix
    /// byte.
    #[verifier::external_body]
    pub fn new<I2C>(i2c: I2C) -> I2CInterface<I2C> where I2C: embedded_hal::blocking::i2c::Write {
        I2CInterface::new(i2c, 0x3f, 0x40)
    }
}

} // verus!
