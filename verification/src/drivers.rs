//! Device drivers for the board's peripherals whose state the library
//! can model: the CST328 capacitive touch controller and the common
//! driver error taxonomy.

use vstd::prelude::*;

verus! {

/// Common error type for all drivers.
#[derive(Debug, Clone, Copy, PartialEq, Eq, Structural)]
pub enum Error {
    /// Communication error (I2C, SPI)
    Communication,
    /// Invalid configuration or parameters
    InvalidConfig,
    /// Device not responding
    NoDevice,
    /// Operation timeout
    Timeout,
}

/// CST328 default I2C address.
pub const CST328_DEFAULT_ADDR: u8 = 0x5A;

/// Touch event types.
#[derive(Debug, Clone, Copy, PartialEq, Eq, Structural)]
pub enum TouchEventType {
    Press,
    Release,
    Move,
}

/// Touch event data.
#[derive(Debug, Clone, Copy)]
pub struct TouchEvent {
    pub x: u16,
    pub y: u16,
    pub event_type: TouchEventType,
}

/// CST328 touch controller.
///
/// The register-level initialization and report parsing wait on the
/// hardware abstraction layer's I2C support; until then the driver
/// holds the bus handle and reports no touches.
pub struct Cst328<I> {
    i2c: I,
    address: u8,
}

impl<I> Cst328<I> {
    /// The I2C address the driver talks to.
    pub closed spec fn spec_address(self) -> u8 {
        self.address
    }

    /// Create a new CST328 driver at the default address.
    pub fn new(i2c: I) -> (r: Cst328<I>)
        ensures
            r.spec_address() == CST328_DEFAULT_ADDR,
    {
        Cst328 { i2c, address: CST328_DEFAULT_ADDR }
    }

    /// Initialize the touch controller.
    pub fn init(&mut self) -> (r: Result<(), Error>)
        ensures
            r is Ok,
            final(self).spec_address() == old(self).spec_address(),
    {
        Ok(())
    }

    /// Read a touch event; `None` while no touch is pending.
    pub fn read_touch(&mut self) -> (r: Result<Option<TouchEvent>, Error>)
        ensures
            r == Ok::<Option<TouchEvent>, Error>(None),
            final(self).spec_address() == old(self).spec_address(),
    {
        Ok(None)
    }
}

} // verus!
