//! I2C peripheral configuration and error taxonomy.

use vstd::prelude::*;

verus! {

/// I2C configuration.
///
/// The frequency is held in plain hertz; the hardware layer wraps it in
/// its own rate type when it programs the peripheral.
#[derive(Debug, Clone, Copy)]
pub struct I2cConfig {
    /// I2C bus frequency in Hz (typically 100 kHz for standard mode,
    /// 400 kHz for fast mode)
    pub frequency: u32,
    /// Timeout for I2C operations in milliseconds
    pub timeout_ms: u32,
}

impl Default for I2cConfig {
    fn default() -> (r: I2cConfig)
        ensures
            r.frequency == 100_000,
            r.timeout_ms == 1000,
    {
        I2cConfig { frequency: 100_000, timeout_ms: 1000 }
    }
}

impl I2cConfig {
    /// Create a new I2C configuration with the given frequency in Hz.
    pub fn new(frequency: u32) -> (r: I2cConfig)
        ensures
            r.frequency == frequency,
            r.timeout_ms == 1000,
    {
        I2cConfig { frequency, timeout_ms: 1000 }
    }

    /// Set the I2C frequency in Hz.
    pub fn with_frequency(self, frequency: u32) -> (r: I2cConfig)
        ensures
            r.frequency == frequency,
            r.timeout_ms == self.timeout_ms,
    {
        I2cConfig { frequency, ..self }
    }

    /// Set the operation timeout.
    pub fn with_timeout_ms(self, timeout_ms: u32) -> (r: I2cConfig)
        ensures
            r.frequency == self.frequency,
            r.timeout_ms == timeout_ms,
    {
        I2cConfig { timeout_ms, ..self }
    }
}

/// Custom I2C error type.
#[derive(Debug, Clone, Copy, PartialEq, Eq, Structural)]
pub enum I2cErrorWrapper {
    /// Bus error (arbitration lost, bus collision, etc.)
    Bus,
    /// No acknowledgment received
    NoAcknowledge,
    /// Operation timed out
    Timeout,
    /// Other hardware error
    Other,
}

} // verus!
