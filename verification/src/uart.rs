//! UART peripheral configuration.

use vstd::prelude::*;

verus! {

/// UART parity configuration.
#[derive(Debug, Clone, Copy, PartialEq, Eq, Structural)]
pub enum Parity {
    /// No parity bit
    ParityNone,
    /// Even parity
    Even,
    /// Odd parity
    Odd,
}

/// UART stop bits configuration.
#[derive(Debug, Clone, Copy, PartialEq, Eq, Structural)]
pub enum StopBits {
    /// 1 stop bit
    One,
    /// 2 stop bits
    Two,
}

/// UART data bits configuration.
#[derive(Debug, Clone, Copy, PartialEq, Eq, Structural)]
pub enum DataBits {
    /// 5 data bits
    Five,
    /// 6 data bits
    Six,
    /// 7 data bits
    Seven,
    /// 8 data bits
    Eight,
}

/// UART configuration.
#[derive(Debug, Clone, Copy)]
pub struct UartConfig {
    /// Baud rate in bits per second
    pub baudrate: u32,
    /// Parity checking mode
    pub parity: Parity,
    /// Number of stop bits
    pub stop_bits: StopBits,
    /// Number of data bits
    pub data_bits: DataBits,
}

impl Default for UartConfig {
    fn default() -> (r: UartConfig)
        ensures
            r.baudrate == 115200,
            r.parity == Parity::ParityNone,
            r.stop_bits == StopBits::One,
            r.data_bits == DataBits::Eight,
    {
        UartConfig {
            baudrate: 115200,
            parity: Parity::ParityNone,
            stop_bits: StopBits::One,
            data_bits: DataBits::Eight,
        }
    }
}

impl UartConfig {
    /// Create a new UART configuration with the given baud rate.
    pub fn new(baudrate: u32) -> (r: UartConfig)
        ensures
            r.baudrate == baudrate,
            r.parity == Parity::ParityNone,
            r.stop_bits == StopBits::One,
            r.data_bits == DataBits::Eight,
    {
        UartConfig {
            baudrate,
            parity: Parity::ParityNone,
            stop_bits: StopBits::One,
            data_bits: DataBits::Eight,
        }
    }

    /// Set the baud rate.
    pub fn with_baudrate(self, baudrate: u32) -> (r: UartConfig)
        ensures
            r.baudrate == baudrate,
            r.parity == self.parity,
            r.stop_bits == self.stop_bits,
            r.data_bits == self.data_bits,
    {
        UartConfig { baudrate, ..self }
    }

    /// Set the parity mode.
    pub fn with_parity(self, parity: Parity) -> (r: UartConfig)
        ensures
            r.baudrate == self.baudrate,
            r.parity == parity,
            r.stop_bits == self.stop_bits,
            r.data_bits == self.data_bits,
    {
        UartConfig { parity, ..self }
    }

    /// Set the stop bits.
    pub fn with_stop_bits(self, stop_bits: StopBits) -> (r: UartConfig)
        ensures
            r.baudrate == self.baudrate,
            r.parity == self.parity,
            r.stop_bits == stop_bits,
            r.data_bits == self.data_bits,
    {
        UartConfig { stop_bits, ..self }
    }

    /// Set the data bits.
    pub fn with_data_bits(self, data_bits: DataBits) -> (r: UartConfig)
        ensures
            r.baudrate == self.baudrate,
            r.parity == self.parity,
            r.stop_bits == self.stop_bits,
            r.data_bits == data_bits,
    {
        UartConfig { data_bits, ..self }
    }
}

/// Custom UART error type.
#[derive(Debug, Clone, Copy, PartialEq, Eq, Structural)]
pub enum UartErrorWrapper {
    /// Buffer overrun
    Overrun,
    /// Parity check failed
    Parity,
    /// Framing error
    FrameFormat,
    /// Noise detected
    Noise,
    /// Buffer full
    BufferFull,
    /// Other hardware error
    Other,
}

} // verus!
