//! SPI peripheral configuration and chip-select management.

use core::marker::PhantomData;
use vstd::prelude::*;

verus! {

/// SPI mode configuration.
#[derive(Debug, Clone, Copy, PartialEq, Eq, Structural)]
pub enum SpiMode {
    /// CPOL=0, CPHA=0
    Mode0,
    /// CPOL=0, CPHA=1
    Mode1,
    /// CPOL=1, CPHA=0
    Mode2,
    /// CPOL=1, CPHA=1
    Mode3,
}

/// SPI configuration.
///
/// The frequency is held in plain hertz; the hardware layer wraps it in
/// its own rate type when it programs the peripheral.
#[derive(Debug, Clone, Copy)]
pub struct SpiConfig {
    /// SPI bus frequency in Hz
    pub frequency: u32,
    /// SPI mode (clock polarity and phase)
    pub mode: SpiMode,
    /// Whether to use DMA transfers
    pub use_dma: bool,
}

impl Default for SpiConfig {
    fn default() -> (r: SpiConfig)
        ensures
            r.frequency == 1_000_000,
            r.mode == SpiMode::Mode0,
            r.use_dma == false,
    {
        SpiConfig { frequency: 1_000_000, mode: SpiMode::Mode0, use_dma: false }
    }
}

impl SpiConfig {
    /// Create a new SPI configuration with the given frequency in Hz.
    pub fn new(frequency: u32) -> (r: SpiConfig)
        ensures
            r.frequency == frequency,
            r.mode == SpiMode::Mode0,
            r.use_dma == false,
    {
        SpiConfig { frequency, mode: SpiMode::Mode0, use_dma: false }
    }

    /// Set the SPI frequency in Hz.
    pub fn with_frequency(self, frequency: u32) -> (r: SpiConfig)
        ensures
            r.frequency == frequency,
            r.mode == self.mode,
            r.use_dma == self.use_dma,
    {
        SpiConfig { frequency, ..self }
    }

    /// Set the SPI mode.
    pub fn with_mode(self, mode: SpiMode) -> (r: SpiConfig)
        ensures
            r.frequency == self.frequency,
            r.mode == mode,
            r.use_dma == self.use_dma,
    {
        SpiConfig { mode, ..self }
    }

    /// Enable or disable DMA transfers.
    pub fn with_dma(self, use_dma: bool) -> (r: SpiConfig)
        ensures
            r.frequency == self.frequency,
            r.mode == self.mode,
            r.use_dma == use_dma,
    {
        SpiConfig { use_dma, ..self }
    }
}

/// Custom SPI error type.
#[derive(Debug, Clone, Copy, PartialEq, Eq, Structural)]
pub enum SpiErrorWrapper {
    /// Bus error
    Bus,
    /// Chip select error
    ChipSelectFault,
    /// Mode fault
    ModeFault,
    /// Overrun error
    Overrun,
    /// Frame format error
    FrameFormat,
    /// Other hardware error
    Other,
}

/// SPI device with chip select management.
///
/// Pairs an SPI bus with the chip-select pin (active low) that frames
/// each transaction on it.
pub struct SpiDeviceWithCs<'d, SPI, CS> {
    bus: SPI,
    cs: CS,
    _phantom: PhantomData<&'d ()>,
}

impl<'d, SPI, CS> SpiDeviceWithCs<'d, SPI, CS> {
    /// The bus and pin the device was built from.
    pub closed spec fn parts(self) -> (SPI, CS) {
        (self.bus, self.cs)
    }

    /// Create a new SPI device with chip select.
    pub fn new(bus: SPI, cs: CS) -> (r: SpiDeviceWithCs<'d, SPI, CS>)
        ensures
            r.parts() == (bus, cs),
    {
        SpiDeviceWithCs { bus, cs, _phantom: PhantomData }
    }

    /// Release the SPI bus and CS pin.
    pub fn release(self) -> (r: (SPI, CS))
        ensures
            r == self.parts(),
    {
        (self.bus, self.cs)
    }
}

} // verus!
