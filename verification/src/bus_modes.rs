//! Bus mode implementations: the common interface every protocol mode
//! offers, and the modes whose state does not depend on a hardware
//! peripheral's own types.

use vstd::prelude::*;

verus! {

/// Common error type for bus operations.
#[derive(Debug, Clone, Copy, PartialEq, Eq, Structural)]
pub enum Error {
    /// Communication error
    Communication,
    /// Device not found or not responding
    NoDevice,
    /// Operation timeout
    Timeout,
    /// Invalid configuration
    InvalidConfig,
    /// Bus already in use
    Busy,
}

/// Common interface for all bus modes.
pub trait BusMode {
    /// Configuration type for this mode.
    type Config;

    /// The name of this bus mode.
    fn name(&self) -> &'static str;

    /// Initialize the bus mode with the given configuration.
    fn init(&mut self, config: Self::Config) -> Result<(), Error>;

    /// Deinitialize and release resources.
    fn deinit(&mut self) -> Result<(), Error>;
}

/// Interface of bus modes that support device scanning.
pub trait Scanner {
    /// Type representing a device identifier.
    type DeviceId;

    /// Scan the bus for connected devices.
    fn scan(&mut self) -> Result<Vec<Self::DeviceId>, Error>;
}

/// Interface of bus modes that support traffic sniffing.
pub trait Sniffer {
    /// Type representing a captured event.
    type Event;

    /// Start sniffing bus traffic.
    fn start_sniff(&mut self) -> Result<(), Error>;

    /// Stop sniffing bus traffic.
    fn stop_sniff(&mut self) -> Result<(), Error>;

    /// Read a captured event (non-blocking).
    fn read_event(&mut self) -> Result<Option<Self::Event>, Error>;
}

/// UART configuration for the UART bus mode.
#[derive(Debug, Clone, Copy)]
pub struct UartConfig {
    pub baudrate: u32,
}

/// UART bus mode.
pub struct UartMode<U> {
    uart: U,
    config: Option<UartConfig>,
}

impl<U> UartMode<U> {
    /// The configuration the mode currently holds, if initialized.
    pub closed spec fn spec_config(self) -> Option<UartConfig> {
        self.config
    }

    /// Create a new UART mode instance, not yet initialized.
    pub fn new(uart: U) -> (r: UartMode<U>)
        ensures
            r.spec_config() is None,
    {
        UartMode { uart, config: None }
    }
}

impl<U> BusMode for UartMode<U> {
    type Config = UartConfig;

    fn name(&self) -> &'static str {
        "UART"
    }

    fn init(&mut self, config: UartConfig) -> Result<(), Error> {
        self.config = Some(config);
        Ok(())
    }

    fn deinit(&mut self) -> Result<(), Error> {
        self.config = None;
        Ok(())
    }
}

} // verus!
