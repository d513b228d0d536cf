//! Board-level configuration.

use vstd::prelude::*;

verus! {

/// Board configuration options.
///
/// This structure allows customizing the board initialization.
#[derive(Debug, Clone)]
pub struct BoardConfig {
    /// Display SPI frequency (default: 40MHz)
    pub display_spi_freq: u32,
    /// I2C frequency (default: 100kHz)
    pub i2c_freq: u32,
    /// SD card SPI frequency (default: 20MHz)
    pub sdcard_spi_freq: u32,
    /// Enable backlight on startup
    pub backlight_on: bool,
}

impl Default for BoardConfig {
    fn default() -> (r: BoardConfig)
        ensures
            r.display_spi_freq == 40_000_000,
            r.i2c_freq == 100_000,
            r.sdcard_spi_freq == 20_000_000,
            r.backlight_on == true,
    {
        BoardConfig {
            display_spi_freq: 40_000_000,
            i2c_freq: 100_000,
            sdcard_spi_freq: 20_000_000,
            backlight_on: true,
        }
    }
}

} // verus!
