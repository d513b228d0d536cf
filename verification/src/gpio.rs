//! GPIO utilities: PWM configuration (used for backlight control),
//! interrupt modes, and the pin-operation interface.

use vstd::prelude::*;

verus! {

/// PWM configuration.
#[derive(Debug, Clone, Copy)]
pub struct PwmConfig {
    /// PWM frequency in Hz
    pub frequency: u32,
    /// Duty cycle as percentage (0-100)
    pub duty_percent: u8,
}

impl Default for PwmConfig {
    fn default() -> (r: PwmConfig)
        ensures
            r.frequency == 5000,
            r.duty_percent == 100,
    {
        PwmConfig { frequency: 5000, duty_percent: 100 }
    }
}

impl PwmConfig {
    /// Create a new PWM configuration; a duty cycle above 100 is
    /// clamped to 100.
    pub fn new(frequency: u32, duty_percent: u8) -> (r: PwmConfig)
        ensures
            r.frequency == frequency,
            r.duty_percent == if duty_percent > 100 {
                100u8
            } else {
                duty_percent
            },
    {
        PwmConfig {
            frequency,
            duty_percent: if duty_percent > 100 {
                100
            } else {
                duty_percent
            },
        }
    }

    /// Set the PWM frequency.
    pub fn with_frequency(self, frequency: u32) -> (r: PwmConfig)
        ensures
            r.frequency == frequency,
            r.duty_percent == self.duty_percent,
    {
        PwmConfig { frequency, ..self }
    }

    /// Set the duty cycle percentage; a value above 100 is clamped.
    pub fn with_duty_percent(self, duty_percent: u8) -> (r: PwmConfig)
        ensures
            r.frequency == self.frequency,
            r.duty_percent == if duty_percent > 100 {
                100u8
            } else {
                duty_percent
            },
    {
        PwmConfig {
            duty_percent: if duty_percent > 100 {
                100
            } else {
                duty_percent
            },
            ..self
        }
    }
}

/// GPIO interrupt configuration.
#[derive(Debug, Clone, Copy, PartialEq, Eq, Structural)]
pub enum InterruptMode {
    /// Trigger on rising edge
    RisingEdge,
    /// Trigger on falling edge
    FallingEdge,
    /// Trigger on both edges
    AnyEdge,
    /// Trigger on low level
    LowLevel,
    /// Trigger on high level
    HighLevel,
}

/// GPIO utilities.
///
/// The pin constructors live with the hardware layer; this type anchors
/// them in the library's interface.
pub struct GpioUtils;

/// Extension trait for convenient GPIO operations.
pub trait GpioExt {
    /// Set the pin high.
    fn set_high(&mut self);

    /// Set the pin low.
    fn set_low(&mut self);

    /// Toggle the pin state.
    fn toggle(&mut self);

    /// Whether the pin is high.
    fn is_high(&self) -> bool;

    /// Whether the pin is low.
    fn is_low(&self) -> bool;
}

} // verus!
