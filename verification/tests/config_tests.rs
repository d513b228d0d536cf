//! Tests for the pure configuration types: PWM, I2C, SPI and UART.

use bus_pirate::gpio::PwmConfig;
use bus_pirate::i2c::I2cConfig;
use bus_pirate::spi::{SpiConfig, SpiMode};
use bus_pirate::uart::{DataBits, Parity, StopBits, UartConfig};

#[test]
fn test_pwm_config_default() {
    let config = PwmConfig::default();
    assert_eq!(config.frequency, 5000);
    assert_eq!(config.duty_percent, 100);
}

#[test]
fn test_pwm_config_builder() {
    let config = PwmConfig::default()
        .with_frequency(1000)
        .with_duty_percent(50);
    assert_eq!(config.frequency, 1000);
    assert_eq!(config.duty_percent, 50);
}

#[test]
fn test_pwm_config_duty_clamping() {
    let config = PwmConfig::new(1000, 150);
    assert_eq!(config.duty_percent, 100);
}

#[test]
fn test_i2c_config_default() {
    let config = I2cConfig::default();
    assert_eq!(config.frequency, 100000);
    assert_eq!(config.timeout_ms, 1000);
}

#[test]
fn test_i2c_config_builder() {
    let config = I2cConfig::default()
        .with_frequency(400_000)
        .with_timeout_ms(500);
    assert_eq!(config.frequency, 400000);
    assert_eq!(config.timeout_ms, 500);
}

#[test]
fn test_spi_config_default() {
    let config = SpiConfig::default();
    assert_eq!(config.frequency, 1000000);
    assert_eq!(config.mode, SpiMode::Mode0);
    assert!(!config.use_dma);
}

#[test]
fn test_spi_config_builder() {
    let config = SpiConfig::default()
        .with_frequency(40_000_000)
        .with_mode(SpiMode::Mode3)
        .with_dma(true);
    assert_eq!(config.frequency, 40000000);
    assert_eq!(config.mode, SpiMode::Mode3);
    assert!(config.use_dma);
}

#[test]
fn test_uart_config_default() {
    let config = UartConfig::default();
    assert_eq!(config.baudrate, 115200);
    assert_eq!(config.parity, Parity::ParityNone);
    assert_eq!(config.stop_bits, StopBits::One);
    assert_eq!(config.data_bits, DataBits::Eight);
}

#[test]
fn test_uart_config_builder() {
    let config = UartConfig::default()
        .with_baudrate(9600)
        .with_parity(Parity::Even)
        .with_stop_bits(StopBits::Two)
        .with_data_bits(DataBits::Seven);
    assert_eq!(config.baudrate, 9600);
    assert_eq!(config.parity, Parity::Even);
    assert_eq!(config.stop_bits, StopBits::Two);
    assert_eq!(config.data_bits, DataBits::Seven);
}
