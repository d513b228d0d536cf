//! Tests for the device-facing types: touch driver, transport stub,
//! bus modes, board and SPI chip-select plumbing.

use bus_pirate::board::BoardConfig;
use bus_pirate::bus_modes::{BusMode, UartMode};
use bus_pirate::drivers::{Cst328, TouchEventType, CST328_DEFAULT_ADDR};
use bus_pirate::spi::SpiDeviceWithCs;
use bus_pirate::transport::{Transport, TransportError, UsbCdcTransport};

#[test]
fn test_touch_driver_defaults() {
    assert_eq!(CST328_DEFAULT_ADDR, 0x5A);
    let mut touch = Cst328::new(());
    assert!(touch.init().is_ok());
    let event = touch.read_touch().unwrap();
    assert!(event.is_none());
}

#[test]
fn test_touch_event_types_distinct() {
    assert_ne!(TouchEventType::Press, TouchEventType::Release);
    assert_ne!(TouchEventType::Release, TouchEventType::Move);
}

#[test]
fn test_usb_cdc_transport_stub() {
    let mut transport = UsbCdcTransport::new();
    assert!(!transport.is_connected());
    assert_eq!(transport.send(&[0xAA, 0x55]), Err(TransportError::Disconnected));
    assert_eq!(transport.receive(), Ok(None));
}

#[test]
fn test_uart_mode_lifecycle() {
    let mut mode = UartMode::new(());
    assert_eq!(mode.name(), "UART");
    assert!(mode.init(bus_pirate::bus_modes::UartConfig { baudrate: 9600 }).is_ok());
    assert!(mode.deinit().is_ok());
}

#[test]
fn test_board_config_default() {
    let config = BoardConfig::default();
    assert_eq!(config.display_spi_freq, 40_000_000);
    assert_eq!(config.i2c_freq, 100_000);
    assert_eq!(config.sdcard_spi_freq, 20_000_000);
    assert!(config.backlight_on);
}

#[test]
fn test_spi_device_release() {
    let device = SpiDeviceWithCs::new(7u8, 9u16);
    let (bus, cs) = device.release();
    assert_eq!(bus, 7);
    assert_eq!(cs, 9);
}
