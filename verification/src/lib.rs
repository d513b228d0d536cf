//! Wire protocol for a multi-function bus-debugging device.
//!
//! The core of the crate is the message codec: typed command/response
//! values are serialized into self-delimited byte frames with a version
//! byte, a length field and a CRC, and validated frames are parsed back
//! into values.  Around it stand the pure configuration types of the
//! device (PWM, UART, board settings) and the error taxonomies of its
//! bus and driver layers.

use vstd::prelude::*;

pub mod board;
pub mod bus_modes;
pub mod codec;
pub mod drivers;
pub mod gpio;
pub mod i2c;
pub mod laws;
pub mod message;
pub mod spi;
pub mod transport;
pub mod uart;
pub mod version;
pub mod wire;

pub use codec::MessageCodec;
pub use message::{ErrorCode, Message, Mode, Response};
pub use version::PROTOCOL_VERSION;

verus! {

/// First byte of every frame.
pub const START_BYTE: u8 = 0xAA;

/// Last byte of every frame.
pub const END_BYTE: u8 = 0x55;

/// Maximum total frame size in bytes.
pub const MAX_MESSAGE_SIZE: usize = 1024;

/// Error types for protocol operations.
#[derive(Debug, Clone, Copy, PartialEq, Eq, Structural)]
pub enum Error {
    /// Frame too short to be valid
    FrameTooShort,
    /// Invalid frame markers
    InvalidFrame,
    /// Unsupported protocol version
    UnsupportedVersion,
    /// CRC mismatch
    CrcMismatch,
    /// Encoding failed
    EncodingFailed,
    /// Decoding failed
    DecodingFailed,
    /// Buffer too small
    BufferFull,
}

} // verus!
