//! Transport layer abstractions.
//!
//! A transport delivers and accepts raw frame bytes over some physical
//! interface.  It is responsible for scanning the incoming stream for
//! the START marker, using the declared LENGTH field to delimit a frame
//! (a payload byte may itself equal the END marker, so scanning for END
//! is not safe), and surfacing connection state.

use vstd::prelude::*;

verus! {

/// Transport error types.
#[derive(Debug, Clone, Copy, PartialEq, Eq, Structural)]
pub enum TransportError {
    /// Buffer overflow
    BufferFull,
    /// Transport disconnected
    Disconnected,
    /// I/O error
    IoError,
    /// Timeout
    Timeout,
}

/// Transport trait for sending and receiving protocol frames.
pub trait Transport {
    /// Send a message frame.
    fn send(&mut self, frame: &[u8]) -> Result<(), TransportError>;

    /// Receive a message frame; `None` when no complete frame is
    /// available yet.
    fn receive(&mut self) -> Result<Option<Vec<u8>>, TransportError>;

    /// Whether the transport is connected.
    fn is_connected(&self) -> bool;
}

/// USB CDC transport.
///
/// The underlying USB peripheral support is not available yet, so this
/// transport reports itself disconnected and never yields a frame.
pub struct UsbCdcTransport {}

impl UsbCdcTransport {
    /// Create a new USB CDC transport.
    pub fn new() -> (r: UsbCdcTransport) {
        UsbCdcTransport {}
    }
}

impl Transport for UsbCdcTransport {
    fn send(&mut self, _frame: &[u8]) -> Result<(), TransportError> {
        Err(TransportError::Disconnected)
    }

    fn receive(&mut self) -> Result<Option<Vec<u8>>, TransportError> {
        Ok(None)
    }

    fn is_connected(&self) -> bool {
        false
    }
}

} // verus!
