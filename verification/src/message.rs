//! Protocol message definitions.
//!
//! Every value that can cross the wire is a [`Message`].  Variable-length
//! fields have a fixed maximum capacity that is enforced when the value is
//! built: a buffer that would exceed its capacity is rejected, never
//! silently truncated.  The mathematical model of a message is
//! [`MessageView`], in which buffers are plain byte sequences.

use vstd::prelude::*;
use vstd::slice::slice_to_vec;

verus! {

/// A byte buffer with a fixed capacity bound `N`, enforced at
/// construction time.
///
/// This models the bounded buffers of the wire format: `data` fields,
/// configuration keys and values, and file paths (the latter hold the
/// UTF-8 bytes of the path or key text).
#[derive(Debug, PartialEq, Eq)]
pub struct ByteBuf<const N: usize> {
    bytes: Vec<u8>,
}

impl<const N: usize> View for ByteBuf<N> {
    type V = Seq<u8>;

    closed spec fn view(&self) -> Seq<u8> {
        self.bytes@
    }
}

impl<const N: usize> ByteBuf<N> {
    /// Holds of every buffer that can be built: the capacity bound.
    #[verifier::type_invariant]
    pub open spec fn capacity_invariant(self) -> bool {
        self@.len() <= N
    }

    /// Build a buffer from a slice; fails when the slice is longer than
    /// the capacity `N`.
    pub fn from_slice(s: &[u8]) -> (r: Option<ByteBuf<N>>)
        ensures
            match r {
                Some(b) => s@.len() <= N && b@ == s@,
                None => s@.len() > N,
            },
    {
        if s.len() <= N {
            Some(ByteBuf { bytes: slice_to_vec(s) })
        } else {
            None
        }
    }

    /// The buffer's contents.
    pub fn as_slice(&self) -> (r: &[u8])
        ensures
            r@ == self@,
    {
        self.bytes.as_slice()
    }

    /// Number of bytes held.
    pub fn len(&self) -> (r: usize)
        ensures
            r == self@.len(),
    {
        self.bytes.len()
    }
}

/// Bus operating modes.
#[derive(Debug, Clone, Copy, PartialEq, Eq, Structural)]
pub enum Mode {
    /// High impedance (default)
    HiZ,
    /// I2C mode
    I2c,
    /// SPI mode
    Spi,
    /// UART mode
    Uart,
    /// 1-Wire mode
    OneWire,
    /// 2-Wire mode
    TwoWire,
    /// 3-Wire mode
    ThreeWire,
    /// Digital I/O mode
    Dio,
    /// Infrared mode
    Infrared,
    /// USB mode
    Usb,
    /// Bluetooth mode
    Bluetooth,
    /// Wi-Fi mode
    Wifi,
    /// Ethernet mode
    Ethernet,
    /// JTAG mode
    Jtag,
    /// LED mode
    Led,
    /// I2S audio mode
    I2s,
    /// CAN bus mode
    Can,
    /// Sub-GHz radio mode
    SubGhz,
    /// RFID mode
    Rfid,
    /// RF24 radio mode
    Rf24,
}

/// Error codes carried in error responses.
#[derive(Debug, Clone, Copy, PartialEq, Eq, Structural)]
pub enum ErrorCode {
    /// Invalid command
    InvalidCommand,
    /// Protocol error
    ProtocolError,
    /// Bus error (I2C, SPI, etc.)
    BusError,
    /// File not found
    FileNotFound,
    /// Permission denied
    PermissionDenied,
    /// Operation timeout
    Timeout,
    /// Device not configured
    NotConfigured,
    /// Invalid parameter
    InvalidParameter,
}

/// A list of at most 32 file names of at most 64 bytes each.
#[derive(Debug, PartialEq, Eq)]
pub struct FileNames {
    names: Vec<ByteBuf<64>>,
}

impl View for FileNames {
    type V = Seq<Seq<u8>>;

    closed spec fn view(&self) -> Seq<Seq<u8>> {
        self.names@.map_values(|b: ByteBuf<64>| b@)
    }
}

impl FileNames {
    /// Holds of every list that can be built: the capacity bounds.
    #[verifier::type_invariant]
    pub open spec fn capacity_invariant(self) -> bool {
        self@.len() <= 32 && forall|i: int|
            0 <= i < self@.len() ==> #[trigger] self@[i].len() <= 64
    }

    /// An empty list.
    pub fn new() -> (r: FileNames)
        ensures
            r@ == Seq::<Seq<u8>>::empty(),
    {
        let r = FileNames { names: Vec::new() };
        proof {
            assert(r@ =~= Seq::<Seq<u8>>::empty());
        }
        r
    }

    /// Append a name; fails (handing the name back) when the list
    /// already holds 32 entries.
    pub fn push(&mut self, name: ByteBuf<64>) -> (r: Result<(), ByteBuf<64>>)
        ensures
            match r {
                Ok(()) => old(self)@.len() < 32 && final(self)@ == old(self)@.push(name@),
                Err(n) => old(self)@.len() == 32 && final(self)@ == old(self)@ && n == name,
            },
    {
        proof {
            use_type_invariant(&*self);
            use_type_invariant(&name);
        }
        if self.names.len() < 32 {
            let ghost pushed = name@;
            let mut names: Vec<ByteBuf<64>> = Vec::new();
            core::mem::swap(&mut names, &mut self.names);
            names.push(name);
            proof {
                let target = old(self)@.push(pushed);
                assert(names@.map_values(|b: ByteBuf<64>| b@) =~= target);
                assert forall|i: int| 0 <= i < target.len() implies #[trigger] target[i].len()
                    <= 64 by {
                    if i < old(self)@.len() {
                        assert(old(self)@[i].len() <= 64);
                    } else {
                        assert(target[i] == pushed);
                    }
                }
            }
            self.names = names;
            proof {
                assert(self@ =~= old(self)@.push(pushed));
            }
            Ok(())
        } else {
            Err(name)
        }
    }

    /// Build a list from a vector of names; fails when the vector holds
    /// more than 32 entries.
    pub fn from_vec(names: Vec<ByteBuf<64>>) -> (r: Option<FileNames>)
        ensures
            match r {
                Some(f) => names@.len() <= 32 && f@ == names@.map_values(|b: ByteBuf<64>| b@),
                None => names@.len() > 32,
            },
    {
        if names.len() <= 32 {
            let mut k: usize = 0;
            while k < names.len()
                invariant
                    k <= names@.len(),
                    forall|i: int| 0 <= i < k ==> #[trigger] names@[i]@.len() <= 64,
                decreases names@.len() - k,
            {
                let b = &names[k];
                proof {
                    use_type_invariant(b);
                }
                k = k + 1;
            }
            let r = FileNames { names };
            proof {
                assert(r@ =~= r.names@.map_values(|b: ByteBuf<64>| b@));
            }
            Some(r)
        } else {
            None
        }
    }

    /// Number of names held.
    pub fn len(&self) -> (r: usize)
        ensures
            r == self@.len(),
    {
        self.names.len()
    }

    /// The name at index `i`.
    pub fn index(&self, i: usize) -> (r: &ByteBuf<64>)
        requires
            i < self@.len(),
        ensures
            r@ == self@[i as int],
    {
        &self.names[i]
    }

}

/// Main message enum for all protocol operations.
#[derive(Debug, PartialEq)]
pub enum Message {
    /// Set the current bus mode
    SetMode { mode: Mode },
    /// Get the current bus mode
    GetMode,
    /// Scan I2C bus for devices
    I2cScan,
    /// Write data to I2C device
    I2cWrite { addr: u8, data: ByteBuf<256> },
    /// Read data from I2C device
    I2cRead { addr: u8, len: u8 },
    /// Read register from I2C device
    I2cReadRegister { addr: u8, reg: u8 },
    /// Write register to I2C device
    I2cWriteRegister { addr: u8, reg: u8, value: u8 },
    /// Transfer data over SPI
    SpiTransfer { data: ByteBuf<256> },
    /// Write data to UART
    UartWrite { data: ByteBuf<256> },
    /// Read data from UART
    UartRead { len: u16 },
    /// Configure UART parameters
    UartConfig { baudrate: u32 },
    /// Set configuration value
    SetConfig { key: ByteBuf<32>, value: ByteBuf<64> },
    /// Get configuration value
    GetConfig { key: ByteBuf<32> },
    /// List files in directory
    FileList { path: ByteBuf<128> },
    /// Read file contents
    FileRead { path: ByteBuf<128> },
    /// Write file contents
    FileWrite { path: ByteBuf<128>, data: ByteBuf<512> },
    /// Response message
    Response(Response),
    /// Error response
    Error(ErrorCode),
}

/// Response types.
#[derive(Debug, PartialEq)]
pub enum Response {
    /// Simple success
    Success,
    /// Data payload
    Data(ByteBuf<512>),
    /// List of I2C device addresses
    I2cDevices(ByteBuf<128>),
    /// Current mode
    CurrentMode(Mode),
    /// Configuration value
    ConfigValue(ByteBuf<64>),
    /// File list
    FileList(FileNames),
}

/// Mathematical model of a [`Message`]: buffers are byte sequences.
pub enum MessageView {
    SetMode { mode: Mode },
    GetMode,
    I2cScan,
    I2cWrite { addr: u8, data: Seq<u8> },
    I2cRead { addr: u8, len: u8 },
    I2cReadRegister { addr: u8, reg: u8 },
    I2cWriteRegister { addr: u8, reg: u8, value: u8 },
    SpiTransfer { data: Seq<u8> },
    UartWrite { data: Seq<u8> },
    UartRead { len: u16 },
    UartConfig { baudrate: u32 },
    SetConfig { key: Seq<u8>, value: Seq<u8> },
    GetConfig { key: Seq<u8> },
    FileList { path: Seq<u8> },
    FileRead { path: Seq<u8> },
    FileWrite { path: Seq<u8>, data: Seq<u8> },
    Response(ResponseView),
    Error(ErrorCode),
}

/// Mathematical model of a [`Response`].
pub enum ResponseView {
    Success,
    Data(Seq<u8>),
    I2cDevices(Seq<u8>),
    CurrentMode(Mode),
    ConfigValue(Seq<u8>),
    FileList(Seq<Seq<u8>>),
}

impl View for Response {
    type V = ResponseView;

    open spec fn view(&self) -> ResponseView {
        match self {
            Response::Success => ResponseView::Success,
            Response::Data(d) => ResponseView::Data(d@),
            Response::I2cDevices(d) => ResponseView::I2cDevices(d@),
            Response::CurrentMode(m) => ResponseView::CurrentMode(*m),
            Response::ConfigValue(v) => ResponseView::ConfigValue(v@),
            Response::FileList(names) => ResponseView::FileList(names@),
        }
    }
}

impl View for Message {
    type V = MessageView;

    open spec fn view(&self) -> MessageView {
        match self {
            Message::SetMode { mode } => MessageView::SetMode { mode: *mode },
            Message::GetMode => MessageView::GetMode,
            Message::I2cScan => MessageView::I2cScan,
            Message::I2cWrite { addr, data } => MessageView::I2cWrite { addr: *addr, data: data@ },
            Message::I2cRead { addr, len } => MessageView::I2cRead { addr: *addr, len: *len },
            Message::I2cReadRegister { addr, reg } => MessageView::I2cReadRegister {
                addr: *addr,
                reg: *reg,
            },
            Message::I2cWriteRegister { addr, reg, value } => MessageView::I2cWriteRegister {
                addr: *addr,
                reg: *reg,
                value: *value,
            },
            Message::SpiTransfer { data } => MessageView::SpiTransfer { data: data@ },
            Message::UartWrite { data } => MessageView::UartWrite { data: data@ },
            Message::UartRead { len } => MessageView::UartRead { len: *len },
            Message::UartConfig { baudrate } => MessageView::UartConfig { baudrate: *baudrate },
            Message::SetConfig { key, value } => MessageView::SetConfig {
                key: key@,
                value: value@,
            },
            Message::GetConfig { key } => MessageView::GetConfig { key: key@ },
            Message::FileList { path } => MessageView::FileList { path: path@ },
            Message::FileRead { path } => MessageView::FileRead { path: path@ },
            Message::FileWrite { path, data } => MessageView::FileWrite {
                path: path@,
                data: data@,
            },
            Message::Response(r) => MessageView::Response(r@),
            Message::Error(c) => MessageView::Error(*c),
        }
    }
}

/// Capacity bounds of a response value, as the wire format fixes them.
pub open spec fn wf_response(r: ResponseView) -> bool {
    match r {
        ResponseView::Success => true,
        ResponseView::Data(d) => d.len() <= 512,
        ResponseView::I2cDevices(d) => d.len() <= 128,
        ResponseView::CurrentMode(_) => true,
        ResponseView::ConfigValue(v) => v.len() <= 64,
        ResponseView::FileList(names) => names.len() <= 32 && forall|i: int|
            0 <= i < names.len() ==> #[trigger] names[i].len() <= 64,
    }
}

/// Capacity bounds of a message value, as the wire format fixes them.
pub open spec fn wf_message(m: MessageView) -> bool {
    match m {
        MessageView::SetMode { .. } => true,
        MessageView::GetMode => true,
        MessageView::I2cScan => true,
        MessageView::I2cWrite { data, .. } => data.len() <= 256,
        MessageView::I2cRead { .. } => true,
        MessageView::I2cReadRegister { .. } => true,
        MessageView::I2cWriteRegister { .. } => true,
        MessageView::SpiTransfer { data } => data.len() <= 256,
        MessageView::UartWrite { data } => data.len() <= 256,
        MessageView::UartRead { .. } => true,
        MessageView::UartConfig { .. } => true,
        MessageView::SetConfig { key, value } => key.len() <= 32 && value.len() <= 64,
        MessageView::GetConfig { key } => key.len() <= 32,
        MessageView::FileList { path } => path.len() <= 128,
        MessageView::FileRead { path } => path.len() <= 128,
        MessageView::FileWrite { path, data } => path.len() <= 128 && data.len() <= 512,
        MessageView::Response(r) => wf_response(r),
        MessageView::Error(_) => true,
    }
}

} // verus!
