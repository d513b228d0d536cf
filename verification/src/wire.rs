//! Binary value encoding: the positional, schema-less payload format.
//!
//! A message is encoded as its variant ordinal (a little-endian base-128
//! variable-length integer, continuation bit set on all but the final
//! byte) followed by its fields in declaration order.  Multi-byte
//! integers use the same varint scheme; single-byte integers are one raw
//! byte; buffers and strings are a varint byte count followed by the raw
//! bytes.  Parsing rejects anything that does not exactly match the
//! shape of some variant: unknown ordinals, truncated fields,
//! over-capacity counts, and trailing bytes.

use vstd::prelude::*;
use vstd::slice::{slice_index_get, slice_subrange};
use crate::message::{ByteBuf, ErrorCode, FileNames, Message, MessageView, Mode, Response,
    ResponseView};

verus! {

// ---------------------------------------------------------------------
// Variable-length integers
// ---------------------------------------------------------------------

/// The varint encoding of `n`: little-endian base-128 groups, the high
/// bit set on every byte but the last.
pub open spec fn spec_varint(n: nat) -> Seq<u8>
    decreases n,
{
    if n < 128 {
        seq![n as u8]
    } else {
        seq![(n % 128 + 128) as u8] + spec_varint(n / 128)
    }
}

/// Number of bytes in the varint encoding of `n`.
pub open spec fn varint_len(n: nat) -> nat
    decreases n,
{
    if n < 128 {
        1
    } else {
        1 + varint_len(n / 128)
    }
}

/// Smallest value that does not fit in `k` varint bytes: `128^k`.
pub open spec fn varint_cap(k: nat) -> nat
    decreases k,
{
    if k == 0 {
        1
    } else {
        128 * varint_cap((k - 1) as nat)
    }
}

pub proof fn lemma_varint_len(n: nat)
    ensures
        spec_varint(n).len() == varint_len(n),
        varint_len(n) >= 1,
    decreases n,
{
    if n >= 128 {
        lemma_varint_len(n / 128);
    }
}

proof fn lemma_varint_cap_positive(k: nat)
    ensures
        varint_cap(k) >= 1,
    decreases k,
{
    if k > 0 {
        lemma_varint_cap_positive((k - 1) as nat);
    }
}

proof fn lemma_varint_cap_mono(a: nat, b: nat)
    requires
        a <= b,
    ensures
        varint_cap(a) <= varint_cap(b),
    decreases b,
{
    if a < b {
        lemma_varint_cap_mono(a, (b - 1) as nat);
        lemma_varint_cap_positive((b - 1) as nat);
    }
}

/// A value below `128^k` encodes in at most `k` bytes.
pub proof fn lemma_varint_len_le(n: nat, k: nat)
    requires
        k >= 1,
        n < varint_cap(k),
    ensures
        varint_len(n) <= k,
    decreases n,
{
    if n >= 128 {
        lemma_varint_cap_positive((k - 1) as nat);
        lemma_varint_len_le(n / 128, (k - 1) as nat);
    }
}

/// Parse a varint of at most `max` bytes starting at index `i`,
/// returning the value and the index just past it.
pub open spec fn parse_varint_at(p: Seq<u8>, i: int, max: nat) -> Option<(nat, int)>
    decreases max,
{
    if max == 0 || i < 0 || i >= p.len() {
        None
    } else if p[i] < 128 {
        Some((p[i] as nat, i + 1))
    } else {
        match parse_varint_at(p, i + 1, (max - 1) as nat) {
            None => None,
            Some((v, j)) => Some((((p[i] - 128) + 128 * v) as nat, j)),
        }
    }
}

/// Parsing the encoding of `n` yields `n` and stops right after it.
pub proof fn lemma_parse_varint_of_encoding(p: Seq<u8>, i: int, n: nat, max: nat)
    requires
        0 <= i,
        i + varint_len(n) <= p.len(),
        p.subrange(i, i + varint_len(n)) == spec_varint(n),
        varint_len(n) <= max,
    ensures
        parse_varint_at(p, i, max) == Some((n, i + varint_len(n))),
    decreases n,
{
    lemma_varint_len(n);
    if n < 128 {
        assert(p[i] == spec_varint(n)[0]);
    } else {
        lemma_varint_len(n / 128);
        assert(p[i] == spec_varint(n)[0]);
        assert(p[i] == (n % 128 + 128) as u8);
        assert(p.subrange(i + 1, i + 1 + varint_len(n / 128)) =~= spec_varint(n / 128)) by {
            assert(forall|k: int|
                0 <= k < varint_len(n / 128) ==> #[trigger] p.subrange(
                    i + 1,
                    i + 1 + varint_len(n / 128),
                )[k] == p.subrange(i, i + varint_len(n))[k + 1]);
        }
        lemma_parse_varint_of_encoding(p, i + 1, n / 128, (max - 1) as nat);
        assert((p[i] - 128) + 128 * (n / 128) == n % 128 + 128 * (n / 128));
        vstd::arithmetic::div_mod::lemma_fundamental_div_mod(n as int, 128);
    }
}

/// Parse a varint holding at most a `u32` value.
pub open spec fn parse_u32_at(p: Seq<u8>, i: int) -> Option<(nat, int)> {
    match parse_varint_at(p, i, 5) {
        None => None,
        Some((v, j)) => if v <= 0xFFFF_FFFF {
            Some((v, j))
        } else {
            None
        },
    }
}

/// Parse a varint holding at most a `u16` value.
pub open spec fn parse_u16_at(p: Seq<u8>, i: int) -> Option<(nat, int)> {
    match parse_varint_at(p, i, 3) {
        None => None,
        Some((v, j)) => if v <= 0xFFFF {
            Some((v, j))
        } else {
            None
        },
    }
}

/// Parse one raw byte.
pub open spec fn parse_u8_at(p: Seq<u8>, i: int) -> Option<(u8, int)> {
    if 0 <= i < p.len() {
        Some((p[i], i + 1))
    } else {
        None
    }
}

/// Parse a counted byte field of at most `cap` bytes.
pub open spec fn parse_bytes_at(p: Seq<u8>, i: int, cap: nat) -> Option<(Seq<u8>, int)> {
    match parse_u32_at(p, i) {
        None => None,
        Some((n, j)) => if n <= cap && j + n <= p.len() {
            Some((p.subrange(j, j + n), j + n))
        } else {
            None
        },
    }
}

// ---------------------------------------------------------------------
// Variant ordinals
// ---------------------------------------------------------------------

/// Ordinal of a bus mode, by declaration order.
pub open spec fn mode_tag(m: Mode) -> nat {
    match m {
        Mode::HiZ => 0,
        Mode::I2c => 1,
        Mode::Spi => 2,
        Mode::Uart => 3,
        Mode::OneWire => 4,
        Mode::TwoWire => 5,
        Mode::ThreeWire => 6,
        Mode::Dio => 7,
        Mode::Infrared => 8,
        Mode::Usb => 9,
        Mode::Bluetooth => 10,
        Mode::Wifi => 11,
        Mode::Ethernet => 12,
        Mode::Jtag => 13,
        Mode::Led => 14,
        Mode::I2s => 15,
        Mode::Can => 16,
        Mode::SubGhz => 17,
        Mode::Rfid => 18,
        Mode::Rf24 => 19,
    }
}

/// Inverse of [`mode_tag`].
pub open spec fn mode_from_tag(n: nat) -> Option<Mode> {
    if n == 0 {
        Some(Mode::HiZ)
    } else if n == 1 {
        Some(Mode::I2c)
    } else if n == 2 {
        Some(Mode::Spi)
    } else if n == 3 {
        Some(Mode::Uart)
    } else if n == 4 {
        Some(Mode::OneWire)
    } else if n == 5 {
        Some(Mode::TwoWire)
    } else if n == 6 {
        Some(Mode::ThreeWire)
    } else if n == 7 {
        Some(Mode::Dio)
    } else if n == 8 {
        Some(Mode::Infrared)
    } else if n == 9 {
        Some(Mode::Usb)
    } else if n == 10 {
        Some(Mode::Bluetooth)
    } else if n == 11 {
        Some(Mode::Wifi)
    } else if n == 12 {
        Some(Mode::Ethernet)
    } else if n == 13 {
        Some(Mode::Jtag)
    } else if n == 14 {
        Some(Mode::Led)
    } else if n == 15 {
        Some(Mode::I2s)
    } else if n == 16 {
        Some(Mode::Can)
    } else if n == 17 {
        Some(Mode::SubGhz)
    } else if n == 18 {
        Some(Mode::Rfid)
    } else if n == 19 {
        Some(Mode::Rf24)
    } else {
        None
    }
}

/// Ordinal of an error code, by declaration order.
pub open spec fn code_tag(c: ErrorCode) -> nat {
    match c {
        ErrorCode::InvalidCommand => 0,
        ErrorCode::ProtocolError => 1,
        ErrorCode::BusError => 2,
        ErrorCode::FileNotFound => 3,
        ErrorCode::PermissionDenied => 4,
        ErrorCode::Timeout => 5,
        ErrorCode::NotConfigured => 6,
        ErrorCode::InvalidParameter => 7,
    }
}

/// Inverse of [`code_tag`].
pub open spec fn code_from_tag(n: nat) -> Option<ErrorCode> {
    if n == 0 {
        Some(ErrorCode::InvalidCommand)
    } else if n == 1 {
        Some(ErrorCode::ProtocolError)
    } else if n == 2 {
        Some(ErrorCode::BusError)
    } else if n == 3 {
        Some(ErrorCode::FileNotFound)
    } else if n == 4 {
        Some(ErrorCode::PermissionDenied)
    } else if n == 5 {
        Some(ErrorCode::Timeout)
    } else if n == 6 {
        Some(ErrorCode::NotConfigured)
    } else if n == 7 {
        Some(ErrorCode::InvalidParameter)
    } else {
        None
    }
}

/// Ordinal of a response variant, by declaration order.
pub open spec fn response_tag(r: ResponseView) -> nat {
    match r {
        ResponseView::Success => 0,
        ResponseView::Data(_) => 1,
        ResponseView::I2cDevices(_) => 2,
        ResponseView::CurrentMode(_) => 3,
        ResponseView::ConfigValue(_) => 4,
        ResponseView::FileList(_) => 5,
    }
}

/// Ordinal of a message variant, by declaration order.
pub open spec fn message_tag(m: MessageView) -> nat {
    match m {
        MessageView::SetMode { .. } => 0,
        MessageView::GetMode => 1,
        MessageView::I2cScan => 2,
        MessageView::I2cWrite { .. } => 3,
        MessageView::I2cRead { .. } => 4,
        MessageView::I2cReadRegister { .. } => 5,
        MessageView::I2cWriteRegister { .. } => 6,
        MessageView::SpiTransfer { .. } => 7,
        MessageView::UartWrite { .. } => 8,
        MessageView::UartRead { .. } => 9,
        MessageView::UartConfig { .. } => 10,
        MessageView::SetConfig { .. } => 11,
        MessageView::GetConfig { .. } => 12,
        MessageView::FileList { .. } => 13,
        MessageView::FileRead { .. } => 14,
        MessageView::FileWrite { .. } => 15,
        MessageView::Response(_) => 16,
        MessageView::Error(_) => 17,
    }
}

// ---------------------------------------------------------------------
// Payload encoding (specification)
// ---------------------------------------------------------------------

/// A counted byte field: varint length, then the raw bytes.
pub open spec fn spec_bytes_field(b: Seq<u8>) -> Seq<u8> {
    spec_varint(b.len()) + b
}

/// A counted list of name fields, in order.
pub open spec fn spec_name_list(names: Seq<Seq<u8>>) -> Seq<u8>
    decreases names.len(),
{
    if names.len() == 0 {
        Seq::empty()
    } else {
        spec_bytes_field(names[0]) + spec_name_list(names.skip(1))
    }
}

/// The fields of a response, in declaration order.
pub open spec fn spec_response_fields(r: ResponseView) -> Seq<u8> {
    match r {
        ResponseView::Success => Seq::empty(),
        ResponseView::Data(d) => spec_bytes_field(d),
        ResponseView::I2cDevices(d) => spec_bytes_field(d),
        ResponseView::CurrentMode(m) => spec_varint(mode_tag(m)),
        ResponseView::ConfigValue(v) => spec_bytes_field(v),
        ResponseView::FileList(names) => spec_varint(names.len()) + spec_name_list(names),
    }
}

/// The fields of a message, in declaration order.
pub open spec fn spec_message_fields(m: MessageView) -> Seq<u8> {
    match m {
        MessageView::SetMode { mode } => spec_varint(mode_tag(mode)),
        MessageView::GetMode => Seq::empty(),
        MessageView::I2cScan => Seq::empty(),
        MessageView::I2cWrite { addr, data } => seq![addr] + spec_bytes_field(data),
        MessageView::I2cRead { addr, len } => seq![addr, len],
        MessageView::I2cReadRegister { addr, reg } => seq![addr, reg],
        MessageView::I2cWriteRegister { addr, reg, value } => seq![addr, reg, value],
        MessageView::SpiTransfer { data } => spec_bytes_field(data),
        MessageView::UartWrite { data } => spec_bytes_field(data),
        MessageView::UartRead { len } => spec_varint(len as nat),
        MessageView::UartConfig { baudrate } => spec_varint(baudrate as nat),
        MessageView::SetConfig { key, value } => spec_bytes_field(key) + spec_bytes_field(value),
        MessageView::GetConfig { key } => spec_bytes_field(key),
        MessageView::FileList { path } => spec_bytes_field(path),
        MessageView::FileRead { path } => spec_bytes_field(path),
        MessageView::FileWrite { path, data } => spec_bytes_field(path) + spec_bytes_field(data),
        MessageView::Response(r) => spec_varint(response_tag(r)) + spec_response_fields(r),
        MessageView::Error(c) => spec_varint(code_tag(c)),
    }
}

/// The complete payload of a message: variant ordinal, then fields.
pub open spec fn spec_payload(m: MessageView) -> Seq<u8> {
    spec_varint(message_tag(m)) + spec_message_fields(m)
}

// ---------------------------------------------------------------------
// Payload parsing (specification)
// ---------------------------------------------------------------------

/// Parse a bus mode: a varint ordinal in range.
pub open spec fn parse_mode_at(p: Seq<u8>, i: int) -> Option<(Mode, int)> {
    match parse_u32_at(p, i) {
        None => None,
        Some((v, j)) => match mode_from_tag(v) {
            None => None,
            Some(m) => Some((m, j)),
        },
    }
}

/// Parse an error code: a varint ordinal in range.
pub open spec fn parse_code_at(p: Seq<u8>, i: int) -> Option<(ErrorCode, int)> {
    match parse_u32_at(p, i) {
        None => None,
        Some((v, j)) => match code_from_tag(v) {
            None => None,
            Some(c) => Some((c, j)),
        },
    }
}

/// Parse `count` name fields of at most 64 bytes each.
pub open spec fn parse_names_at(p: Seq<u8>, i: int, count: nat) -> Option<(Seq<Seq<u8>>, int)>
    decreases count,
{
    if count == 0 {
        Some((Seq::empty(), i))
    } else {
        match parse_bytes_at(p, i, 64) {
            None => None,
            Some((name, j)) => match parse_names_at(p, j, (count - 1) as nat) {
                None => None,
                Some((rest, k)) => Some((seq![name] + rest, k)),
            },
        }
    }
}

/// Parse the fields of the response variant with ordinal `tag`.
pub open spec fn parse_response_body_at(p: Seq<u8>, tag: nat, i: int) -> Option<
    (ResponseView, int),
> {
    if tag == 0 {
        Some((ResponseView::Success, i))
    } else if tag == 1 {
        match parse_bytes_at(p, i, 512) {
            None => None,
            Some((d, j)) => Some((ResponseView::Data(d), j)),
        }
    } else if tag == 2 {
        match parse_bytes_at(p, i, 128) {
            None => None,
            Some((d, j)) => Some((ResponseView::I2cDevices(d), j)),
        }
    } else if tag == 3 {
        match parse_mode_at(p, i) {
            None => None,
            Some((m, j)) => Some((ResponseView::CurrentMode(m), j)),
        }
    } else if tag == 4 {
        match parse_bytes_at(p, i, 64) {
            None => None,
            Some((v, j)) => Some((ResponseView::ConfigValue(v), j)),
        }
    } else if tag == 5 {
        match parse_u32_at(p, i) {
            None => None,
            Some((count, j)) => if count <= 32 {
                match parse_names_at(p, j, count) {
                    None => None,
                    Some((names, k)) => Some((ResponseView::FileList(names), k)),
                }
            } else {
                None
            },
        }
    } else {
        None
    }
}

/// Parse a response: varint ordinal, then its fields.
pub open spec fn parse_response_at(p: Seq<u8>, i: int) -> Option<(ResponseView, int)> {
    match parse_u32_at(p, i) {
        None => None,
        Some((tag, j)) => parse_response_body_at(p, tag, j),
    }
}

/// Parse the fields of the message variant with ordinal `tag`.
pub open spec fn parse_message_body_at(p: Seq<u8>, tag: nat, i: int) -> Option<
    (MessageView, int),
> {
    if tag == 0 {
        match parse_mode_at(p, i) {
            None => None,
            Some((mode, j)) => Some((MessageView::SetMode { mode }, j)),
        }
    } else if tag == 1 {
        Some((MessageView::GetMode, i))
    } else if tag == 2 {
        Some((MessageView::I2cScan, i))
    } else if tag == 3 {
        match parse_u8_at(p, i) {
            None => None,
            Some((addr, j)) => match parse_bytes_at(p, j, 256) {
                None => None,
                Some((data, k)) => Some((MessageView::I2cWrite { addr, data }, k)),
            },
        }
    } else if tag == 4 {
        match parse_u8_at(p, i) {
            None => None,
            Some((addr, j)) => match parse_u8_at(p, j) {
                None => None,
                Some((len, k)) => Some((MessageView::I2cRead { addr, len }, k)),
            },
        }
    } else if tag == 5 {
        match parse_u8_at(p, i) {
            None => None,
            Some((addr, j)) => match parse_u8_at(p, j) {
                None => None,
                Some((reg, k)) => Some((MessageView::I2cReadRegister { addr, reg }, k)),
            },
        }
    } else if tag == 6 {
        match parse_u8_at(p, i) {
            None => None,
            Some((addr, j)) => match parse_u8_at(p, j) {
                None => None,
                Some((reg, k)) => match parse_u8_at(p, k) {
                    None => None,
                    Some((value, l)) => Some(
                        (MessageView::I2cWriteRegister { addr, reg, value }, l),
                    ),
                },
            },
        }
    } else if tag == 7 {
        match parse_bytes_at(p, i, 256) {
            None => None,
            Some((data, j)) => Some((MessageView::SpiTransfer { data }, j)),
        }
    } else if tag == 8 {
        match parse_bytes_at(p, i, 256) {
            None => None,
            Some((data, j)) => Some((MessageView::UartWrite { data }, j)),
        }
    } else if tag == 9 {
        match parse_u16_at(p, i) {
            None => None,
            Some((len, j)) => Some((MessageView::UartRead { len: len as u16 }, j)),
        }
    } else if tag == 10 {
        match parse_u32_at(p, i) {
            None => None,
            Some((baudrate, j)) => Some((MessageView::UartConfig { baudrate: baudrate as u32 }, j)),
        }
    } else if tag == 11 {
        match parse_bytes_at(p, i, 32) {
            None => None,
            Some((key, j)) => match parse_bytes_at(p, j, 64) {
                None => None,
                Some((value, k)) => Some((MessageView::SetConfig { key, value }, k)),
            },
        }
    } else if tag == 12 {
        match parse_bytes_at(p, i, 32) {
            None => None,
            Some((key, j)) => Some((MessageView::GetConfig { key }, j)),
        }
    } else if tag == 13 {
        match parse_bytes_at(p, i, 128) {
            None => None,
            Some((path, j)) => Some((MessageView::FileList { path }, j)),
        }
    } else if tag == 14 {
        match parse_bytes_at(p, i, 128) {
            None => None,
            Some((path, j)) => Some((MessageView::FileRead { path }, j)),
        }
    } else if tag == 15 {
        match parse_bytes_at(p, i, 128) {
            None => None,
            Some((path, j)) => match parse_bytes_at(p, j, 512) {
                None => None,
                Some((data, k)) => Some((MessageView::FileWrite { path, data }, k)),
            },
        }
    } else if tag == 16 {
        match parse_response_at(p, i) {
            None => None,
            Some((r, j)) => Some((MessageView::Response(r), j)),
        }
    } else if tag == 17 {
        match parse_code_at(p, i) {
            None => None,
            Some((c, j)) => Some((MessageView::Error(c), j)),
        }
    } else {
        None
    }
}

/// Parse a complete payload into a message.  The payload must be
/// consumed exactly: trailing bytes are rejected.
pub open spec fn spec_parse_message(p: Seq<u8>) -> Option<MessageView> {
    match parse_u32_at(p, 0) {
        None => None,
        Some((tag, i)) => match parse_message_body_at(p, tag, i) {
            None => None,
            Some((m, j)) => if j == p.len() {
                Some(m)
            } else {
                None
            },
        },
    }
}

// ---------------------------------------------------------------------
// Payload encoding (executable)
// ---------------------------------------------------------------------

/// Append the varint encoding of `n`.
fn push_varint(out: &mut Vec<u8>, n: u32)
    ensures
        final(out)@ == old(out)@ + spec_varint(n as nat),
    decreases n,
{
    if n < 128 {
        out.push(n as u8);
        proof {
            assert(out@ =~= old(out)@ + spec_varint(n as nat));
        }
    } else {
        let ghost prev = out@;
        out.push((n % 128 + 128) as u8);
        push_varint(out, n / 128);
        proof {
            assert(out@ =~= prev + spec_varint(n as nat));
        }
    }
}

/// Append the raw bytes of `s`.
pub(crate) fn push_bytes(out: &mut Vec<u8>, s: &[u8])
    ensures
        final(out)@ == old(out)@ + s@,
{
    out.extend_from_slice(s);
    proof {
        assert(out@ =~= old(out)@ + s@);
    }
}

/// Append a counted byte field: varint length, then the raw bytes.
fn push_bytes_field(out: &mut Vec<u8>, s: &[u8])
    requires
        s@.len() <= 0xFFFF_FFFF,
    ensures
        final(out)@ == old(out)@ + spec_bytes_field(s@),
{
    let ghost prev = out@;
    push_varint(out, s.len() as u32);
    push_bytes(out, s);
    proof {
        assert(out@ =~= prev + spec_bytes_field(s@));
    }
}

/// Ordinal of a bus mode, as a byte.
fn mode_index(m: Mode) -> (r: u8)
    ensures
        r as nat == mode_tag(m),
{
    match m {
        Mode::HiZ => 0,
        Mode::I2c => 1,
        Mode::Spi => 2,
        Mode::Uart => 3,
        Mode::OneWire => 4,
        Mode::TwoWire => 5,
        Mode::ThreeWire => 6,
        Mode::Dio => 7,
        Mode::Infrared => 8,
        Mode::Usb => 9,
        Mode::Bluetooth => 10,
        Mode::Wifi => 11,
        Mode::Ethernet => 12,
        Mode::Jtag => 13,
        Mode::Led => 14,
        Mode::I2s => 15,
        Mode::Can => 16,
        Mode::SubGhz => 17,
        Mode::Rfid => 18,
        Mode::Rf24 => 19,
    }
}

/// Ordinal of an error code, as a byte.
fn code_index(c: ErrorCode) -> (r: u8)
    ensures
        r as nat == code_tag(c),
{
    match c {
        ErrorCode::InvalidCommand => 0,
        ErrorCode::ProtocolError => 1,
        ErrorCode::BusError => 2,
        ErrorCode::FileNotFound => 3,
        ErrorCode::PermissionDenied => 4,
        ErrorCode::Timeout => 5,
        ErrorCode::NotConfigured => 6,
        ErrorCode::InvalidParameter => 7,
    }
}

/// Splitting a name list encoding at the last element.
proof fn lemma_name_list_snoc(names: Seq<Seq<u8>>, name: Seq<u8>)
    ensures
        spec_name_list(names.push(name)) == spec_name_list(names) + spec_bytes_field(name),
    decreases names.len(),
{
    let p = names.push(name);
    if names.len() == 0 {
        assert(p[0] == name);
        assert(p.skip(1) =~= Seq::<Seq<u8>>::empty());
        assert(spec_name_list(p.skip(1)) == Seq::<u8>::empty());
        assert(spec_name_list(p) == spec_bytes_field(name) + Seq::<u8>::empty());
        assert(spec_bytes_field(name) + Seq::<u8>::empty() =~= Seq::<u8>::empty()
            + spec_bytes_field(name));
    } else {
        assert(p[0] == names[0]);
        assert(p.skip(1) =~= names.skip(1).push(name));
        lemma_name_list_snoc(names.skip(1), name);
        assert(spec_name_list(p) == spec_bytes_field(names[0]) + (spec_name_list(names.skip(1))
            + spec_bytes_field(name)));
        assert(spec_name_list(names) == spec_bytes_field(names[0]) + spec_name_list(
            names.skip(1),
        ));
        assert(spec_bytes_field(names[0]) + (spec_name_list(names.skip(1)) + spec_bytes_field(
            name,
        )) =~= (spec_bytes_field(names[0]) + spec_name_list(names.skip(1))) + spec_bytes_field(
            name,
        ));
    }
}

/// Append the encoding of a response's ordinal and fields.
fn push_response(out: &mut Vec<u8>, r: &Response)
    ensures
        final(out)@ == old(out)@ + spec_varint(response_tag(r@)) + spec_response_fields(r@),
        crate::message::wf_response(r@),
{
    let ghost prev = out@;
    match r {
        Response::Success => {
            push_varint(out, 0);
        },
        Response::Data(d) => {
            proof {
                use_type_invariant(d);
            }
            push_varint(out, 1);
            push_bytes_field(out, d.as_slice());
        },
        Response::I2cDevices(d) => {
            proof {
                use_type_invariant(d);
            }
            push_varint(out, 2);
            push_bytes_field(out, d.as_slice());
        },
        Response::CurrentMode(m) => {
            push_varint(out, 3);
            let idx = mode_index(*m);
            push_varint(out, idx as u32);
        },
        Response::ConfigValue(v) => {
            proof {
                use_type_invariant(v);
            }
            push_varint(out, 4);
            push_bytes_field(out, v.as_slice());
        },
        Response::FileList(names) => {
            proof {
                use_type_invariant(names);
            }
            push_varint(out, 5);
            let count = names.len();
            push_varint(out, count as u32);
            let ghost base = out@;
            let mut k: usize = 0;
            while k < count
                invariant
                    count == names@.len() <= 32,
                    k <= count,
                    out@ == base + spec_name_list(names@.take(k as int)),
                decreases count - k,
            {
                let name = names.index(k);
                proof {
                    use_type_invariant(name);
                }
                push_bytes_field(out, name.as_slice());
                proof {
                    lemma_name_list_snoc(names@.take(k as int), names@[k as int]);
                    assert(names@.take(k as int).push(names@[k as int]) =~= names@.take(
                        k as int + 1,
                    ));
                    assert(out@ =~= base + spec_name_list(names@.take(k as int + 1)));
                }
                k = k + 1;
            }
            proof {
                assert(names@.take(count as int) =~= names@);
            }
        },
    }
    proof {
        assert(out@ =~= prev + spec_varint(response_tag(r@)) + spec_response_fields(r@));
    }
}

/// Encode a message into its payload bytes.
///
/// Encoding is total on constructible messages and deterministic: the
/// result is exactly [`spec_payload`] of the message's value.
pub fn encode_payload(msg: &Message) -> (r: Vec<u8>)
    ensures
        r@ == spec_payload(msg@),
        crate::message::wf_message(msg@),
{
    let mut out: Vec<u8> = Vec::new();
    match msg {
        Message::SetMode { mode } => {
            push_varint(&mut out, 0);
            let idx = mode_index(*mode);
            push_varint(&mut out, idx as u32);
        },
        Message::GetMode => {
            push_varint(&mut out, 1);
        },
        Message::I2cScan => {
            push_varint(&mut out, 2);
        },
        Message::I2cWrite { addr, data } => {
            proof {
                use_type_invariant(data);
            }
            push_varint(&mut out, 3);
            out.push(*addr);
            push_bytes_field(&mut out, data.as_slice());
        },
        Message::I2cRead { addr, len } => {
            push_varint(&mut out, 4);
            out.push(*addr);
            out.push(*len);
        },
        Message::I2cReadRegister { addr, reg } => {
            push_varint(&mut out, 5);
            out.push(*addr);
            out.push(*reg);
        },
        Message::I2cWriteRegister { addr, reg, value } => {
            push_varint(&mut out, 6);
            out.push(*addr);
            out.push(*reg);
            out.push(*value);
        },
        Message::SpiTransfer { data } => {
            proof {
                use_type_invariant(data);
            }
            push_varint(&mut out, 7);
            push_bytes_field(&mut out, data.as_slice());
        },
        Message::UartWrite { data } => {
            proof {
                use_type_invariant(data);
            }
            push_varint(&mut out, 8);
            push_bytes_field(&mut out, data.as_slice());
        },
        Message::UartRead { len } => {
            push_varint(&mut out, 9);
            push_varint(&mut out, *len as u32);
        },
        Message::UartConfig { baudrate } => {
            push_varint(&mut out, 10);
            push_varint(&mut out, *baudrate);
        },
        Message::SetConfig { key, value } => {
            proof {
                use_type_invariant(key);
                use_type_invariant(value);
            }
            push_varint(&mut out, 11);
            push_bytes_field(&mut out, key.as_slice());
            push_bytes_field(&mut out, value.as_slice());
        },
        Message::GetConfig { key } => {
            proof {
                use_type_invariant(key);
            }
            push_varint(&mut out, 12);
            push_bytes_field(&mut out, key.as_slice());
        },
        Message::FileList { path } => {
            proof {
                use_type_invariant(path);
            }
            push_varint(&mut out, 13);
            push_bytes_field(&mut out, path.as_slice());
        },
        Message::FileRead { path } => {
            proof {
                use_type_invariant(path);
            }
            push_varint(&mut out, 14);
            push_bytes_field(&mut out, path.as_slice());
        },
        Message::FileWrite { path, data } => {
            proof {
                use_type_invariant(path);
                use_type_invariant(data);
            }
            push_varint(&mut out, 15);
            push_bytes_field(&mut out, path.as_slice());
            push_bytes_field(&mut out, data.as_slice());
        },
        Message::Response(r) => {
            push_varint(&mut out, 16);
            push_response(&mut out, r);
        },
        Message::Error(c) => {
            push_varint(&mut out, 17);
            let idx = code_index(*c);
            push_varint(&mut out, idx as u32);
        },
    }
    proof {
        assert(out@ =~= spec_payload(msg@));
    }
    out
}

// ---------------------------------------------------------------------
// Payload parsing (executable)
// ---------------------------------------------------------------------

/// Parse a varint of at most `max` bytes starting at index `i`.
fn parse_varint(p: &[u8], i: usize, max: usize) -> (r: Option<(u64, usize)>)
    requires
        i <= p@.len(),
        max <= 5,
    ensures
        match r {
            Some(t) => parse_varint_at(p@, i as int, max as nat) == Some((t.0 as nat, t.1 as int))
                && i < t.1 <= p@.len() && (t.0 as nat) < varint_cap(max as nat),
            None => parse_varint_at(p@, i as int, max as nat) is None,
        },
    decreases max,
{
    if max == 0 || i >= p.len() {
        None
    } else {
        let b = *slice_index_get(p, i);
        if b < 128 {
            proof {
                lemma_varint_cap_mono(1, max as nat);
                assert(varint_cap(1) == 128) by {
                    reveal_with_fuel(varint_cap, 2);
                }
            }
            Some((b as u64, i + 1))
        } else {
            match parse_varint(p, i + 1, max - 1) {
                None => None,
                Some((v, j)) => {
                    proof {
                        lemma_varint_cap_mono((max - 1) as nat, 4);
                        assert(varint_cap(4) == 0x10000000) by {
                            reveal_with_fuel(varint_cap, 5);
                        }
                    }
                    let value = (b - 128) as u64 + 128 * v;
                    proof {
                        assert(varint_cap(max as nat) == 128 * varint_cap((max - 1) as nat));
                        assert((value as nat) < varint_cap(max as nat));
                        assert(parse_varint_at(p@, i as int, max as nat) == Some(
                            (value as nat, j as int),
                        ));
                    }
                    Some((value, j))
                },
            }
        }
    }
}

/// Parse a varint holding at most a `u32` value.
fn parse_u32(p: &[u8], i: usize) -> (r: Option<(u32, usize)>)
    requires
        i <= p@.len(),
    ensures
        match r {
            Some(t) => parse_u32_at(p@, i as int) == Some((t.0 as nat, t.1 as int)) && i < t.1
                <= p@.len(),
            None => parse_u32_at(p@, i as int) is None,
        },
{
    match parse_varint(p, i, 5) {
        None => None,
        Some((v, j)) => if v <= 0xFFFF_FFFF {
            Some((v as u32, j))
        } else {
            None
        },
    }
}

/// Parse a varint holding at most a `u16` value.
fn parse_u16(p: &[u8], i: usize) -> (r: Option<(u16, usize)>)
    requires
        i <= p@.len(),
    ensures
        match r {
            Some(t) => parse_u16_at(p@, i as int) == Some((t.0 as nat, t.1 as int)) && i < t.1
                <= p@.len(),
            None => parse_u16_at(p@, i as int) is None,
        },
{
    match parse_varint(p, i, 3) {
        None => None,
        Some((v, j)) => if v <= 0xFFFF {
            Some((v as u16, j))
        } else {
            None
        },
    }
}

/// Parse one raw byte.
fn parse_u8(p: &[u8], i: usize) -> (r: Option<(u8, usize)>)
    requires
        i <= p@.len(),
    ensures
        match r {
            Some(t) => parse_u8_at(p@, i as int) == Some((t.0, t.1 as int)) && i < t.1
                <= p@.len(),
            None => parse_u8_at(p@, i as int) is None,
        },
{
    if i < p.len() {
        Some((*slice_index_get(p, i), i + 1))
    } else {
        None
    }
}

/// Parse a counted byte field into a bounded buffer.
fn parse_buf<const N: usize>(p: &[u8], i: usize) -> (r: Option<(ByteBuf<N>, usize)>)
    requires
        i <= p@.len(),
    ensures
        match r {
            Some(t) => parse_bytes_at(p@, i as int, N as nat) == Some((t.0@, t.1 as int)) && i
                < t.1 <= p@.len(),
            None => parse_bytes_at(p@, i as int, N as nat) is None,
        },
{
    match parse_u32(p, i) {
        None => None,
        Some((n, j)) => {
            let nn = n as usize;
            if nn > N || nn > p.len() - j {
                None
            } else {
                let s = slice_subrange(p, j, j + nn);
                match ByteBuf::<N>::from_slice(s) {
                    Some(b) => Some((b, j + nn)),
                    None => None,
                }
            }
        },
    }
}

/// Parse a bus mode ordinal.
fn parse_mode(p: &[u8], i: usize) -> (r: Option<(Mode, usize)>)
    requires
        i <= p@.len(),
    ensures
        match r {
            Some(t) => parse_mode_at(p@, i as int) == Some((t.0, t.1 as int)) && i < t.1
                <= p@.len(),
            None => parse_mode_at(p@, i as int) is None,
        },
{
    match parse_u32(p, i) {
        None => None,
        Some((v, j)) => {
            let m: Option<Mode> = match v {
                0 => Some(Mode::HiZ),
                1 => Some(Mode::I2c),
                2 => Some(Mode::Spi),
                3 => Some(Mode::Uart),
                4 => Some(Mode::OneWire),
                5 => Some(Mode::TwoWire),
                6 => Some(Mode::ThreeWire),
                7 => Some(Mode::Dio),
                8 => Some(Mode::Infrared),
                9 => Some(Mode::Usb),
                10 => Some(Mode::Bluetooth),
                11 => Some(Mode::Wifi),
                12 => Some(Mode::Ethernet),
                13 => Some(Mode::Jtag),
                14 => Some(Mode::Led),
                15 => Some(Mode::I2s),
                16 => Some(Mode::Can),
                17 => Some(Mode::SubGhz),
                18 => Some(Mode::Rfid),
                19 => Some(Mode::Rf24),
                _ => None,
            };
            match m {
                Some(mode) => Some((mode, j)),
                None => None,
            }
        },
    }
}

/// Parse an error code ordinal.
fn parse_code(p: &[u8], i: usize) -> (r: Option<(ErrorCode, usize)>)
    requires
        i <= p@.len(),
    ensures
        match r {
            Some(t) => parse_code_at(p@, i as int) == Some((t.0, t.1 as int)) && i < t.1
                <= p@.len(),
            None => parse_code_at(p@, i as int) is None,
        },
{
    match parse_u32(p, i) {
        None => None,
        Some((v, j)) => {
            let c: Option<ErrorCode> = match v {
                0 => Some(ErrorCode::InvalidCommand),
                1 => Some(ErrorCode::ProtocolError),
                2 => Some(ErrorCode::BusError),
                3 => Some(ErrorCode::FileNotFound),
                4 => Some(ErrorCode::PermissionDenied),
                5 => Some(ErrorCode::Timeout),
                6 => Some(ErrorCode::NotConfigured),
                7 => Some(ErrorCode::InvalidParameter),
                _ => None,
            };
            match c {
                Some(code) => Some((code, j)),
                None => None,
            }
        },
    }
}

/// Parse `count` name fields.
fn parse_names(p: &[u8], i: usize, count: usize) -> (r: Option<(Vec<ByteBuf<64>>, usize)>)
    requires
        i <= p@.len(),
        count <= 32,
    ensures
        match r {
            Some(t) => parse_names_at(p@, i as int, count as nat) == Some(
                (t.0@.map_values(|b: ByteBuf<64>| b@), t.1 as int),
            ) && i <= t.1 <= p@.len() && t.0@.len() == count,
            None => parse_names_at(p@, i as int, count as nat) is None,
        },
    decreases count,
{
    if count == 0 {
        let r: Vec<ByteBuf<64>> = Vec::new();
        proof {
            assert(r@.map_values(|b: ByteBuf<64>| b@) =~= Seq::<Seq<u8>>::empty());
        }
        Some((r, i))
    } else {
        match parse_buf::<64>(p, i) {
            None => None,
            Some((name, j)) => match parse_names(p, j, count - 1) {
                None => None,
                Some((rest, k)) => {
                    let ghost rest_names = rest@.map_values(|b: ByteBuf<64>| b@);
                    let mut list = rest;
                    list.insert(0, name);
                    proof {
                        assert(list@.map_values(|b: ByteBuf<64>| b@) =~= seq![name@]
                            + rest_names);
                    }
                    Some((list, k))
                },
            },
        }
    }
}

/// Parse a response: ordinal, then fields.
fn parse_response(p: &[u8], i: usize) -> (r: Option<(Response, usize)>)
    requires
        i <= p@.len(),
    ensures
        match r {
            Some(t) => parse_response_at(p@, i as int) == Some((t.0@, t.1 as int)) && i < t.1
                <= p@.len(),
            None => parse_response_at(p@, i as int) is None,
        },
{
    match parse_u32(p, i) {
        None => None,
        Some((tag, j)) => match tag {
            0 => Some((Response::Success, j)),
            1 => match parse_buf::<512>(p, j) {
                None => None,
                Some((d, k)) => Some((Response::Data(d), k)),
            },
            2 => match parse_buf::<128>(p, j) {
                None => None,
                Some((d, k)) => Some((Response::I2cDevices(d), k)),
            },
            3 => match parse_mode(p, j) {
                None => None,
                Some((m, k)) => Some((Response::CurrentMode(m), k)),
            },
            4 => match parse_buf::<64>(p, j) {
                None => None,
                Some((v, k)) => Some((Response::ConfigValue(v), k)),
            },
            5 => match parse_u32(p, j) {
                None => None,
                Some((count, k)) => if count > 32 {
                    None
                } else {
                    match parse_names(p, k, count as usize) {
                        None => None,
                        Some((list, l)) => match FileNames::from_vec(list) {
                            Some(names) => Some((Response::FileList(names), l)),
                            None => None,
                        },
                    }
                },
            },
            _ => None,
        },
    }
}

/// Parse the fields of the message variant with ordinal `tag`.
fn parse_message_body(p: &[u8], tag: u32, i: usize) -> (r: Option<(Message, usize)>)
    requires
        i <= p@.len(),
    ensures
        match r {
            Some(t) => parse_message_body_at(p@, tag as nat, i as int) == Some(
                (t.0@, t.1 as int),
            ) && i <= t.1 <= p@.len(),
            None => parse_message_body_at(p@, tag as nat, i as int) is None,
        },
{
    match tag {
        0 => match parse_mode(p, i) {
            None => None,
            Some((mode, j)) => Some((Message::SetMode { mode }, j)),
        },
        1 => Some((Message::GetMode, i)),
        2 => Some((Message::I2cScan, i)),
        3 => match parse_u8(p, i) {
            None => None,
            Some((addr, j)) => match parse_buf::<256>(p, j) {
                None => None,
                Some((data, k)) => Some((Message::I2cWrite { addr, data }, k)),
            },
        },
        4 => match parse_u8(p, i) {
            None => None,
            Some((addr, j)) => match parse_u8(p, j) {
                None => None,
                Some((len, k)) => Some((Message::I2cRead { addr, len }, k)),
            },
        },
        5 => match parse_u8(p, i) {
            None => None,
            Some((addr, j)) => match parse_u8(p, j) {
                None => None,
                Some((reg, k)) => Some((Message::I2cReadRegister { addr, reg }, k)),
            },
        },
        6 => match parse_u8(p, i) {
            None => None,
            Some((addr, j)) => match parse_u8(p, j) {
                None => None,
                Some((reg, k)) => match parse_u8(p, k) {
                    None => None,
                    Some((value, l)) => Some((Message::I2cWriteRegister { addr, reg, value }, l)),
                },
            },
        },
        7 => match parse_buf::<256>(p, i) {
            None => None,
            Some((data, j)) => Some((Message::SpiTransfer { data }, j)),
        },
        8 => match parse_buf::<256>(p, i) {
            None => None,
            Some((data, j)) => Some((Message::UartWrite { data }, j)),
        },
        9 => match parse_u16(p, i) {
            None => None,
            Some((len, j)) => Some((Message::UartRead { len }, j)),
        },
        10 => match parse_u32(p, i) {
            None => None,
            Some((baudrate, j)) => Some((Message::UartConfig { baudrate }, j)),
        },
        11 => match parse_buf::<32>(p, i) {
            None => None,
            Some((key, j)) => match parse_buf::<64>(p, j) {
                None => None,
                Some((value, k)) => Some((Message::SetConfig { key, value }, k)),
            },
        },
        12 => match parse_buf::<32>(p, i) {
            None => None,
            Some((key, j)) => Some((Message::GetConfig { key }, j)),
        },
        13 => match parse_buf::<128>(p, i) {
            None => None,
            Some((path, j)) => Some((Message::FileList { path }, j)),
        },
        14 => match parse_buf::<128>(p, i) {
            None => None,
            Some((path, j)) => Some((Message::FileRead { path }, j)),
        },
        15 => match parse_buf::<128>(p, i) {
            None => None,
            Some((path, j)) => match parse_buf::<512>(p, j) {
                None => None,
                Some((data, k)) => Some((Message::FileWrite { path, data }, k)),
            },
        },
        16 => match parse_response(p, i) {
            None => None,
            Some((resp, j)) => Some((Message::Response(resp), j)),
        },
        17 => match parse_code(p, i) {
            None => None,
            Some((c, j)) => Some((Message::Error(c), j)),
        },
        _ => None,
    }
}

/// Parse a complete payload into a message.
///
/// Succeeds exactly when the bytes are the full encoding of some
/// constructible message, and then returns that message.
pub fn parse_message(p: &[u8]) -> (r: Option<Message>)
    ensures
        match r {
            Some(m) => spec_parse_message(p@) == Some(m@),
            None => spec_parse_message(p@) is None,
        },
{
    match parse_u32(p, 0) {
        None => None,
        Some((tag, i)) => match parse_message_body(p, tag, i) {
            None => None,
            Some((m, j)) => if j == p.len() {
                Some(m)
            } else {
                None
            },
        },
    }
}

} // verus!
