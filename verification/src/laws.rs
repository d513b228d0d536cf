//! The guarantees the codec gives, stated and proved over its
//! specification functions: the round-trip law, determinism, the frame
//! size identity, the order of decode checks, and truncation safety.

use vstd::prelude::*;
use crate::{Error, END_BYTE, MAX_MESSAGE_SIZE, START_BYTE};
use crate::codec::{crc16_of, spec_decode_frame, spec_encode_frame, spec_frame_bytes, spec_le16,
    spec_crc_region};
use crate::message::{wf_message, wf_response, MessageView, ResponseView};
use crate::version::PROTOCOL_VERSION;
use crate::wire::{code_from_tag, code_tag, lemma_parse_varint_of_encoding, lemma_varint_len,
    lemma_varint_len_le, message_tag, mode_from_tag, mode_tag, parse_bytes_at, parse_code_at,
    parse_mode_at, parse_names_at, parse_response_at, parse_u16_at, parse_u32_at, response_tag,
    spec_bytes_field, spec_name_list, spec_parse_message, spec_payload, spec_response_fields,
    spec_varint, varint_cap, varint_len};

verus! {

/// Values below 2^35 fit in five varint bytes.
proof fn lemma_varint_len_le5(n: nat)
    requires
        n <= 0xFFFF_FFFF,
    ensures
        varint_len(n) <= 5,
{
    assert(varint_cap(5) == 0x8_0000_0000) by {
        reveal_with_fuel(varint_cap, 6);
    }
    lemma_varint_len_le(n, 5);
}

/// Values below 2^16 fit in three varint bytes.
proof fn lemma_varint_len_le3(n: nat)
    requires
        n <= 0xFFFF,
    ensures
        varint_len(n) <= 3,
{
    assert(varint_cap(3) == 0x20_0000) by {
        reveal_with_fuel(varint_cap, 4);
    }
    lemma_varint_len_le(n, 3);
}

/// Parsing a `u32` varint at the start of its own encoding yields the
/// value back.
proof fn lemma_parse_u32_of_encoding(p: Seq<u8>, i: int, n: nat)
    requires
        0 <= i,
        n <= 0xFFFF_FFFF,
        i + varint_len(n) <= p.len(),
        p.subrange(i, i + varint_len(n)) == spec_varint(n),
    ensures
        parse_u32_at(p, i) == Some((n, i + varint_len(n))),
{
    lemma_varint_len_le5(n);
    lemma_parse_varint_of_encoding(p, i, n, 5);
}

/// Parsing a `u16` varint at the start of its own encoding yields the
/// value back.
proof fn lemma_parse_u16_of_encoding(p: Seq<u8>, i: int, n: nat)
    requires
        0 <= i,
        n <= 0xFFFF,
        i + varint_len(n) <= p.len(),
        p.subrange(i, i + varint_len(n)) == spec_varint(n),
    ensures
        parse_u16_at(p, i) == Some((n, i + varint_len(n))),
{
    lemma_varint_len_le3(n);
    lemma_parse_varint_of_encoding(p, i, n, 3);
}

/// Parsing a counted byte field at the start of its own encoding yields
/// the bytes back.
proof fn lemma_parse_bytes_of_encoding(p: Seq<u8>, i: int, b: Seq<u8>, cap: nat)
    requires
        0 <= i,
        b.len() <= cap,
        cap <= 0xFFFF_FFFF,
        i + spec_bytes_field(b).len() <= p.len(),
        p.subrange(i, i + spec_bytes_field(b).len()) == spec_bytes_field(b),
    ensures
        parse_bytes_at(p, i, cap) == Some((b, i + spec_bytes_field(b).len())),
{
    let n = b.len();
    let vl = varint_len(n);
    lemma_varint_len(n);
    let field = spec_bytes_field(b);
    assert(field.len() == vl + n);
    assert(p.subrange(i, i + vl) =~= spec_varint(n)) by {
        assert(forall|k: int|
            0 <= k < vl ==> #[trigger] p.subrange(i, i + vl)[k] == p.subrange(
                i,
                i + field.len() as int,
            )[k]);
    }
    lemma_parse_u32_of_encoding(p, i, n);
    assert(p.subrange(i + vl, i + vl + n) =~= b) by {
        assert(forall|k: int|
            0 <= k < n ==> #[trigger] p.subrange(i + vl, i + vl + n)[k] == p.subrange(
                i,
                i + field.len() as int,
            )[k + vl]);
    }
}

/// Parsing a name list at the start of its own encoding yields the
/// names back.
proof fn lemma_parse_names_of_encoding(p: Seq<u8>, i: int, names: Seq<Seq<u8>>)
    requires
        0 <= i,
        forall|k: int| 0 <= k < names.len() ==> #[trigger] names[k].len() <= 64,
        i + spec_name_list(names).len() <= p.len(),
        p.subrange(i, i + spec_name_list(names).len()) == spec_name_list(names),
    ensures
        parse_names_at(p, i, names.len()) == Some((names, i + spec_name_list(names).len())),
    decreases names.len(),
{
    if names.len() == 0 {
        assert(parse_names_at(p, i, 0) == Some((Seq::<Seq<u8>>::empty(), i)));
        assert(names =~= Seq::<Seq<u8>>::empty());
    } else {
        let head = names[0];
        let field = spec_bytes_field(head);
        let rest = names.skip(1);
        let list = spec_name_list(names);
        assert(list == field + spec_name_list(rest));
        assert(p.subrange(i, i + field.len() as int) =~= field) by {
            assert(forall|k: int|
                0 <= k < field.len() ==> #[trigger] p.subrange(i, i + field.len() as int)[k]
                    == p.subrange(i, i + list.len() as int)[k]);
        }
        lemma_parse_bytes_of_encoding(p, i, head, 64);
        let j = i + field.len() as int;
        assert(p.subrange(j, j + spec_name_list(rest).len() as int) =~= spec_name_list(rest))
            by {
            assert(forall|k: int|
                0 <= k < spec_name_list(rest).len() ==> #[trigger] p.subrange(
                    j,
                    j + spec_name_list(rest).len() as int,
                )[k] == p.subrange(i, i + list.len() as int)[k + field.len()]);
        }
        assert(forall|k: int| 0 <= k < rest.len() ==> #[trigger] rest[k].len() <= 64);
        lemma_parse_names_of_encoding(p, j, rest);
        assert(seq![head] + rest =~= names);
    }
}

/// Variant ordinals are below 128, so they encode in a single byte.
proof fn lemma_small_varint(n: nat)
    requires
        n < 128,
    ensures
        varint_len(n) == 1,
        spec_varint(n) == seq![n as u8],
{
}

/// Parsing a mode ordinal at the start of its own encoding yields the
/// mode back.
proof fn lemma_parse_mode_of_encoding(p: Seq<u8>, i: int, m: crate::message::Mode)
    requires
        0 <= i,
        i + 1 <= p.len(),
        p.subrange(i, i + 1) == spec_varint(mode_tag(m)),
    ensures
        parse_mode_at(p, i) == Some((m, i + 1)),
{
    lemma_small_varint(mode_tag(m));
    lemma_parse_u32_of_encoding(p, i, mode_tag(m));
    assert(mode_from_tag(mode_tag(m)) == Some(m));
}

/// Parsing an error-code ordinal at the start of its own encoding
/// yields the code back.
proof fn lemma_parse_code_of_encoding(p: Seq<u8>, i: int, c: crate::message::ErrorCode)
    requires
        0 <= i,
        i + 1 <= p.len(),
        p.subrange(i, i + 1) == spec_varint(code_tag(c)),
    ensures
        parse_code_at(p, i) == Some((c, i + 1)),
{
    lemma_small_varint(code_tag(c));
    lemma_parse_u32_of_encoding(p, i, code_tag(c));
    assert(code_from_tag(code_tag(c)) == Some(c));
}

/// Parsing a response encoding that ends the payload yields the
/// response back and consumes everything.
proof fn lemma_parse_response_of_encoding(p: Seq<u8>, prefix: Seq<u8>, r: ResponseView)
    requires
        wf_response(r),
        p == prefix + spec_varint(response_tag(r)) + spec_response_fields(r),
    ensures
        parse_response_at(p, prefix.len() as int) == Some((r, p.len() as int)),
{
    let i = prefix.len() as int;
    let rtag = response_tag(r);
    lemma_small_varint(rtag);
    assert(p.subrange(i, i + 1) =~= spec_varint(rtag));
    lemma_parse_u32_of_encoding(p, i, rtag);
    let j = i + 1;
    match r {
        ResponseView::Success => {
            assert(spec_response_fields(r).len() == 0);
        },
        ResponseView::Data(d) => {
            assert(p.subrange(j, j + spec_bytes_field(d).len() as int) =~= spec_bytes_field(d));
            lemma_parse_bytes_of_encoding(p, j, d, 512);
        },
        ResponseView::I2cDevices(d) => {
            assert(p.subrange(j, j + spec_bytes_field(d).len() as int) =~= spec_bytes_field(d));
            lemma_parse_bytes_of_encoding(p, j, d, 128);
        },
        ResponseView::CurrentMode(m) => {
            lemma_small_varint(mode_tag(m));
            assert(p.subrange(j, j + 1) =~= spec_varint(mode_tag(m)));
            lemma_parse_mode_of_encoding(p, j, m);
        },
        ResponseView::ConfigValue(v) => {
            assert(p.subrange(j, j + spec_bytes_field(v).len() as int) =~= spec_bytes_field(v));
            lemma_parse_bytes_of_encoding(p, j, v, 64);
        },
        ResponseView::FileList(names) => {
            let count = names.len();
            lemma_small_varint(count);
            assert(p.subrange(j, j + 1) =~= spec_varint(count));
            lemma_parse_u32_of_encoding(p, j, count);
            let k = j + 1;
            assert(p.subrange(k, k + spec_name_list(names).len() as int) =~= spec_name_list(
                names,
            ));
            lemma_parse_names_of_encoding(p, k, names);
        },
    }
}

/// Round trip at the payload level: parsing the encoding of any
/// well-formed message yields exactly the message back.
pub proof fn lemma_parse_payload_of_encoding(m: MessageView)
    requires
        wf_message(m),
    ensures
        spec_parse_message(spec_payload(m)) == Some(m),
{
    let p = spec_payload(m);
    let tag = message_tag(m);
    lemma_small_varint(tag);
    assert(p.subrange(0, 1) =~= spec_varint(tag));
    lemma_parse_u32_of_encoding(p, 0, tag);
    match m {
        MessageView::SetMode { mode } => {
            lemma_small_varint(mode_tag(mode));
            assert(p.subrange(1, 2) =~= spec_varint(mode_tag(mode)));
            lemma_parse_mode_of_encoding(p, 1, mode);
        },
        MessageView::GetMode => {},
        MessageView::I2cScan => {},
        MessageView::I2cWrite { addr, data } => {
            assert(p[1] == addr);
            assert(p.subrange(2, 2 + spec_bytes_field(data).len() as int) =~= spec_bytes_field(
                data,
            ));
            lemma_parse_bytes_of_encoding(p, 2, data, 256);
        },
        MessageView::I2cRead { addr, len } => {
            assert(p[1] == addr);
            assert(p[2] == len);
        },
        MessageView::I2cReadRegister { addr, reg } => {
            assert(p[1] == addr);
            assert(p[2] == reg);
        },
        MessageView::I2cWriteRegister { addr, reg, value } => {
            assert(p[1] == addr);
            assert(p[2] == reg);
            assert(p[3] == value);
        },
        MessageView::SpiTransfer { data } => {
            assert(p.subrange(1, 1 + spec_bytes_field(data).len() as int) =~= spec_bytes_field(
                data,
            ));
            lemma_parse_bytes_of_encoding(p, 1, data, 256);
        },
        MessageView::UartWrite { data } => {
            assert(p.subrange(1, 1 + spec_bytes_field(data).len() as int) =~= spec_bytes_field(
                data,
            ));
            lemma_parse_bytes_of_encoding(p, 1, data, 256);
        },
        MessageView::UartRead { len } => {
            lemma_varint_len(len as nat);
            assert(p.subrange(1, 1 + varint_len(len as nat) as int) =~= spec_varint(
                len as nat,
            ));
            lemma_parse_u16_of_encoding(p, 1, len as nat);
        },
        MessageView::UartConfig { baudrate } => {
            lemma_varint_len(baudrate as nat);
            assert(p.subrange(1, 1 + varint_len(baudrate as nat) as int) =~= spec_varint(
                baudrate as nat,
            ));
            lemma_parse_u32_of_encoding(p, 1, baudrate as nat);
        },
        MessageView::SetConfig { key, value } => {
            let f1 = spec_bytes_field(key);
            let f2 = spec_bytes_field(value);
            assert(p.subrange(1, 1 + f1.len() as int) =~= f1);
            lemma_parse_bytes_of_encoding(p, 1, key, 32);
            assert(p.subrange(1 + f1.len() as int, 1 + f1.len() as int + f2.len() as int) =~= f2);
            lemma_parse_bytes_of_encoding(p, 1 + f1.len() as int, value, 64);
        },
        MessageView::GetConfig { key } => {
            assert(p.subrange(1, 1 + spec_bytes_field(key).len() as int) =~= spec_bytes_field(
                key,
            ));
            lemma_parse_bytes_of_encoding(p, 1, key, 32);
        },
        MessageView::FileList { path } => {
            assert(p.subrange(1, 1 + spec_bytes_field(path).len() as int) =~= spec_bytes_field(
                path,
            ));
            lemma_parse_bytes_of_encoding(p, 1, path, 128);
        },
        MessageView::FileRead { path } => {
            assert(p.subrange(1, 1 + spec_bytes_field(path).len() as int) =~= spec_bytes_field(
                path,
            ));
            lemma_parse_bytes_of_encoding(p, 1, path, 128);
        },
        MessageView::FileWrite { path, data } => {
            let f1 = spec_bytes_field(path);
            let f2 = spec_bytes_field(data);
            assert(p.subrange(1, 1 + f1.len() as int) =~= f1);
            lemma_parse_bytes_of_encoding(p, 1, path, 128);
            assert(p.subrange(1 + f1.len() as int, 1 + f1.len() as int + f2.len() as int) =~= f2);
            lemma_parse_bytes_of_encoding(p, 1 + f1.len() as int, data, 512);
        },
        MessageView::Response(r) => {
            assert(p =~= seq![16u8] + spec_varint(response_tag(r)) + spec_response_fields(r));
            lemma_parse_response_of_encoding(p, seq![16u8], r);
        },
        MessageView::Error(c) => {
            lemma_small_varint(code_tag(c));
            assert(p.subrange(1, 2) =~= spec_varint(code_tag(c)));
            lemma_parse_code_of_encoding(p, 1, c);
        },
    }
}

/// Two little-endian bytes of a value below 2^16 recombine to it.
proof fn lemma_le16_value(n: nat)
    requires
        n < 0x1_0000,
    ensures
        spec_le16(n)[0] + 256 * spec_le16(n)[1] == n,
{
    vstd::arithmetic::div_mod::lemma_fundamental_div_mod(n as int, 256);
    vstd::arithmetic::div_mod::lemma_small_mod(n / 256, 256);
}

/// Where each piece of a frame stands in its bytes.
proof fn lemma_frame_structure(p: Seq<u8>)
    requires
        p.len() <= MAX_MESSAGE_SIZE - 7,
    ensures
        spec_frame_bytes(p).len() == p.len() + 7,
        spec_frame_bytes(p)[0] == START_BYTE,
        spec_frame_bytes(p)[1] == PROTOCOL_VERSION,
        spec_frame_bytes(p)[2] + 256 * spec_frame_bytes(p)[3] == p.len(),
        spec_frame_bytes(p)[p.len() as int + 6] == END_BYTE,
        spec_frame_bytes(p).subrange(1, 4 + p.len() as int) == spec_crc_region(p),
        spec_frame_bytes(p).subrange(4, 4 + p.len() as int) == p,
        spec_frame_bytes(p)[4 + p.len() as int] + 256 * spec_frame_bytes(p)[5 + p.len() as int]
            == crc16_of(spec_crc_region(p)),
{
    let f = spec_frame_bytes(p);
    let region = spec_crc_region(p);
    let crc = crc16_of(region);
    assert(region.len() == p.len() + 3);
    assert(f[2] == spec_le16(p.len())[0]);
    assert(f[3] == spec_le16(p.len())[1]);
    lemma_le16_value(p.len());
    assert(f.subrange(1, 4 + p.len() as int) =~= region);
    assert(f.subrange(4, 4 + p.len() as int) =~= p);
    assert(f[4 + p.len() as int] == spec_le16(crc as nat)[0]);
    assert(f[5 + p.len() as int] == spec_le16(crc as nat)[1]);
    lemma_le16_value(crc as nat);
}

/// Round-trip law: decoding the frame that encodes a constructible
/// value yields the value back.  (The one family of values this leaves
/// out is those whose payload exceeds the frame capacity — a full file
/// list of 32 names of 64 bytes — which do not encode at all.)
pub proof fn lemma_round_trip(m: MessageView)
    requires
        wf_message(m),
        spec_payload(m).len() <= MAX_MESSAGE_SIZE - 7,
    ensures
        spec_decode_frame(spec_encode_frame(m)) == Ok::<MessageView, Error>(m),
{
    let p = spec_payload(m);
    let f = spec_encode_frame(m);
    lemma_frame_structure(p);
    assert(f[f.len() - 1] == END_BYTE);
    lemma_parse_payload_of_encoding(m);
}

/// Determinism: the encoded frame is a function of the value alone, so
/// encoding equal values always yields byte-identical frames.
pub proof fn lemma_encode_deterministic(m1: MessageView, m2: MessageView)
    requires
        m1 == m2,
    ensures
        spec_encode_frame(m1) == spec_encode_frame(m2),
{
}

/// Minimum frame size: a frame holds exactly seven bytes besides its
/// payload — START, VERSION, two length bytes, two CRC bytes and END —
/// so an empty payload gives the 7-byte minimum frame.
pub proof fn lemma_frame_size(payload: Seq<u8>)
    ensures
        spec_frame_bytes(payload).len() == payload.len() + 7,
        spec_frame_bytes(Seq::<u8>::empty()).len() == 7,
{
}

/// The version byte is checked before the CRC: any frame of enough
/// length, with intact markers and a foreign version byte, is reported
/// as a version mismatch — never as a CRC mismatch, even though its CRC
/// no longer matches either.
pub proof fn lemma_version_before_crc(f: Seq<u8>)
    requires
        f.len() >= 7,
        f[0] == START_BYTE,
        f[f.len() - 1] == END_BYTE,
        f[1] != PROTOCOL_VERSION,
    ensures
        spec_decode_frame(f) == Err::<MessageView, Error>(Error::UnsupportedVersion),
{
}

/// The version gate: no frame decodes unless its version byte equals
/// the codec's own compiled-in version — any mismatch is fatal to that
/// frame.
pub proof fn lemma_version_gate(f: Seq<u8>)
    ensures
        spec_decode_frame(f) is Ok ==> f[1] == PROTOCOL_VERSION,
{
}

/// Recoverability: decoding is a pure function of the frame bytes, so
/// what one call returns cannot be affected by any earlier success or
/// failure.
pub proof fn lemma_decode_independent(f1: Seq<u8>, f2: Seq<u8>)
    requires
        f1 == f2,
    ensures
        spec_decode_frame(f1) == spec_decode_frame(f2),
{
}

/// Truncation safety: a strict prefix of a valid frame never decodes.
/// A prefix shorter than the 7-byte minimum is reported as
/// FrameTooShort; so is a longer prefix whose last byte happens to
/// equal the END marker (the declared length then exceeds the bytes
/// available); any other prefix fails the marker check first.
pub proof fn lemma_truncation_safety(m: MessageView, k: int)
    requires
        wf_message(m),
        spec_payload(m).len() <= MAX_MESSAGE_SIZE - 7,
        0 <= k < spec_encode_frame(m).len(),
    ensures
        spec_decode_frame(spec_encode_frame(m).take(k)) is Err,
        k < 7 ==> spec_decode_frame(spec_encode_frame(m).take(k)) == Err::<MessageView, Error>(
            Error::FrameTooShort,
        ),
        k >= 7 && spec_encode_frame(m).take(k).last() == END_BYTE ==> spec_decode_frame(
            spec_encode_frame(m).take(k),
        ) == Err::<MessageView, Error>(Error::FrameTooShort),
{
    let p = spec_payload(m);
    let f = spec_encode_frame(m);
    let t = f.take(k);
    lemma_frame_structure(p);
    if k >= 7 {
        assert(t[0] == f[0]);
        assert(t[1] == f[1]);
        assert(t[2] == f[2]);
        assert(t[3] == f[3]);
        assert(t[2] + 256 * t[3] == p.len());
        assert(t.len() < p.len() + 7);
    }
}

} // verus!
