//! Message encoding and decoding with CRC validation.
//!
//! Frame format:
//!
//! ```text
//! START (0xAA) | VERSION (1 byte) | LENGTH (2 bytes LE) | PAYLOAD | CRC16 (2 bytes LE) | END (0x55)
//! ```
//!
//! The checksum is CRC-16/ISO-HDLC over VERSION, LENGTH and PAYLOAD;
//! START and END are excluded.  Decoding checks, in order: minimum
//! length, the frame markers, the version byte (before the CRC, by
//! design), the declared length against the bytes available, the CRC,
//! and finally the payload shape.  The codec is stateless: each call
//! depends on its input alone.

use vstd::prelude::*;
use vstd::slice::{slice_index_get, slice_subrange};
use crate::{Error, END_BYTE, MAX_MESSAGE_SIZE, START_BYTE};
use crate::message::{wf_message, Message, MessageView};
use crate::version::PROTOCOL_VERSION;
use crate::wire::{encode_payload, parse_message, push_bytes, spec_parse_message, spec_payload};

verus! {

/// What the CRC-16/ISO-HDLC (CRC-16/X-25) checksum of a byte sequence
/// is: polynomial 0x1021 reflected, init 0xFFFF, xorout 0xFFFF.
pub uninterp spec fn crc16_of(data: Seq<u8>) -> u16;

/// Relies on crc::Crc::<u16>::checksum with the CRC_16_IBM_SDLC
/// algorithm from the crc catalog: the checksum is a pure function of
/// the input bytes.
#[verifier::external_body]
fn crc16(data: &[u8]) -> (r: u16)
    ensures
        r == crc16_of(data@),
{
    crc::Crc::<u16>::new(&crc::CRC_16_IBM_SDLC).checksum(data)
}

/// Two-byte little-endian rendering of a value below 2^16.
pub open spec fn spec_le16(n: nat) -> Seq<u8> {
    seq![(n % 256) as u8, ((n / 256) % 256) as u8]
}

/// The region of a frame that the checksum covers: VERSION, LENGTH and
/// the payload.
pub open spec fn spec_crc_region(payload: Seq<u8>) -> Seq<u8> {
    seq![PROTOCOL_VERSION] + spec_le16(payload.len()) + payload
}

/// The complete frame wrapped around `payload`.
pub open spec fn spec_frame_bytes(payload: Seq<u8>) -> Seq<u8> {
    seq![START_BYTE] + spec_crc_region(payload) + spec_le16(
        crc16_of(spec_crc_region(payload)) as nat,
    ) + seq![END_BYTE]
}

/// The frame that encodes message `m`.
pub open spec fn spec_encode_frame(m: MessageView) -> Seq<u8> {
    spec_frame_bytes(spec_payload(m))
}

/// What decoding yields on any byte sequence, check by check, failing
/// fast on the first violated one.
pub open spec fn spec_decode_frame(f: Seq<u8>) -> Result<MessageView, Error> {
    if f.len() < 7 {
        Err(Error::FrameTooShort)
    } else if f[0] != START_BYTE || f[f.len() - 1] != END_BYTE {
        Err(Error::InvalidFrame)
    } else if f[1] != PROTOCOL_VERSION {
        Err(Error::UnsupportedVersion)
    } else {
        let len = f[2] + 256 * f[3];
        if f.len() < len + 7 {
            Err(Error::FrameTooShort)
        } else {
            let stored = f[4 + len] + 256 * f[5 + len];
            if stored != crc16_of(f.subrange(1, 4 + len)) {
                Err(Error::CrcMismatch)
            } else {
                match spec_parse_message(f.subrange(4, 4 + len)) {
                    Some(m) => Ok(m),
                    None => Err(Error::DecodingFailed),
                }
            }
        }
    }
}

/// Message codec for encoding and decoding protocol messages.
pub struct MessageCodec;

impl MessageCodec {
    /// Encode a message into a framed byte stream.
    ///
    /// Succeeds, with exactly the frame bytes [`spec_encode_frame`]
    /// describes, whenever the payload leaves room for the 7 framing
    /// bytes within the maximum frame size; the result never exceeds
    /// that size.  Larger values fail without partial output.
    pub fn encode(msg: &Message) -> (r: Result<Vec<u8>, Error>)
        ensures
            wf_message(msg@),
            match r {
                Ok(f) => spec_payload(msg@).len() <= MAX_MESSAGE_SIZE - 7 && f@
                    == spec_encode_frame(msg@) && f@.len() == spec_payload(msg@).len() + 7,
                Err(e) => (e == Error::BufferFull && MAX_MESSAGE_SIZE - 7 < spec_payload(
                    msg@,
                ).len() <= MAX_MESSAGE_SIZE) || (e == Error::EncodingFailed && spec_payload(
                    msg@,
                ).len() > MAX_MESSAGE_SIZE),
            },
    {
        let payload = encode_payload(msg);
        if payload.len() > MAX_MESSAGE_SIZE {
            return Err(Error::EncodingFailed);
        }
        if payload.len() > MAX_MESSAGE_SIZE - 7 {
            return Err(Error::BufferFull);
        }
        let len = payload.len() as u16;
        let mut frame: Vec<u8> = Vec::new();
        frame.push(START_BYTE);
        frame.push(PROTOCOL_VERSION);
        frame.push((len % 256) as u8);
        frame.push((len / 256) as u8);
        push_bytes(&mut frame, payload.as_slice());
        let crc_data = slice_subrange(frame.as_slice(), 1, frame.len());
        proof {
            assert(crc_data@ =~= spec_crc_region(payload@));
        }
        let crc = crc16(crc_data);
        frame.push((crc % 256) as u8);
        frame.push((crc / 256) as u8);
        frame.push(END_BYTE);
        proof {
            assert(frame@ =~= spec_encode_frame(msg@));
        }
        Ok(frame)
    }

    /// Decode a framed byte stream into a message.
    ///
    /// The result is exactly what [`spec_decode_frame`] yields on the
    /// input bytes: the decoded value on a well-formed frame, and the
    /// error of the first violated check otherwise.
    pub fn decode(frame: &[u8]) -> (r: Result<Message, Error>)
        ensures
            match r {
                Ok(m) => spec_decode_frame(frame@) == Ok::<MessageView, Error>(m@),
                Err(e) => spec_decode_frame(frame@) == Err::<MessageView, Error>(e),
            },
    {
        let n = frame.len();
        if n < 7 {
            return Err(Error::FrameTooShort);
        }
        if *slice_index_get(frame, 0) != START_BYTE || *slice_index_get(frame, n - 1)
            != END_BYTE {
            return Err(Error::InvalidFrame);
        }
        if *slice_index_get(frame, 1) != PROTOCOL_VERSION {
            return Err(Error::UnsupportedVersion);
        }
        let len: usize = *slice_index_get(frame, 2) as usize + 256 * (*slice_index_get(frame, 3)
            as usize);
        if n < len + 7 {
            return Err(Error::FrameTooShort);
        }
        let stored: u16 = *slice_index_get(frame, 4 + len) as u16 + 256 * (*slice_index_get(
            frame,
            5 + len,
        ) as u16);
        let crc_data = slice_subrange(frame, 1, 4 + len);
        let computed = crc16(crc_data);
        if stored != computed {
            return Err(Error::CrcMismatch);
        }
        let payload = slice_subrange(frame, 4, 4 + len);
        match parse_message(payload) {
            Some(m) => Ok(m),
            None => Err(Error::DecodingFailed),
        }
    }
}

} // verus!
