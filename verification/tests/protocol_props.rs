//! Property-style scenarios for the codec: CRC sensitivity, recovery
//! after corruption, capacity enforcement, and the encoder's failure
//! modes.

use bus_pirate::message::{ByteBuf, FileNames};
use bus_pirate::version::is_compatible;
use bus_pirate::{Error, Message, MessageCodec, Mode, Response, PROTOCOL_VERSION};

/// Build a frame by hand around the given payload, with a correct CRC.
fn hand_made_frame(payload: &[u8]) -> Vec<u8> {
    let mut frame = vec![0xAAu8, 0x01];
    frame.push((payload.len() % 256) as u8);
    frame.push((payload.len() / 256) as u8);
    frame.extend_from_slice(payload);
    let crc = crc::Crc::<u16>::new(&crc::CRC_16_IBM_SDLC).checksum(&frame[1..]);
    frame.push((crc % 256) as u8);
    frame.push((crc / 256) as u8);
    frame.push(0x55);
    frame
}

#[test]
fn test_single_bit_flips_in_payload_detected() {
    let data = ByteBuf::from_slice(&[0x12, 0x34, 0x56]).unwrap();
    let msg = Message::I2cWrite { addr: 0x50, data };
    let frame = MessageCodec::encode(&msg).unwrap();
    let payload_len = frame.len() - 7;
    for i in 0..payload_len {
        for bit in 0..8 {
            let mut corrupted = frame.clone();
            corrupted[4 + i] ^= 1u8 << bit;
            let result = MessageCodec::decode(&corrupted);
            assert!(
                matches!(result, Err(Error::CrcMismatch)),
                "flip of bit {} in payload byte {} went undetected",
                bit,
                i
            );
        }
    }
}

#[test]
fn test_corruption_then_recovery() {
    let msg = Message::I2cScan;
    let frame = MessageCodec::encode(&msg).unwrap();
    let decoded = MessageCodec::decode(&frame).unwrap();
    assert_eq!(decoded, Message::I2cScan);

    let mut corrupted = frame.clone();
    corrupted[4] ^= 0x01;
    assert!(matches!(
        MessageCodec::decode(&corrupted),
        Err(Error::CrcMismatch)
    ));

    let msg2 = Message::SetMode { mode: Mode::Spi };
    let frame2 = MessageCodec::encode(&msg2).unwrap();
    let decoded2 = MessageCodec::decode(&frame2).unwrap();
    assert_eq!(decoded2, msg2);
}

#[test]
fn test_unknown_ordinal_rejected() {
    let frame = hand_made_frame(&[99]);
    assert!(matches!(
        MessageCodec::decode(&frame),
        Err(Error::DecodingFailed)
    ));
}

#[test]
fn test_trailing_payload_bytes_rejected() {
    // A GetMode payload followed by one stray byte: the shape no longer
    // matches any variant, even though the CRC is valid.
    let frame = hand_made_frame(&[0x01, 0x00]);
    assert!(matches!(
        MessageCodec::decode(&frame),
        Err(Error::DecodingFailed)
    ));
}

#[test]
fn test_truncated_field_rejected() {
    // I2cWrite ordinal, address, and a length that promises more bytes
    // than the payload holds.
    let frame = hand_made_frame(&[0x03, 0x50, 0x05, 0x01]);
    assert!(matches!(
        MessageCodec::decode(&frame),
        Err(Error::DecodingFailed)
    ));
}

#[test]
fn test_over_capacity_field_rejected_on_decode() {
    // SetConfig with a 33-byte key: one past the key capacity.
    let mut payload = vec![0x0Bu8, 33];
    payload.extend_from_slice(&[b'k'; 33]);
    payload.push(0); // empty value
    let frame = hand_made_frame(&payload);
    assert!(matches!(
        MessageCodec::decode(&frame),
        Err(Error::DecodingFailed)
    ));
}

#[test]
fn test_bytebuf_rejects_oversize() {
    let big = [0u8; 257];
    assert!(ByteBuf::<256>::from_slice(&big).is_none());
    let exact = [0u8; 256];
    assert!(ByteBuf::<256>::from_slice(&exact).is_some());
}

#[test]
fn test_file_names_reject_33rd_entry() {
    let mut files = FileNames::new();
    for i in 0..32 {
        let name = [b'a' + (i % 26) as u8; 4];
        files.push(ByteBuf::from_slice(&name).unwrap()).unwrap();
    }
    assert_eq!(files.len(), 32);
    let extra = ByteBuf::from_slice(b"late").unwrap();
    assert!(files.push(extra).is_err());
    assert_eq!(files.len(), 32);
}

#[test]
fn test_encode_buffer_full() {
    // 15 names of 64 bytes and one of 39 give a 1018-byte payload: the
    // payload itself fits the scratch buffer, but not with the 7
    // framing bytes around it.
    let mut files = FileNames::new();
    for _ in 0..15 {
        files.push(ByteBuf::from_slice(&[b'a'; 64]).unwrap()).unwrap();
    }
    files.push(ByteBuf::from_slice(&[b'b'; 39]).unwrap()).unwrap();
    let msg = Message::Response(Response::FileList(files));
    assert!(matches!(MessageCodec::encode(&msg), Err(Error::BufferFull)));
}

#[test]
fn test_encode_payload_too_large() {
    // A full list of 32 names of 64 bytes has a payload beyond the
    // maximum frame size altogether.
    let mut files = FileNames::new();
    for _ in 0..32 {
        files.push(ByteBuf::from_slice(&[b'a'; 64]).unwrap()).unwrap();
    }
    let msg = Message::Response(Response::FileList(files));
    assert!(matches!(
        MessageCodec::encode(&msg),
        Err(Error::EncodingFailed)
    ));
}

#[test]
fn test_bytes_between_crc_and_end_not_examined() {
    // The frame is delimited by the declared length and the final byte:
    // a stray byte after the CRC field does not fail any of the checks,
    // because none of them reads that position.
    let mut frame = MessageCodec::encode(&Message::GetMode).unwrap();
    let end = frame.pop().unwrap();
    frame.push(0xFF);
    frame.push(end);
    assert_eq!(MessageCodec::decode(&frame).unwrap(), Message::GetMode);
}

#[test]
fn test_version_gate() {
    assert!(is_compatible(PROTOCOL_VERSION));
    assert!(!is_compatible(0x00));
    assert!(!is_compatible(0x02));
    assert!(!is_compatible(0xFF));
}

#[test]
fn test_set_mode_payload_bytes() {
    // SetMode { I2c }: ordinal 0, then the mode ordinal 1.
    let frame = MessageCodec::encode(&Message::SetMode { mode: Mode::I2c }).unwrap();
    assert_eq!(frame[2], 2); // payload length, low byte
    assert_eq!(frame[3], 0); // payload length, high byte
    assert_eq!(&frame[4..6], &[0x00, 0x01]);
}
