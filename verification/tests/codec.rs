use ble_uuid::codec::{wire_roundtrip, ByteReader, ByteWriter, Error, FromBytes, ToBytes};
use ble_uuid::uuid::{Uuid128, Uuid16, Uuid32};

#[test]
fn space_needed_is_fixed() {
    assert_eq!(Uuid16(0).space_needed(), 2);
    assert_eq!(Uuid16(0xFFFF).space_needed(), 2);
    assert_eq!(Uuid32(0).space_needed(), 4);
    assert_eq!(Uuid32(0xFFFF_FFFF).space_needed(), 4);
    assert_eq!(Uuid32(0).widen_to_128().space_needed(), 16);
    assert_eq!(Uuid32(0xFFFF_FFFF).widen_to_128().space_needed(), 16);
}

#[test]
fn encode_uuid16_big_endian() {
    let mut w = ByteWriter::new(2);
    assert_eq!(Uuid16(0x180F).to_bytes(&mut w), Ok(()));
    assert_eq!(w.into_bytes(), vec![0x18, 0x0F]);
}

#[test]
fn encode_uuid32_big_endian() {
    // The byte encoding of 0x1234ABCD is 12 34 AB CD.
    let mut w = ByteWriter::new(4);
    assert_eq!(Uuid32(0x1234ABCD).to_bytes(&mut w), Ok(()));
    assert_eq!(w.into_bytes(), vec![0x12, 0x34, 0xAB, 0xCD]);
}

#[test]
fn encode_uuid128_is_its_bytes() {
    let wide = Uuid32(0x1234ABCD).widen_to_128();
    let mut w = ByteWriter::new(16);
    assert_eq!(wide.to_bytes(&mut w), Ok(()));
    assert_eq!(
        w.into_bytes(),
        vec![
            0x12, 0x34, 0xAB, 0xCD, 0x00, 0x00, 0x10, 0x00, 0x80, 0x00, 0x00, 0x80, 0x5F,
            0x9B, 0x34, 0xFB
        ]
    );
}

#[test]
fn decode_uuid16_big_endian() {
    let mut r = ByteReader::new(vec![0x18, 0x0F]);
    assert_eq!(Uuid16::from_bytes(&mut r), Ok(Uuid16(0x180F)));
    assert_eq!(r.remaining_len(), 0);
}

#[test]
fn decode_uuid32_big_endian() {
    let mut r = ByteReader::new(vec![0x12, 0x34, 0xAB, 0xCD]);
    assert_eq!(Uuid32::from_bytes(&mut r), Ok(Uuid32(0x1234ABCD)));
    assert_eq!(r.remaining_len(), 0);
}

#[test]
fn decode_uuid128_in_wire_order() {
    let bytes: Vec<u8> = vec![
        0x12, 0x34, 0xAB, 0xCD, 0x00, 0x00, 0x10, 0x00, 0x80, 0x00, 0x00, 0x80, 0x5F, 0x9B,
        0x34, 0xFB,
    ];
    let mut r = ByteReader::new(bytes);
    assert_eq!(
        Uuid128::from_bytes(&mut r),
        Ok(Uuid32(0x1234ABCD).widen_to_128())
    );
    assert_eq!(r.remaining_len(), 0);
}

#[test]
fn decode_consumes_only_its_bytes() {
    // One buffer holding a 16-bit alias followed by a 32-bit alias.
    let mut r = ByteReader::new(vec![0x2A, 0x37, 0x12, 0x34, 0xAB, 0xCD]);
    assert_eq!(Uuid16::from_bytes(&mut r), Ok(Uuid16(0x2A37)));
    assert_eq!(r.remaining_len(), 4);
    assert_eq!(Uuid32::from_bytes(&mut r), Ok(Uuid32(0x1234ABCD)));
    assert_eq!(r.remaining_len(), 0);
}

#[test]
fn roundtrip_all_sizes() {
    for v in [0x0000u16, 0x0001, 0x180F, 0xABCD, 0xFFFF] {
        assert_eq!(wire_roundtrip(&Uuid16(v)), Uuid16(v));
    }
    for v in [0x0000_0000u32, 0x0000_ABCD, 0x1234_ABCD, 0xFFFF_FFFF] {
        assert_eq!(wire_roundtrip(&Uuid32(v)), Uuid32(v));
    }
    for v in [0x0000_0000u32, 0x1234_ABCD, 0xFFFF_FFFF] {
        let wide = Uuid32(v).widen_to_128();
        assert_eq!(wire_roundtrip(&wide), wide);
    }
}

#[test]
fn decode_fails_on_short_input() {
    // A 3-byte buffer is too short for a 32-bit alias.
    let mut r = ByteReader::new(vec![0x12, 0x34, 0xAB]);
    assert_eq!(Uuid32::from_bytes(&mut r), Err(Error::Eof));
    // A 15-byte buffer is too short for a full UUID.
    let mut r = ByteReader::new(vec![0u8; 15]);
    assert_eq!(Uuid128::from_bytes(&mut r), Err(Error::Eof));
    // A 1-byte buffer is too short for a 16-bit alias.
    let mut r = ByteReader::new(vec![0x18]);
    assert_eq!(Uuid16::from_bytes(&mut r), Err(Error::Eof));
    // An empty buffer is too short for anything.
    let mut r = ByteReader::new(Vec::new());
    assert_eq!(Uuid16::from_bytes(&mut r), Err(Error::Eof));
}

#[test]
fn encode_fails_on_small_buffer_unchanged() {
    // A 1-byte buffer cannot hold a 16-bit alias; nothing is written.
    let mut w = ByteWriter::new(1);
    assert_eq!(Uuid16(0x180F).to_bytes(&mut w), Err(Error::BufferTooSmall));
    assert_eq!(w.into_bytes(), Vec::<u8>::new());
    // A 15-byte buffer cannot hold a full UUID.
    let mut w = ByteWriter::new(15);
    let wide = Uuid32(0x1234ABCD).widen_to_128();
    assert_eq!(wide.to_bytes(&mut w), Err(Error::BufferTooSmall));
    assert_eq!(w.into_bytes(), Vec::<u8>::new());
}

#[test]
fn encode_failure_keeps_earlier_writes() {
    // 5 bytes of capacity: a 32-bit alias fits, the 16-bit alias after it
    // does not, and the failure leaves the first write intact.
    let mut w = ByteWriter::new(5);
    assert_eq!(Uuid32(0x1234ABCD).to_bytes(&mut w), Ok(()));
    assert_eq!(w.remaining_len(), 1);
    assert_eq!(Uuid16(0x180F).to_bytes(&mut w), Err(Error::BufferTooSmall));
    assert_eq!(w.into_bytes(), vec![0x12, 0x34, 0xAB, 0xCD]);
}

#[test]
fn encode_into_exact_buffer() {
    let mut w = ByteWriter::new(2);
    assert_eq!(Uuid16(0xFFFF).to_bytes(&mut w), Ok(()));
    assert_eq!(w.remaining_len(), 0);
    assert_eq!(w.into_bytes(), vec![0xFF, 0xFF]);
}
