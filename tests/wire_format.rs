use krusti::wire::{classify, read_u32_be, WireFormat};

#[test]
fn absent_bytes_are_absent() {
    assert!(matches!(classify(None), WireFormat::Absent));
}

#[test]
fn short_sequences_are_opaque() {
    let cases: Vec<Vec<u8>> = vec![vec![], vec![0], vec![0, 0, 0, 0], vec![0, 0, 0, 7]];
    for c in cases {
        match classify(Some(c.as_slice())) {
            WireFormat::Opaque(v) => assert_eq!(v, c),
            other => panic!("expected opaque, got {:?}", other),
        }
    }
}

#[test]
fn wrong_magic_byte_is_opaque() {
    let bytes = vec![1u8, 0, 0, 0, 7, 9, 9];
    match classify(Some(bytes.as_slice())) {
        WireFormat::Opaque(v) => assert_eq!(v, bytes),
        other => panic!("expected opaque, got {:?}", other),
    }
}

#[test]
fn framed_bytes_give_id_seven_and_payload() {
    let bytes = vec![0u8, 0, 0, 0, 7, 0xAA, 0xBB];
    match classify(Some(bytes.as_slice())) {
        WireFormat::Encoded { id, payload } => {
            assert_eq!(id, 7);
            assert_eq!(payload, vec![0xAA, 0xBB]);
        },
        other => panic!("expected encoded, got {:?}", other),
    }
}

#[test]
fn five_bytes_frame_an_empty_payload() {
    let bytes = vec![0u8, 0, 0, 1, 0];
    match classify(Some(bytes.as_slice())) {
        WireFormat::Encoded { id, payload } => {
            assert_eq!(id, 256);
            assert!(payload.is_empty());
        },
        other => panic!("expected encoded, got {:?}", other),
    }
}

#[test]
fn schema_id_is_big_endian() {
    assert_eq!(read_u32_be(&[0x12, 0x34, 0x56, 0x78], 0), 0x1234_5678);
    assert_eq!(read_u32_be(&[0, 0xFF, 0xFF, 0xFF, 0xFF], 1), u32::MAX);
}
