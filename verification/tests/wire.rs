use wb_notifier::varint::{push_varint, take_u32, take_u64};
use wb_notifier::wire::{
    extract_header_from_bytes, to_vec_keyed, Key, WireError, WireHeader, HEADER_LEN, MAX_DATAGRAM,
};

#[test]
fn header_layout_is_seq_no_then_key_little_endian() {
    let d = to_vec_keyed(0x0403_0201, Key(0x0c0b_0a09_0807_0605), &[0xaa, 0xbb]).unwrap();
    assert_eq!(d, vec![1, 2, 3, 4, 5, 6, 7, 8, 9, 10, 11, 12, 0xaa, 0xbb]);
}

#[test]
fn header_round_trip() {
    let cases: [(u32, u64, Vec<u8>); 4] = [
        (0, 0, vec![]),
        (1, 0xdead_beef_0bad_f00d, vec![1, 2, 3]),
        (u32::MAX, u64::MAX, vec![0; 100]),
        (0x8000_0000, 0x8000_0000_0000_0000, vec![0xff]),
    ];
    for (seq_no, key, payload) in cases {
        let d = to_vec_keyed(seq_no, Key(key), &payload).unwrap();
        assert_eq!(d.len(), HEADER_LEN + payload.len());
        let (hdr, rest) = extract_header_from_bytes(&d).unwrap();
        assert_eq!(hdr, WireHeader { key: Key(key), seq_no });
        assert_eq!(rest, &payload[..]);
    }
}

#[test]
fn short_datagram_is_rejected() {
    for n in 0..12 {
        let bytes = vec![0u8; n];
        assert_eq!(extract_header_from_bytes(&bytes).err(), Some(WireError::Parse));
    }
    assert!(extract_header_from_bytes(&[0u8; 12]).is_ok());
}

#[test]
fn datagram_over_the_limit_is_refused() {
    let fits = vec![0u8; MAX_DATAGRAM - HEADER_LEN];
    assert_eq!(to_vec_keyed(0, Key(1), &fits).unwrap().len(), 1024);
    let too_long = vec![0u8; MAX_DATAGRAM - HEADER_LEN + 1];
    assert_eq!(to_vec_keyed(0, Key(1), &too_long), Err(WireError::BufferFull));
}

#[test]
fn varint_known_encodings() {
    let cases: [(u64, Vec<u8>); 6] = [
        (0, vec![0x00]),
        (127, vec![0x7f]),
        (128, vec![0x80, 0x01]),
        (300, vec![0xac, 0x02]),
        (16383, vec![0xff, 0x7f]),
        (u32::MAX as u64, vec![0xff, 0xff, 0xff, 0xff, 0x0f]),
    ];
    for (v, bytes) in cases {
        let mut out = Vec::new();
        push_varint(&mut out, v);
        assert_eq!(out, bytes);
        assert_eq!(take_u32(&bytes, 0), Some((v as u32, bytes.len())));
        assert_eq!(take_u64(&bytes, 0), Some((v, bytes.len())));
    }
}

#[test]
fn varint_u64_round_trip() {
    for v in [0u64, 1, 255, 1 << 35, u64::MAX - 1, u64::MAX] {
        let mut out = vec![9u8];
        push_varint(&mut out, v);
        out.push(7);
        assert_eq!(take_u64(&out, 1), Some((v, out.len() - 1)));
    }
}

#[test]
fn varint_rejects_overlong_and_overflowing_values() {
    // Sixth byte for a 32-bit value.
    assert_eq!(take_u32(&[0x80, 0x80, 0x80, 0x80, 0x80, 0x01], 0), None);
    assert_eq!(take_u64(&[0x80, 0x80, 0x80, 0x80, 0x80, 0x01], 0), Some((1 << 35, 6)));
    // Fifth byte holds more than the four bits that are left.
    assert_eq!(take_u32(&[0xff, 0xff, 0xff, 0xff, 0x10], 0), None);
    // Tenth byte holds more than the one bit that is left.
    assert_eq!(take_u64(&[0xff, 0xff, 0xff, 0xff, 0xff, 0xff, 0xff, 0xff, 0xff, 0x02], 0), None);
    assert_eq!(
        take_u64(&[0xff, 0xff, 0xff, 0xff, 0xff, 0xff, 0xff, 0xff, 0xff, 0x01], 0),
        Some((u64::MAX, 10))
    );
    // Ends while more bytes are announced.
    assert_eq!(take_u32(&[0x80], 0), None);
    assert_eq!(take_u32(&[], 0), None);
    // A position behind the end.
    assert_eq!(take_u32(&[1], 2), None);
    assert_eq!(take_u64(&[1], 1), None);
    // A longer encoding than needed is accepted.
    assert_eq!(take_u32(&[0x81, 0x00], 0), Some((1, 2)));
}
