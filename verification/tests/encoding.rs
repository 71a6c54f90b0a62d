use ibc_lite::encoding::{
    append_bytes, be64_bytes, be64_decode, copy_bytes, decimal_string, same_bytes, same_text,
    text_bytes,
};
use ibc_lite::events::Event;

#[test]
fn be64_is_big_endian() {
    assert_eq!(be64_bytes(0), vec![0, 0, 0, 0, 0, 0, 0, 0]);
    assert_eq!(be64_bytes(1), vec![0, 0, 0, 0, 0, 0, 0, 1]);
    assert_eq!(be64_bytes(0x0102030405060708), vec![1, 2, 3, 4, 5, 6, 7, 8]);
    assert_eq!(be64_bytes(u64::MAX), vec![255; 8]);
    assert_eq!(be64_bytes(1_700_000_000_000_000_000), 1_700_000_000_000_000_000u64.to_be_bytes());
}

#[test]
fn be64_decode_reads_eight_bytes_only() {
    assert_eq!(be64_decode(&[0, 0, 0, 0, 0, 0, 0, 2]), Some(2));
    assert_eq!(be64_decode(&[1, 2, 3, 4, 5, 6, 7, 8]), Some(0x0102030405060708));
    assert_eq!(be64_decode(&[255; 8]), Some(u64::MAX));
    assert_eq!(be64_decode(&[]), None);
    assert_eq!(be64_decode(&[1, 2, 3, 4, 5, 6, 7]), None);
    assert_eq!(be64_decode(&[1, 2, 3, 4, 5, 6, 7, 8, 9]), None);
}

#[test]
fn be64_round_trip() {
    for n in [0u64, 1, 255, 256, 65_535, 1 << 40, u64::MAX - 1, u64::MAX] {
        assert_eq!(be64_decode(&be64_bytes(n)), Some(n));
    }
}

#[test]
fn decimal_has_no_leading_zeros() {
    assert_eq!(decimal_string(0), "0");
    assert_eq!(decimal_string(7), "7");
    assert_eq!(decimal_string(10), "10");
    assert_eq!(decimal_string(1234567890), "1234567890");
    assert_eq!(decimal_string(u64::MAX), "18446744073709551615");
}

#[test]
fn byte_helpers() {
    let mut buf = vec![1u8, 2];
    append_bytes(&mut buf, &[3, 4]);
    assert_eq!(buf, vec![1, 2, 3, 4]);
    assert_eq!(copy_bytes(&[9, 8, 7]), vec![9, 8, 7]);
    assert!(same_bytes(&[1, 2, 3], &[1, 2, 3]));
    assert!(!same_bytes(&[1, 2, 3], &[1, 2, 4]));
    assert!(!same_bytes(&[1, 2, 3], &[1, 2]));
    assert!(same_bytes(&[], &[]));
}

#[test]
fn text_helpers() {
    assert!(same_text("abc", "abc"));
    assert!(!same_text("abc", "abd"));
    assert!(!same_text("abc", "ab"));
    assert_eq!(text_bytes("wasm.é"), "wasm.é".as_bytes().to_vec());
}

#[test]
fn event_collects_attributes_in_order() {
    let event = Event::new("kind")
        .add_attribute("a", "1".to_string())
        .add_attribute("b", "2".to_string());
    assert_eq!(event.ty, "kind");
    assert_eq!(event.attributes.len(), 2);
    assert_eq!(event.attributes[0].key, "a");
    assert_eq!(event.attributes[0].value, "1");
    assert_eq!(event.attributes[1].key, "b");
    assert_eq!(event.attributes[1].value, "2");
}
