use rbx::bytes::{bytes_equal, first_20, first_32, i64_from_le_bytes, is_all_zero, u64_to_be_bytes};

#[test]
fn big_endian_encoding() {
    assert_eq!(u64_to_be_bytes(5000), [0, 0, 0, 0, 0, 0, 0x13, 0x88]);
    assert_eq!(u64_to_be_bytes(0x0102030405060708), [1, 2, 3, 4, 5, 6, 7, 8]);
    assert_eq!(u64_to_be_bytes(u64::MAX), [0xff; 8]);
}

#[test]
fn little_endian_decoding() {
    assert_eq!(i64_from_le_bytes(&[0; 8]), 0);
    assert_eq!(i64_from_le_bytes(&86400i64.to_le_bytes()), 86400);
    assert_eq!(i64_from_le_bytes(&(-5i64).to_le_bytes()), -5);
    assert_eq!(i64_from_le_bytes(&i64::MIN.to_le_bytes()), i64::MIN);
}

#[test]
fn byte_comparisons() {
    assert!(bytes_equal(&[1, 2, 3], &[1, 2, 3]));
    assert!(!bytes_equal(&[1, 2, 3], &[1, 2, 4]));
    assert!(!bytes_equal(&[1, 2], &[1, 2, 3]));
    assert!(is_all_zero(&[0; 20]));
    assert!(!is_all_zero(&[0, 0, 1]));
    assert!(is_all_zero(&[]));
}

#[test]
fn leading_bytes() {
    let data: Vec<u8> = (0..40u8).collect();
    let a = first_32(&data);
    assert_eq!(a[0], 0);
    assert_eq!(a[31], 31);
    let b = first_20(&data);
    assert_eq!(b[19], 19);
}
