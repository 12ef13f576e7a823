use katana_sysex::checksum::{checksum, set_checksum, validate_checksum, MessageTooShort};

#[test]
fn lib_test_chksum() {
    let msg = [0xf0, 0, 0, 0x7f, 0x7f, 0, 0, 0x02, 0xf7];
    assert!(validate_checksum(&msg));

    let msg = [0xf0, 0, 0, 2, 0x7e, 0xf7];
    assert!(validate_checksum(&msg));
}

#[test]
fn kt_sysex_test_chksum() {
    let msg = [0xf0, 0, 0, 0x7f, 0x7f, 0, 0, 0x02, 0xf7];
    assert!(validate_checksum(&msg));

    let msg = [0xf0, 0, 0, 2, 0x7e, 0xf7];
    assert!(validate_checksum(&msg));
}

#[test]
fn checksum_exact_values() {
    assert_eq!(checksum(&[0xf0, 0, 0, 0x7f, 0x7f, 0, 0, 0, 0xf7]), Ok(0x02));
    assert_eq!(checksum(&[0xf0, 0, 0, 2, 0, 0xf7]), Ok(0x7e));
    assert_eq!(checksum(&[0xf0, 1, 0, 0xf7]), Ok(0x7f));
}

#[test]
fn checksum_of_zero_sum_is_zero() {
    assert_eq!(checksum(&[0xf0, 0, 0, 0, 0xf7]), Ok(0));
    assert_eq!(checksum(&[0xf0, 0x40, 0x40, 0, 0xf7]), Ok(0));
    assert_eq!(checksum(&[0xf0, 0x80, 0, 0xf7]), Ok(0));
}

#[test]
fn checksum_of_empty_region_is_zero() {
    assert_eq!(checksum(&[0xf0, 0x55, 0xf7]), Ok(0));
}

#[test]
fn checksum_skips_markers_and_stored_byte() {
    assert_eq!(checksum(&[0x11, 5, 0x22, 0x33]), Ok(0x7b));
    assert_eq!(checksum(&[0xf0, 5, 0x00, 0xf7]), Ok(0x7b));
}

#[test]
fn checksum_sums_bytes_above_seven_bits() {
    // 0xff + 0xff + 0xff = 0x2fd, which is 0x7d modulo 0x80.
    assert_eq!(checksum(&[0xf0, 0xff, 0xff, 0xff, 0, 0xf7]), Ok(0x03));
}

#[test]
fn checksum_too_short() {
    assert_eq!(checksum(&[]), Err(MessageTooShort));
    assert_eq!(checksum(&[0xf0]), Err(MessageTooShort));
    assert_eq!(checksum(&[0xf0, 0xf7]), Err(MessageTooShort));
}

#[test]
fn validate_checksum_rejects_wrong_byte() {
    assert!(!validate_checksum(&[0xf0, 0, 0, 2, 0x7d, 0xf7]));
    assert!(!validate_checksum(&[0xf0, 0, 0, 0x7f, 0x7f, 0, 0, 0x03, 0xf7]));
}

#[test]
fn validate_checksum_rejects_short_messages() {
    assert!(!validate_checksum(&[]));
    assert!(!validate_checksum(&[0]));
    assert!(!validate_checksum(&[0, 0]));
}

#[test]
fn set_checksum_writes_in_front_of_end_marker() {
    let mut msg = [0xf0, 0, 0, 2, 0, 0xf7];
    assert_eq!(set_checksum(&mut msg), Ok(()));
    assert_eq!(msg, [0xf0, 0, 0, 2, 0x7e, 0xf7]);
    assert!(validate_checksum(&msg));
}

#[test]
fn set_checksum_overwrites_stale_byte() {
    let mut msg = [0xf0, 0, 0, 0x7f, 0x7f, 0, 0, 0x55, 0xf7];
    assert_eq!(set_checksum(&mut msg), Ok(()));
    assert_eq!(msg, [0xf0, 0, 0, 0x7f, 0x7f, 0, 0, 0x02, 0xf7]);
}

#[test]
fn set_checksum_leaves_short_messages_alone() {
    let mut msg = [0xf0, 0xf7];
    assert_eq!(set_checksum(&mut msg), Err(MessageTooShort));
    assert_eq!(msg, [0xf0, 0xf7]);
}
