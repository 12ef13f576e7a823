use katana_sysex::checksum::{checksum, validate_checksum};
use katana_sysex::kt_sysex::{
    footswitch_change_bytes, status, status_bytes, validate, validate_rx, RxValidateRes,
    RxValidationError,
};
use katana_sysex::message::{
    footswitch_change, IncompleteMessage, IncompleteMessageUpdateRes, IncompleteRxMessage,
    RxMessage,
};

fn assemble_rx(bytes: &[u8]) -> IncompleteMessageUpdateRes<6> {
    let mut acc = IncompleteRxMessage::start_rx();
    let mut last = None;
    for b in bytes {
        match acc.clone().update(*b) {
            IncompleteMessageUpdateRes::Incomplete(next) => acc = next,
            other => {
                last = Some(other);
                break;
            }
        }
    }
    match last {
        Some(res) => res,
        None => IncompleteMessageUpdateRes::Incomplete(acc),
    }
}

fn rx_frame(bytes: [u8; 6]) -> RxMessage {
    match assemble_rx(&bytes) {
        IncompleteMessageUpdateRes::Complete(m) => m,
        _ => panic!("not a frame"),
    }
}

fn invalid_reason<const N: usize>(res: IncompleteMessageUpdateRes<N>) -> RxValidationError {
    match res {
        IncompleteMessageUpdateRes::Invalid(reason) => reason,
        _ => panic!("not invalid"),
    }
}

#[test]
fn status_frame_layout() {
    assert_eq!(
        katana_sysex::message::status(0).as_bytes(),
        [0xf0, 0, 0, 0, 0, 0, 0, 0, 0xf7]
    );
    assert_eq!(
        katana_sysex::message::status(5).as_bytes(),
        [0xf0, 0, 0, 0, 0, 5, 0, 0x7b, 0xf7]
    );
    assert_eq!(
        katana_sysex::message::status(0x7f).as_bytes(),
        [0xf0, 0, 0, 0, 0, 0x7f, 0, 0x01, 0xf7]
    );
    assert_eq!(
        katana_sysex::message::status(0x80).as_bytes(),
        [0xf0, 0, 0, 0, 0, 0x80, 0, 0x00, 0xf7]
    );
    assert_eq!(
        katana_sysex::message::status(0xff).as_bytes(),
        [0xf0, 0, 0, 0, 0, 0xff, 0, 0x01, 0xf7]
    );
}

#[test]
fn footswitch_change_frame_layout() {
    assert_eq!(footswitch_change(0).as_bytes(), [0xf0, 0, 2, 0, 0, 0x7e, 0xf7]);
    assert_eq!(footswitch_change(1).as_bytes(), [0xf0, 0, 2, 1, 0, 0x7d, 0xf7]);
    assert_eq!(footswitch_change(0x7e).as_bytes(), [0xf0, 0, 2, 0x7e, 0, 0x00, 0xf7]);
    assert_eq!(footswitch_change(0xff).as_bytes(), [0xf0, 0, 2, 0xff, 0, 0x7f, 0xf7]);
}

#[test]
fn byte_builders_agree_with_frames() {
    for fs in 0..=255u8 {
        assert_eq!(status_bytes(fs), katana_sysex::message::status(fs).as_bytes());
        assert_eq!(footswitch_change_bytes(fs), footswitch_change(fs).as_bytes());
    }
}

#[test]
fn queued_status_frame_holds_the_same_bytes() {
    assert_eq!(status(5).as_slice(), &[0xf0, 0, 0, 0, 0, 5, 0, 0x7b, 0xf7]);
    for fs in 0..=255u8 {
        assert_eq!(status(fs).as_slice(), &status_bytes(fs));
    }
}

#[test]
fn built_frames_store_their_checksum() {
    for fs in 0..=255u8 {
        let s = katana_sysex::message::status(fs).as_bytes();
        assert_eq!(checksum(&s), Ok(s[s.len() - 2]));
        assert!(validate_checksum(&s));
        let c = footswitch_change(fs).as_bytes();
        assert_eq!(checksum(&c), Ok(c[c.len() - 2]));
        assert!(validate_checksum(&c));
    }
}

#[test]
fn built_frames_round_trip() {
    for fs in 0..=255u8 {
        let bytes = katana_sysex::message::status(fs).as_bytes();
        let mut acc = IncompleteMessage::<9>::start_rx();
        for (i, b) in bytes.iter().enumerate() {
            match acc.clone().update(*b) {
                IncompleteMessageUpdateRes::Incomplete(next) => {
                    assert!(i + 1 < 9);
                    assert_eq!(next.len(), i + 1);
                    acc = next;
                }
                IncompleteMessageUpdateRes::Complete(m) => {
                    assert_eq!(i + 1, 9);
                    assert_eq!(m.as_bytes(), bytes);
                }
                IncompleteMessageUpdateRes::Invalid(_) => panic!("invalid"),
            }
        }
        let bytes = footswitch_change(fs).as_bytes();
        let mut acc = IncompleteMessage::<7>::start_rx();
        for (i, b) in bytes.iter().enumerate() {
            match acc.clone().update(*b) {
                IncompleteMessageUpdateRes::Incomplete(next) => {
                    assert!(i + 1 < 7);
                    acc = next;
                }
                IncompleteMessageUpdateRes::Complete(m) => {
                    assert_eq!(i + 1, 7);
                    assert_eq!(m.as_bytes(), bytes);
                }
                IncompleteMessageUpdateRes::Invalid(_) => panic!("invalid"),
            }
        }
    }
}

#[test]
fn invalid_start_at_once_for_any_length() {
    assert_eq!(
        invalid_reason(IncompleteMessage::<6>::start_rx().update(0x00)),
        RxValidationError::InvalidStart
    );
    assert_eq!(
        invalid_reason(IncompleteMessage::<9>::start_rx().update(0x00)),
        RxValidationError::InvalidStart
    );
    assert_eq!(
        invalid_reason(IncompleteMessage::<1>::start_rx().update(0x00)),
        RxValidationError::InvalidStart
    );
    assert_eq!(
        invalid_reason(IncompleteMessage::<0>::start_rx().update(0x00)),
        RxValidationError::InvalidStart
    );
    assert_eq!(
        invalid_reason(IncompleteMessage::<6>::start_rx().update(0xf7)),
        RxValidationError::InvalidStart
    );
}

#[test]
fn invalid_end_at_target_length() {
    assert_eq!(
        invalid_reason(assemble_rx(&[0xf0, 0, 0, 2, 0x7e, 0x00])),
        RxValidationError::InvalidEnd
    );
    // The end marker is looked at before the checksum.
    assert_eq!(
        invalid_reason(assemble_rx(&[0xf0, 0, 0, 2, 0x00, 0x00])),
        RxValidationError::InvalidEnd
    );
}

#[test]
fn checksum_error_at_target_length() {
    assert_eq!(
        invalid_reason(assemble_rx(&[0xf0, 0, 0, 2, 0x7d, 0xf7])),
        RxValidationError::ChecksumErr
    );
}

#[test]
fn too_long_when_there_is_no_room() {
    assert_eq!(
        invalid_reason(IncompleteMessage::<0>::start_rx().update(0xf0)),
        RxValidationError::TooLong
    );
    assert_eq!(
        validate_rx(&[0xf0, 0, 0, 2, 0x7e, 0xf7, 0xf7]),
        RxValidateRes::Invalid(RxValidationError::TooLong)
    );
    assert_eq!(
        validate(&[0xf0, 0, 0xf7, 0], 3),
        RxValidateRes::Invalid(RxValidationError::TooLong)
    );
}

#[test]
fn short_frames_are_told_from_their_first_byte_on() {
    // With a target of one byte the start marker alone has reached the
    // target length and is not the end marker.
    assert_eq!(
        invalid_reason(IncompleteMessage::<1>::start_rx().update(0xf0)),
        RxValidationError::InvalidEnd
    );
    // Three bytes are the shortest frame; its summed region is empty.
    let acc = match IncompleteMessage::<3>::start_rx().update(0xf0) {
        IncompleteMessageUpdateRes::Incomplete(acc) => acc,
        _ => panic!("not incomplete"),
    };
    let acc = match acc.update(0x00) {
        IncompleteMessageUpdateRes::Incomplete(acc) => acc,
        _ => panic!("not incomplete"),
    };
    match acc.update(0xf7) {
        IncompleteMessageUpdateRes::Complete(m) => assert_eq!(m.as_bytes(), [0xf0, 0, 0xf7]),
        _ => panic!("not complete"),
    }
}

#[test]
fn complete_frame_keeps_its_bytes() {
    let m = rx_frame([0xf0, 0, 0, 2, 0x7e, 0xf7]);
    assert_eq!(m.clone().as_bytes(), [0xf0, 0, 0, 2, 0x7e, 0xf7]);
    assert_eq!(m.as_bytes(), [0xf0, 0, 0, 2, 0x7e, 0xf7]);
}

#[test]
fn accumulator_counts_its_bytes() {
    let acc = IncompleteRxMessage::start_rx();
    assert_eq!(acc.len(), 0);
    assert!(acc.is_empty());
    let acc = match acc.update(0xf0) {
        IncompleteMessageUpdateRes::Incomplete(acc) => acc,
        _ => panic!("not incomplete"),
    };
    assert_eq!(acc.len(), 1);
    assert!(!acc.is_empty());
    let copy = acc.clone();
    assert_eq!(copy.len(), 1);
    assert_eq!(copy.as_slice(), &[0xf0]);
    assert_eq!(IncompleteRxMessage::start_rx().as_slice(), &[] as &[u8]);
    match assemble_rx(&[0xf0, 0, 0, 2, 0x7e]) {
        IncompleteMessageUpdateRes::Incomplete(acc) => {
            assert_eq!(acc.len(), 5);
            assert_eq!(acc.as_slice(), &[0xf0, 0, 0, 2, 0x7e]);
        }
        _ => panic!("not incomplete"),
    }
}

#[test]
fn led_status_of_a_status_report() {
    assert_eq!(rx_frame([0xf0, 0, 0, 0x2a, 0x56, 0xf7]).led_status(), Some(0x2a));
    assert_eq!(rx_frame([0xf0, 0, 0, 0, 0, 0xf7]).led_status(), Some(0));
}

#[test]
fn led_status_of_another_frame() {
    assert_eq!(rx_frame([0xf0, 1, 0, 0x2a, 0x55, 0xf7]).led_status(), None);
    assert_eq!(rx_frame([0xf0, 0, 1, 0x2a, 0x55, 0xf7]).led_status(), None);
    assert_eq!(rx_frame([0xf0, 1, 1, 0x2a, 0x54, 0xf7]).led_status(), None);
}

#[test]
fn validate_rx_classifies_in_order() {
    assert_eq!(validate_rx(&[]), RxValidateRes::Incomplete);
    assert_eq!(validate_rx(&[0xf0]), RxValidateRes::Incomplete);
    assert_eq!(validate_rx(&[0xf0, 0, 0, 2, 0x7e]), RxValidateRes::Incomplete);
    assert_eq!(validate_rx(&[0xf0, 0, 0, 2, 0x7e, 0xf7]), RxValidateRes::Complete);
    assert_eq!(
        validate_rx(&[0x00]),
        RxValidateRes::Invalid(RxValidationError::InvalidStart)
    );
    // A wrong start outweighs a wrong length.
    assert_eq!(
        validate_rx(&[0x00, 0, 0, 2, 0x7e, 0xf7, 0, 0]),
        RxValidateRes::Invalid(RxValidationError::InvalidStart)
    );
    assert_eq!(
        validate_rx(&[0xf0, 0, 0, 2, 0x7e, 0xf6]),
        RxValidateRes::Invalid(RxValidationError::InvalidEnd)
    );
    assert_eq!(
        validate_rx(&[0xf0, 0, 0, 2, 0x7f, 0xf7]),
        RxValidateRes::Invalid(RxValidationError::ChecksumErr)
    );
}

#[test]
fn validate_against_other_lengths() {
    assert_eq!(
        validate(&[0xf0, 0, 0, 0x7f, 0x7f, 0, 0, 0x02, 0xf7], 9),
        RxValidateRes::Complete
    );
    assert_eq!(
        validate(&[0xf0, 0, 0, 0x7f, 0x7f, 0, 0, 0x02], 9),
        RxValidateRes::Incomplete
    );
    assert_eq!(validate(&[], 0), RxValidateRes::Incomplete);
    // Two bytes cannot hold a checksum.
    assert_eq!(
        validate(&[0xf0, 0xf7], 2),
        RxValidateRes::Invalid(RxValidationError::ChecksumErr)
    );
}
