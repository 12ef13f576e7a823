//! The frame format on plain bytes: the frames that the pedal sends, and the
//! classification of received bytes.

use crate::checksum::{
    checksum_matches, checksum_of, lemma_byte_sum_push, lemma_checksum_ignores_stored,
    set_checksum, summed_region, validate_checksum,
};
use crate::queues::{msg_bytes, msg_collect, MsgBuf};
use vstd::prelude::*;

verus! {

/// Length of every frame that the amplifier sends.
pub const RX_MSG_LEN: usize = 6;

/// Start marker, the first byte of every frame.
pub const MSG_BEGIN: u8 = 0xf0;

/// End marker, the last byte of every frame.
pub const MSG_END: u8 = 0xf7;

/// Why received bytes cannot be a frame.
#[derive(Clone, Copy, Debug, PartialEq, Eq, Structural)]
pub enum RxValidationError {
    /// More bytes than a frame has.
    TooLong,
    /// The stored checksum is not the one that belongs to the bytes.
    ChecksumErr,
    /// The first byte is not the start marker.
    InvalidStart,
    /// The last byte is not the end marker.
    InvalidEnd,
}

/// What the bytes received so far amount to.
#[derive(Clone, Copy, Debug, PartialEq, Eq, Structural)]
pub enum RxValidateRes {
    /// A proper beginning of a frame; more bytes are needed.
    Incomplete,
    /// Exactly one whole, valid frame.
    Complete,
    /// Not a frame, and no further byte can make it one.
    Invalid(RxValidationError),
}

/// `s` is a whole frame: delimited by the two markers and carrying the
/// checksum that belongs to it.
pub open spec fn is_frame(s: Seq<u8>) -> bool {
    &&& s.len() >= 3
    &&& s[0] == MSG_BEGIN
    &&& s[s.len() - 1] == MSG_END
    &&& checksum_matches(s)
}

/// Classification of the bytes `s` received so far for a frame of `target`
/// bytes. The checks apply in this order: start marker, length, end marker,
/// checksum.
pub open spec fn classify(s: Seq<u8>, target: nat) -> RxValidateRes {
    if s.len() == 0 {
        RxValidateRes::Incomplete
    } else if s[0] != MSG_BEGIN {
        RxValidateRes::Invalid(RxValidationError::InvalidStart)
    } else if s.len() < target {
        RxValidateRes::Incomplete
    } else if s.len() > target {
        RxValidateRes::Invalid(RxValidationError::TooLong)
    } else if s[s.len() - 1] != MSG_END {
        RxValidateRes::Invalid(RxValidationError::InvalidEnd)
    } else if !checksum_matches(s) {
        RxValidateRes::Invalid(RxValidationError::ChecksumErr)
    } else {
        RxValidateRes::Complete
    }
}

/// Classifies `buf` against a frame of `target` bytes.
pub fn validate(buf: &[u8], target: usize) -> (r: RxValidateRes)
    ensures
        r == classify(buf@, target as nat),
{
    if buf.len() == 0 {
        RxValidateRes::Incomplete
    } else if buf[0] != MSG_BEGIN {
        RxValidateRes::Invalid(RxValidationError::InvalidStart)
    } else if buf.len() < target {
        RxValidateRes::Incomplete
    } else if buf.len() > target {
        RxValidateRes::Invalid(RxValidationError::TooLong)
    } else if buf[buf.len() - 1] != MSG_END {
        RxValidateRes::Invalid(RxValidationError::InvalidEnd)
    } else if !validate_checksum(buf) {
        RxValidateRes::Invalid(RxValidationError::ChecksumErr)
    } else {
        RxValidateRes::Complete
    }
}

/// Classifies `buf` against the frames that the amplifier sends.
pub fn validate_rx(buf: &[u8]) -> (r: RxValidateRes)
    ensures
        r == classify(buf@, RX_MSG_LEN as nat),
{
    validate(buf, RX_MSG_LEN)
}

/// The checksum of a frame whose summed region adds up to `sum`.
pub open spec fn checksum_for(sum: int) -> u8 {
    ((0x80 - sum % 0x80) % 0x80) as u8
}

/// The full status frame for the footswitch state `footswitch`.
pub open spec fn status_frame(footswitch: u8) -> Seq<u8> {
    seq![
        MSG_BEGIN,
        0,
        0,
        0,
        0,
        footswitch,
        0,
        checksum_for(footswitch as int),
        MSG_END,
    ]
}

/// The frame that reports a change of the footswitch state to `footswitch`.
pub open spec fn footswitch_change_frame(footswitch: u8) -> Seq<u8> {
    seq![
        MSG_BEGIN,
        0,
        0x02,
        footswitch,
        0,
        checksum_for(0x02 + footswitch as int),
        MSG_END,
    ]
}

/// A status frame stores the checksum that belongs to it, and is a frame.
pub proof fn lemma_status_frame_checksum(footswitch: u8)
    ensures
        checksum_of(status_frame(footswitch)) == status_frame(footswitch)[7] as int,
        is_frame(status_frame(footswitch)),
{
    let f = status_frame(footswitch);
    let e = Seq::<u8>::empty();
    lemma_byte_sum_push(e, 0);
    lemma_byte_sum_push(e.push(0), 0);
    lemma_byte_sum_push(e.push(0).push(0), 0);
    lemma_byte_sum_push(e.push(0).push(0).push(0), 0);
    lemma_byte_sum_push(e.push(0).push(0).push(0).push(0), footswitch);
    lemma_byte_sum_push(e.push(0).push(0).push(0).push(0).push(footswitch), 0);
    assert(summed_region(f) =~= e.push(0).push(0).push(0).push(0).push(footswitch).push(0));
}

/// A footswitch-change frame stores the checksum that belongs to it, and is
/// a frame.
pub proof fn lemma_footswitch_change_frame_checksum(footswitch: u8)
    ensures
        checksum_of(footswitch_change_frame(footswitch)) == footswitch_change_frame(
            footswitch,
        )[5] as int,
        is_frame(footswitch_change_frame(footswitch)),
{
    let f = footswitch_change_frame(footswitch);
    let e = Seq::<u8>::empty();
    lemma_byte_sum_push(e, 0);
    lemma_byte_sum_push(e.push(0), 0x02);
    lemma_byte_sum_push(e.push(0).push(0x02), footswitch);
    lemma_byte_sum_push(e.push(0).push(0x02).push(footswitch), 0);
    assert(summed_region(f) =~= e.push(0).push(0x02).push(footswitch).push(0));
}

/// The bytes of the full status frame for the footswitch state
/// `footswitch`.
pub fn status_bytes(footswitch: u8) -> (bytes: [u8; 9])
    ensures
        bytes@ == status_frame(footswitch),
{
    let mut buf = [MSG_BEGIN, 0, 0, 0, 0, footswitch, 0, 0, MSG_END];
    let ghost blank = buf@;
    let _ = set_checksum(&mut buf);
    proof {
        lemma_status_frame_checksum(footswitch);
        lemma_checksum_ignores_stored(status_frame(footswitch), 0);
        assert(blank =~= status_frame(footswitch).update(7, 0));
        assert(buf@ =~= status_frame(footswitch));
    }
    buf
}

/// The bytes of the frame that reports a change of the footswitch state to
/// `footswitch`.
pub fn footswitch_change_bytes(footswitch: u8) -> (bytes: [u8; 7])
    ensures
        bytes@ == footswitch_change_frame(footswitch),
{
    let mut buf = [MSG_BEGIN, 0, 0x02, footswitch, 0, 0, MSG_END];
    let ghost blank = buf@;
    let _ = set_checksum(&mut buf);
    proof {
        lemma_footswitch_change_frame_checksum(footswitch);
        lemma_checksum_ignores_stored(footswitch_change_frame(footswitch), 0);
        assert(blank =~= footswitch_change_frame(footswitch).update(5, 0));
        assert(buf@ =~= footswitch_change_frame(footswitch));
    }
    buf
}

/// Builds the full status frame for the footswitch state `footswitch`, ready
/// for the queue of frames to be sent.
pub fn status(footswitch: u8) -> (msg: MsgBuf)
    ensures
        msg_bytes(msg) == status_frame(footswitch),
{
    let bytes = status_bytes(footswitch);
    msg_collect(bytes.as_slice())
}

/// Fed byte by byte, a frame stays incomplete at every proper prefix and is
/// complete exactly when its last byte has arrived.
pub proof fn lemma_frame_round_trip(frame: Seq<u8>)
    requires
        is_frame(frame),
    ensures
        forall|k: int|
            0 <= k < frame.len() ==> classify(#[trigger] frame.subrange(0, k), frame.len())
                == RxValidateRes::Incomplete,
        classify(frame, frame.len()) == RxValidateRes::Complete,
{
}

/// Bytes that do not begin with the start marker are invalid at once,
/// whatever the length of the frame that is expected.
pub proof fn lemma_invalid_start(s: Seq<u8>, target: nat)
    requires
        s.len() > 0,
        s[0] != MSG_BEGIN,
    ensures
        classify(s, target) == RxValidateRes::Invalid(RxValidationError::InvalidStart),
{
}

/// Bytes that begin with the start marker and have reached the expected
/// length without ending in the end marker have an invalid end; those that
/// have passed the expected length are too long.
pub proof fn lemma_invalid_end_and_too_long(s: Seq<u8>, target: nat)
    requires
        s.len() > 0,
        s[0] == MSG_BEGIN,
    ensures
        s.len() == target && s[s.len() - 1] != MSG_END ==> classify(s, target)
            == RxValidateRes::Invalid(RxValidationError::InvalidEnd),
        s.len() > target ==> classify(s, target) == RxValidateRes::Invalid(
            RxValidationError::TooLong,
        ),
{
}

} // verus!
