//! Frames of a fixed length, and their assembly from single bytes.

use crate::kt_sysex::{
    classify, footswitch_change_bytes, footswitch_change_frame, is_frame,
    lemma_footswitch_change_frame_checksum, lemma_status_frame_checksum, status_bytes,
    status_frame, validate, RxValidateRes, RxValidationError, MSG_BEGIN, RX_MSG_LEN,
};
use vstd::prelude::*;

verus! {

/// A whole, valid frame of `LEN` bytes.
pub struct Message<const LEN: usize> {
    buf: [u8; LEN],
}

/// A frame as the amplifier sends it.
pub type RxMessage = Message<6>;

/// The bytes received so far for a frame of `EXPECTED_LEN` bytes.
pub struct IncompleteMessage<const EXPECTED_LEN: usize> {
    buf: [u8; EXPECTED_LEN],
    len: usize,
}

/// The bytes received so far for a frame from the amplifier.
pub type IncompleteRxMessage = IncompleteMessage<6>;

/// What one more byte made of the bytes received so far.
pub enum IncompleteMessageUpdateRes<const LEN: usize> {
    /// More bytes are needed; assembly goes on with this value.
    Incomplete(IncompleteMessage<LEN>),
    /// The byte completed this frame.
    Complete(Message<LEN>),
    /// The bytes are no frame and are dropped.
    Invalid(RxValidationError),
}

impl<const LEN: usize> View for Message<LEN> {
    type V = Seq<u8>;

    closed spec fn view(&self) -> Seq<u8> {
        self.buf@
    }
}

impl<const LEN: usize> Clone for Message<LEN> {
    fn clone(&self) -> (copy: Self)
        ensures
            copy@ == self@,
    {
        proof {
            use_type_invariant(self);
        }
        Message { buf: self.buf }
    }
}

impl<const LEN: usize> Message<LEN> {
    #[verifier::type_invariant]
    spec fn well_formed(self) -> bool {
        is_frame(self.buf@)
    }

    /// Hands out the bytes of the frame.
    pub fn as_bytes(self) -> (bytes: [u8; LEN])
        ensures
            bytes@ == self@,
            is_frame(bytes@),
    {
        proof {
            use_type_invariant(&self);
        }
        self.buf
    }
}

impl RxMessage {
    /// The LED status that the frame reports, if it is a status report: the
    /// byte at index 3 where the bytes at indices 1 and 2 are both zero.
    pub fn led_status(&self) -> (status: Option<u8>)
        ensures
            status == led_status_of(self@),
    {
        if self.buf[1] != 0x00 || self.buf[2] != 0x00 {
            None
        } else {
            Some(self.buf[3])
        }
    }
}

/// The LED status that the six bytes of a frame from the amplifier report.
pub open spec fn led_status_of(frame: Seq<u8>) -> Option<u8>
    recommends
        frame.len() == RX_MSG_LEN,
{
    if frame[1] == 0 && frame[2] == 0 {
        Some(frame[3])
    } else {
        None
    }
}

/// Builds the full status frame for the footswitch state `footswitch`.
pub fn status(footswitch: u8) -> (msg: Message<9>)
    ensures
        msg@ == status_frame(footswitch),
{
    proof {
        lemma_status_frame_checksum(footswitch);
    }
    Message { buf: status_bytes(footswitch) }
}

/// Builds the frame that reports a change of the footswitch state to
/// `footswitch`.
pub fn footswitch_change(footswitch: u8) -> (msg: Message<7>)
    ensures
        msg@ == footswitch_change_frame(footswitch),
{
    proof {
        lemma_footswitch_change_frame_checksum(footswitch);
    }
    Message { buf: footswitch_change_bytes(footswitch) }
}

impl<const EXPECTED_LEN: usize> View for IncompleteMessage<EXPECTED_LEN> {
    type V = Seq<u8>;

    /// The bytes received so far, oldest first.
    closed spec fn view(&self) -> Seq<u8> {
        self.buf@.subrange(0, self.len as int)
    }
}

impl<const EXPECTED_LEN: usize> Clone for IncompleteMessage<EXPECTED_LEN> {
    fn clone(&self) -> (copy: Self)
        ensures
            copy@ == self@,
    {
        proof {
            use_type_invariant(self);
        }
        IncompleteMessage { buf: self.buf, len: self.len }
    }
}

/// `r` is what the assembler owes for the received bytes `bytes`: their
/// classification, carrying the bytes along where they are kept.
pub open spec fn is_update_of<const LEN: usize>(
    r: IncompleteMessageUpdateRes<LEN>,
    bytes: Seq<u8>,
) -> bool {
    match classify(bytes, LEN as nat) {
        RxValidateRes::Incomplete => r matches IncompleteMessageUpdateRes::Incomplete(acc)
            && acc@ == bytes,
        RxValidateRes::Complete => r matches IncompleteMessageUpdateRes::Complete(msg) && msg@
            == bytes,
        RxValidateRes::Invalid(reason) => r matches IncompleteMessageUpdateRes::Invalid(e) && e
            == reason,
    }
}

impl<const EXPECTED_LEN: usize> IncompleteMessage<EXPECTED_LEN> {
    #[verifier::type_invariant]
    spec fn well_formed(self) -> bool {
        self.len <= EXPECTED_LEN
    }

    /// Classifies the bytes received so far.
    fn validate(self) -> (r: IncompleteMessageUpdateRes<EXPECTED_LEN>)
        ensures
            is_update_of(r, self@),
    {
        proof {
            use_type_invariant(&self);
        }
        let received = vstd::slice::slice_subrange(self.buf.as_slice(), 0, self.len);
        match validate(received, EXPECTED_LEN) {
            RxValidateRes::Incomplete => IncompleteMessageUpdateRes::Incomplete(self),
            RxValidateRes::Complete => {
                assert(self.buf@ =~= self@);
                IncompleteMessageUpdateRes::Complete(Message { buf: self.buf })
            },
            RxValidateRes::Invalid(reason) => IncompleteMessageUpdateRes::Invalid(reason),
        }
    }

    /// Starts the assembly of a frame: nothing received yet.
    pub fn start_rx() -> (fresh: Self)
        ensures
            fresh@ == Seq::<u8>::empty(),
    {
        IncompleteMessage { buf: [0u8;EXPECTED_LEN], len: 0 }
    }

    /// Takes one more received byte and classifies what has been received
    /// with it. A byte for which there is no room left is not stored; the
    /// bytes are then too long, unless they never began with the start
    /// marker.
    pub fn update(self, b: u8) -> (r: IncompleteMessageUpdateRes<EXPECTED_LEN>)
        ensures
            is_update_of(r, self@.push(b)),
    {
        proof {
            use_type_invariant(&self);
        }
        if self.len >= EXPECTED_LEN {
            let first = if self.len == 0 {
                b
            } else {
                self.buf[0]
            };
            if first != MSG_BEGIN {
                IncompleteMessageUpdateRes::Invalid(RxValidationError::InvalidStart)
            } else {
                IncompleteMessageUpdateRes::Invalid(RxValidationError::TooLong)
            }
        } else {
            let mut buf = self.buf;
            buf[self.len] = b;
            let grown = IncompleteMessage { buf, len: self.len + 1 };
            assert(grown@ =~= self@.push(b));
            grown.validate()
        }
    }

    /// The bytes received so far, oldest first.
    pub fn as_slice(&self) -> (received: &[u8])
        ensures
            received@ == self@,
    {
        proof {
            use_type_invariant(self);
        }
        vstd::slice::slice_subrange(self.buf.as_slice(), 0, self.len)
    }

    /// Number of bytes received so far.
    pub fn len(&self) -> (n: usize)
        ensures
            n == self@.len(),
            n <= EXPECTED_LEN,
    {
        proof {
            use_type_invariant(self);
        }
        self.len
    }

    /// Whether nothing has been received yet.
    #[must_use]
    pub fn is_empty(&self) -> (empty: bool)
        ensures
            empty == (self@.len() == 0),
    {
        self.len() == 0
    }
}

} // verus!
