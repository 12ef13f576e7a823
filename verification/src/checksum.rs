//! The 7-bit checksum that guards every frame.

use vstd::prelude::*;

verus! {

/// Number of bytes that surround the summed region: the start marker in
/// front, the checksum byte and the end marker behind.
pub const FRAMING_LEN: usize = 3;

/// The message is too short to hold a checksum.
#[derive(Clone, Copy, Debug, PartialEq, Eq, Structural)]
pub struct MessageTooShort;

/// Sum of all bytes of `s`.
pub open spec fn byte_sum(s: Seq<u8>) -> int
    decreases s.len(),
{
    if s.len() == 0 {
        0
    } else {
        byte_sum(s.drop_last()) + s.last() as int
    }
}

/// The summed region of a message: every byte strictly between the start
/// marker and the checksum byte.
pub open spec fn summed_region(msg: Seq<u8>) -> Seq<u8>
    recommends
        msg.len() >= FRAMING_LEN,
{
    msg.subrange(1, msg.len() - 2)
}

/// The checksum that belongs to `msg`: the 7-bit two's complement of the sum
/// over its summed region.
pub open spec fn checksum_of(msg: Seq<u8>) -> int
    recommends
        msg.len() >= FRAMING_LEN,
{
    (0x80 - byte_sum(summed_region(msg)) % 0x80) % 0x80
}

/// `msg` is long enough to hold a checksum, and the byte in front of the end
/// marker is the checksum that belongs to it.
pub open spec fn checksum_matches(msg: Seq<u8>) -> bool {
    msg.len() >= FRAMING_LEN && msg[msg.len() - 2] as int == checksum_of(msg)
}

/// Extending a region by one byte adds that byte to the sum.
proof fn lemma_byte_sum_step(msg: Seq<u8>, i: int)
    requires
        1 <= i < msg.len(),
    ensures
        byte_sum(msg.subrange(1, i + 1)) == byte_sum(msg.subrange(1, i)) + msg[i] as int,
{
    assert(msg.subrange(1, i + 1).drop_last() =~= msg.subrange(1, i));
}

/// Computes the checksum of `msg`, or fails when `msg` has fewer than three
/// bytes.
pub fn checksum(msg: &[u8]) -> (r: Result<u8, MessageTooShort>)
    ensures
        r is Err <==> msg@.len() < FRAMING_LEN,
        r matches Ok(c) ==> c as int == checksum_of(msg@),
{
    let len = msg.len();
    if len < FRAMING_LEN {
        return Err(MessageTooShort);
    }
    let mut acc: u8 = 0;
    let mut i: usize = 1;
    while i < len - 2
        invariant
            len == msg@.len(),
            len >= FRAMING_LEN,
            1 <= i <= len - 2,
            acc < 0x80,
            acc as int == byte_sum(msg@.subrange(1, i as int)) % 0x80,
        decreases len - i,
    {
        proof {
            lemma_byte_sum_step(msg@, i as int);
        }
        acc = ((acc as u16 + msg[i] as u16) % 0x80) as u8;
        i += 1;
    }
    Ok(((0x80 - acc as u16) % 0x80) as u8)
}

/// Tells whether the checksum byte stored in `msg` is the one that belongs to
/// it. A message too short to hold a checksum never validates.
pub fn validate_checksum(msg: &[u8]) -> (ok: bool)
    ensures
        ok == checksum_matches(msg@),
{
    match checksum(msg) {
        Ok(ours) => {
            let theirs = msg[msg.len() - 2];
            theirs == ours
        },
        Err(_) => false,
    }
}

/// Writes the checksum that belongs to `msg` into the byte in front of its
/// end marker, or fails and leaves `msg` alone when it has fewer than three
/// bytes.
pub fn set_checksum(msg: &mut [u8]) -> (r: Result<(), MessageTooShort>)
    ensures
        r is Err <==> old(msg)@.len() < FRAMING_LEN,
        r is Err ==> final(msg)@ == old(msg)@,
        r is Ok ==> final(msg)@ == old(msg)@.update(
            old(msg)@.len() - 2,
            checksum_of(old(msg)@) as u8,
        ),
        r is Ok ==> checksum_matches(final(msg)@),
{
    let chksum = match checksum(msg) {
        Ok(c) => c,
        Err(e) => {
            return Err(e);
        },
    };
    let len = msg.len();
    proof {
        lemma_checksum_ignores_stored(msg@, chksum);
    }
    msg[len - 2] = chksum;
    Ok(())
}

/// The checksum of a message does not depend on the checksum byte that the
/// message stores.
pub proof fn lemma_checksum_ignores_stored(msg: Seq<u8>, stored: u8)
    requires
        msg.len() >= FRAMING_LEN,
    ensures
        checksum_of(msg.update(msg.len() - 2, stored)) == checksum_of(msg),
{
    assert(summed_region(msg.update(msg.len() - 2, stored)) =~= summed_region(msg));
}

/// Appending a byte adds it to the sum.
pub proof fn lemma_byte_sum_push(s: Seq<u8>, b: u8)
    ensures
        byte_sum(s.push(b)) == byte_sum(s) + b as int,
{
    assert(s.push(b).drop_last() =~= s);
}

} // verus!
