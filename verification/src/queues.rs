//! The fixed-capacity buffers that carry frames between the session and its
//! producers and consumers. The buffers themselves come from `heapless`; this
//! module states what the session relies on.

use vstd::prelude::*;

verus! {

/// `heapless::Vec`, a vector of fixed capacity. Nothing inside it is seen
/// here: what a buffer holds is `msg_bytes`.
#[verifier::external_type_specification]
#[verifier::external_body]
#[verifier::reject_recursive_types(T)]
pub struct ExHeaplessVec<T, const N: usize>(heapless::Vec<T, N>);

/// `heapless::Deque`, a double-ended queue of fixed capacity. Nothing inside
/// it is seen here: what the two queues hold is `tx_frames` and `rx_frames`.
#[verifier::external_type_specification]
#[verifier::external_body]
#[verifier::reject_recursive_types(T)]
pub struct ExHeaplessDeque<T, const N: usize>(heapless::Deque<T, N>);

/// Most bytes that one queued frame can hold.
pub const MSG_BUF_CAPACITY: usize = 16;

/// Most frames that can wait to be sent.
pub const TX_QUEUE_CAPACITY: usize = 5;

/// Most received frames that can wait to be fetched.
pub const RX_QUEUE_CAPACITY: usize = 2;

/// The bytes of one frame as it passes through a queue.
pub type MsgBuf = heapless::Vec<u8, 16>;

/// The queue of frames that wait to be sent.
pub type TxQueue = heapless::Deque<heapless::Vec<u8, 16>, 5>;

/// The queue of received frames that wait to be fetched.
pub type RxQueue = heapless::Deque<heapless::Vec<u8, 16>, 2>;

/// The bytes that `buf` holds, in order.
pub uninterp spec fn msg_bytes(buf: heapless::Vec<u8, 16>) -> Seq<u8>;

/// The frames that wait in `queue`, oldest first, each as its bytes.
pub uninterp spec fn tx_frames(queue: heapless::Deque<heapless::Vec<u8, 16>, 5>) -> Seq<Seq<u8>>;

/// The frames that wait in `queue`, oldest first, each as its bytes.
pub uninterp spec fn rx_frames(queue: heapless::Deque<heapless::Vec<u8, 16>, 2>) -> Seq<Seq<u8>>;

/// `heapless::Vec::as_slice`: the slice holds the bytes of `buf`.
#[verifier::external_body]
pub(crate) fn msg_as_slice(buf: &heapless::Vec<u8, 16>) -> (bytes: &[u8])
    ensures
        bytes@ == msg_bytes(*buf),
{
    buf.as_slice()
}

/// `FromIterator` of `heapless::Vec`, which collects the bytes of `bytes`
/// into a buffer and panics when they are more than the buffer can hold:
/// for bytes that fit, the buffer holds them in their order.
#[verifier::external_body]
pub(crate) fn msg_collect(bytes: &[u8]) -> (buf: heapless::Vec<u8, 16>)
    requires
        bytes@.len() <= MSG_BUF_CAPACITY,
    ensures
        msg_bytes(buf) == bytes@,
{
    bytes.iter().copied().collect()
}

/// `heapless::Deque::new`: a queue in which nothing waits.
#[verifier::external_body]
pub(crate) fn tx_new() -> (queue: heapless::Deque<heapless::Vec<u8, 16>, 5>)
    ensures
        tx_frames(queue) == Seq::<Seq<u8>>::empty(),
{
    heapless::Deque::new()
}

/// `heapless::Deque::push_back`: while fewer frames wait than the queue can
/// hold, `msg` joins them as the newest; otherwise the queue stays as it is
/// and `msg` comes back. It never panics.
#[verifier::external_body]
pub(crate) fn tx_push_back(
    queue: &mut heapless::Deque<heapless::Vec<u8, 16>, 5>,
    msg: heapless::Vec<u8, 16>,
) -> (r: Result<(), heapless::Vec<u8, 16>>)
    ensures
        r is Ok <==> tx_frames(*old(queue)).len() < TX_QUEUE_CAPACITY,
        r is Ok ==> tx_frames(*final(queue)) == tx_frames(*old(queue)).push(msg_bytes(msg)),
        r matches Err(back) ==> msg_bytes(back) == msg_bytes(msg) && tx_frames(*final(queue))
            == tx_frames(*old(queue)),
    no_unwind
{
    queue.push_back(msg)
}

/// `heapless::Deque::pop_front`: the oldest waiting frame leaves the queue
/// and is returned; nothing is returned when nothing waits. It never panics.
#[verifier::external_body]
pub(crate) fn tx_pop_front(queue: &mut heapless::Deque<heapless::Vec<u8, 16>, 5>) -> (r: Option<
    heapless::Vec<u8, 16>,
>)
    ensures
        r is None <==> tx_frames(*old(queue)).len() == 0,
        r is None ==> tx_frames(*final(queue)) == tx_frames(*old(queue)),
        r matches Some(msg) ==> msg_bytes(msg) == tx_frames(*old(queue))[0] && tx_frames(
            *final(queue),
        ) == tx_frames(*old(queue)).drop_first(),
    no_unwind
{
    queue.pop_front()
}

/// `heapless::Deque::new`: a queue in which nothing waits.
#[verifier::external_body]
pub(crate) fn rx_new() -> (queue: heapless::Deque<heapless::Vec<u8, 16>, 2>)
    ensures
        rx_frames(queue) == Seq::<Seq<u8>>::empty(),
{
    heapless::Deque::new()
}

/// `heapless::Deque::push_back`: while fewer frames wait than the queue can
/// hold, `msg` joins them as the newest; otherwise the queue stays as it is
/// and `msg` comes back. It never panics.
#[verifier::external_body]
pub(crate) fn rx_push_back(
    queue: &mut heapless::Deque<heapless::Vec<u8, 16>, 2>,
    msg: heapless::Vec<u8, 16>,
) -> (r: Result<(), heapless::Vec<u8, 16>>)
    ensures
        r is Ok <==> rx_frames(*old(queue)).len() < RX_QUEUE_CAPACITY,
        r is Ok ==> rx_frames(*final(queue)) == rx_frames(*old(queue)).push(msg_bytes(msg)),
        r matches Err(back) ==> msg_bytes(back) == msg_bytes(msg) && rx_frames(*final(queue))
            == rx_frames(*old(queue)),
    no_unwind
{
    queue.push_back(msg)
}

/// `heapless::Deque::pop_front`: the oldest waiting frame leaves the queue
/// and is returned; nothing is returned when nothing waits. It never panics.
#[verifier::external_body]
pub(crate) fn rx_pop_front(queue: &mut heapless::Deque<heapless::Vec<u8, 16>, 2>) -> (r: Option<
    heapless::Vec<u8, 16>,
>)
    ensures
        r is None <==> rx_frames(*old(queue)).len() == 0,
        r is None ==> rx_frames(*final(queue)) == rx_frames(*old(queue)),
        r matches Some(msg) ==> msg_bytes(msg) == rx_frames(*old(queue))[0] && rx_frames(
            *final(queue),
        ) == rx_frames(*old(queue)).drop_first(),
    no_unwind
{
    queue.pop_front()
}

} // verus!
