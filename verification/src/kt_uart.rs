//! The session on the half-duplex serial line: one frame at a time is sent
//! byte by byte, each byte confirmed by its echo, then a reply is awaited and
//! assembled. The session never touches the line or the timer itself. It
//! says what it needs from the line, is told what the line answered and what
//! the timer reads, and decides what follows.

use crate::kt_sysex::{RxValidationError, RX_MSG_LEN};
use crate::message::{IncompleteMessageUpdateRes, IncompleteRxMessage};
use crate::queues::{
    msg_as_slice, msg_bytes, msg_collect, rx_frames, rx_new, rx_pop_front, rx_push_back,
    tx_frames, tx_new, tx_pop_front, tx_push_back, MsgBuf, RxQueue, TxQueue, TX_QUEUE_CAPACITY,
};
use crate::session::{SessionView, StateView};
use crate::time::{Instant, MICROS_PER_MILLI};
use vstd::prelude::*;

verus! {

/// Longest wait for the echo of a byte, in microseconds: 20 ms.
pub const ECHO_TIMEOUT_US: u64 = 20 * MICROS_PER_MILLI;

/// Longest wait for the beginning of a reply, in microseconds: 100 ms.
pub const REPLY_TIMEOUT_US: u64 = 100 * MICROS_PER_MILLI;

/// Speed of the line in bits per second.
pub const BAUD_RATE: u32 = 62500;

/// Pause before the one repeated poll that ends a tick, in microseconds:
/// about twice the time that one byte takes on the line.
pub const DELAY_TIME_US: u32 = 2 * 1_000_000 / (BAUD_RATE / 9);

/// What went wrong in the session. Each of these ends the transfer at hand
/// and returns the session to idle; none is fatal.
#[derive(Clone, Copy, Debug, PartialEq, Eq, Structural)]
pub enum SessionError {
    /// The line echoed another byte than the one sent.
    EchoMismatch,
    /// No echo came within the echo timeout.
    EchoTimeout,
    /// No reply began within the reply timeout.
    ReplyTimeout,
    /// The line failed to read a byte.
    IoError,
    /// A queue had no room, and the frame was dropped.
    QueueFull,
    /// A frame without a byte came up for sending, and was given up.
    EmptyFrame,
    /// The received bytes were no frame.
    InvalidFrame(RxValidationError),
}

/// What the session needs from the line before its next step.
#[derive(Clone, Copy, Debug, PartialEq, Eq, Structural)]
pub enum LineRequest {
    /// Look whether data waits to be read and whether a transmission is
    /// under way; read nothing.
    Probe,
    /// Put this byte on the line.
    Write(u8),
    /// Read one byte if data waits to be read.
    Read,
}

/// What the line answered.
#[derive(Clone, Copy, Debug, PartialEq, Eq, Structural)]
pub enum LineEvent {
    /// Answer to a probe.
    Status { readable: bool, busy: bool },
    /// The byte was put on the line.
    Written,
    /// No data waited to be read.
    Quiet,
    /// This byte was read.
    Byte(u8),
    /// Data waited, but reading it failed.
    ReadError,
}

/// How far the transmission of one frame has come.
pub enum SendState {
    /// The byte at the cursor is to be written next.
    Send(MsgBuf, usize),
    /// The byte at the cursor was written at the given time, and its echo is
    /// awaited.
    WaitingEcho(MsgBuf, usize, Instant),
}

/// The state of the session.
pub enum State {
    /// Nothing is under way.
    Idle,
    /// A frame is being sent.
    Sending(SendState),
    /// A frame was sent at the given time, and a reply is awaited.
    WaitReply(Instant),
    /// A frame is being received.
    Receiving(IncompleteRxMessage),
}

impl View for SendState {
    type V = StateView;

    open spec fn view(&self) -> StateView {
        match *self {
            SendState::Send(buf, pos) => StateView::Send {
                frame: msg_bytes(buf),
                cursor: pos as int,
            },
            SendState::WaitingEcho(buf, pos, since) => StateView::WaitingEcho {
                frame: msg_bytes(buf),
                cursor: pos as int,
                since,
            },
        }
    }
}

impl View for State {
    type V = StateView;

    open spec fn view(&self) -> StateView {
        match *self {
            State::Idle => StateView::Idle,
            State::Sending(ss) => ss@,
            State::WaitReply(since) => StateView::WaitReply { since },
            State::Receiving(msg) => StateView::Receiving { received: msg@ },
        }
    }
}

impl LineEvent {
    /// Whether this event is an answer to `request`.
    pub open spec fn answers(self, request: LineRequest) -> bool {
        match request {
            LineRequest::Probe => self is Status,
            LineRequest::Write(b) => self is Written,
            LineRequest::Read => self is Quiet || self is Byte || self is ReadError,
        }
    }
}

/// Whether `event` is an answer to `request`.
pub fn event_answers(event: LineEvent, request: LineRequest) -> (answers: bool)
    ensures
        answers == event.answers(request),
{
    match request {
        LineRequest::Probe => match event {
            LineEvent::Status { .. } => true,
            _ => false,
        },
        LineRequest::Write(_) => match event {
            LineEvent::Written => true,
            _ => false,
        },
        LineRequest::Read => match event {
            LineEvent::Quiet => true,
            LineEvent::Byte(_) => true,
            LineEvent::ReadError => true,
            _ => false,
        },
    }
}

/// What one step made of the session.
pub enum Outcome {
    /// Nothing could be done: the session is as it was.
    Stayed,
    /// The session moved on.
    Moved,
    /// The transfer at hand was given up for this reason, and the session
    /// is idle.
    Aborted(SessionError),
}

/// What the caller of a tick does after one step.
#[derive(Clone, Copy, Debug, PartialEq, Eq, Structural)]
pub enum Pass {
    /// The session moved on, perhaps by giving up for the reason given:
    /// serve its next request at once.
    Progress(Option<SessionError>),
    /// Nothing could be done: pause for this many microseconds, then serve
    /// the request once more.
    Settle(u32),
    /// Nothing could be done, also after the pause: the tick is over.
    Quiescent,
}

/// The session on the serial line, with the queue of frames that wait to be
/// sent and the queue of received frames that wait to be fetched.
pub struct KatanaUart {
    state: State,
    tx_queue: TxQueue,
    rx_queue: RxQueue,
    wait_done: bool,
}

impl View for KatanaUart {
    type V = SessionView;

    closed spec fn view(&self) -> SessionView {
        SessionView {
            state: self.state@,
            outbound: tx_frames(self.tx_queue),
            inbound: rx_frames(self.rx_queue),
            wait_done: self.wait_done,
        }
    }
}

impl KatanaUart {
    #[verifier::type_invariant]
    spec fn inv(self) -> bool {
        self@.well_formed()
    }

    /// An idle session with empty queues, before its first tick.
    pub fn new() -> (session: KatanaUart)
        ensures
            session@ == (SessionView {
                state: StateView::Idle,
                outbound: Seq::empty(),
                inbound: Seq::empty(),
                wait_done: false,
            }),
    {
        KatanaUart {
            state: State::Idle,
            tx_queue: tx_new(),
            rx_queue: rx_new(),
            wait_done: false,
        }
    }

    /// Offers `msg` for sending. It waits behind the frames offered before,
    /// unless the queue is full: then it is dropped, and the error says so.
    pub fn enqueue_send(&mut self, msg: MsgBuf) -> (r: Result<(), SessionError>)
        ensures
            final(self)@ == old(self)@.enqueued(msg_bytes(msg)),
            final(self)@.well_formed(),
            r == if old(self)@.outbound.len() < TX_QUEUE_CAPACITY {
                Ok::<(), SessionError>(())
            } else {
                Err::<(), SessionError>(SessionError::QueueFull)
            },
    {
        proof {
            use_type_invariant(&*self);
        }
        match tx_push_back(&mut self.tx_queue, msg) {
            Ok(()) => Ok(()),
            Err(_) => Err(SessionError::QueueFull),
        }
    }

    /// The state of the session.
    pub fn state(&self) -> (state: &State)
        ensures
            state@ == self@.state,
            state@.well_formed(),
    {
        proof {
            use_type_invariant(self);
        }
        &self.state
    }

    /// What the session needs from the line before its next step.
    pub fn request(&self) -> (request: LineRequest)
        ensures
            request == self@.state.request(),
    {
        proof {
            use_type_invariant(self);
        }
        match &self.state {
            State::Idle => LineRequest::Probe,
            State::WaitReply(_) => LineRequest::Probe,
            State::Sending(SendState::Send(buf, pos)) => {
                let frame = msg_as_slice(buf);
                if *pos < frame.len() {
                    LineRequest::Write(frame[*pos])
                } else {
                    LineRequest::Probe
                }
            },
            State::Sending(SendState::WaitingEcho(_, _, _)) => LineRequest::Read,
            State::Receiving(_) => LineRequest::Read,
        }
    }

    /// Whether a new transmission may begin: nothing waits to be read, and
    /// the line is not transmitting.
    fn safe_to_start_send(readable: bool, busy: bool) -> (safe: bool)
        ensures
            safe == (!readable && !busy),
    {
        !readable && !busy
    }

    /// The step of the idle session.
    fn tick_idle(&mut self, readable: bool, busy: bool) -> (outcome: Outcome)
        requires
            old(self)@.state is Idle,
        ensures
            final(self)@ == old(self)@.step_idle(readable, busy).session,
            outcome == old(self)@.step_idle(readable, busy).outcome,
    {
        proof {
            use_type_invariant(&*self);
        }
        if readable {
            self.state = State::Receiving(IncompleteRxMessage::start_rx());
            Outcome::Moved
        } else if Self::safe_to_start_send(readable, busy) {
            match tx_pop_front(&mut self.tx_queue) {
                Some(msg) => {
                    self.state = State::Sending(SendState::Send(msg, 0));
                    Outcome::Moved
                },
                None => Outcome::Stayed,
            }
        } else {
            Outcome::Stayed
        }
    }

    /// The step while a reply is awaited since `wait_start`.
    fn tick_wait_reply(&mut self, wait_start: Instant, readable: bool, now: Instant) -> (outcome:
        Outcome)
        requires
            old(self)@.state is Idle,
        ensures
            final(self)@ == old(self)@.in_state(
                StateView::WaitReply { since: wait_start },
            ).step_wait_reply(wait_start, readable, now).session,
            outcome == old(self)@.step_wait_reply(wait_start, readable, now).outcome,
    {
        proof {
            use_type_invariant(&*self);
        }
        if readable {
            self.state = State::Receiving(IncompleteRxMessage::start_rx());
            Outcome::Moved
        } else if now.has_elapsed(wait_start, REPLY_TIMEOUT_US) {
            Outcome::Aborted(SessionError::ReplyTimeout)
        } else {
            self.state = State::WaitReply(wait_start);
            Outcome::Stayed
        }
    }

    /// The step while a frame is being sent: after a write, or while an
    /// echo is awaited.
    fn tick_sending(&mut self, ss: SendState, event: LineEvent, now: Instant) -> (outcome:
        Outcome)
        requires
            old(self)@.state is Idle,
            ss@.well_formed(),
            event.answers(ss@.request()),
        ensures
            final(self)@ == old(self)@.in_state(ss@).step(event, now).session,
            outcome == old(self)@.in_state(ss@).step(event, now).outcome,
    {
        proof {
            use_type_invariant(&*self);
        }
        match ss {
            SendState::Send(buf, pos) => {
                if pos < msg_as_slice(&buf).len() {
                    self.state = State::Sending(SendState::WaitingEcho(buf, pos, now));
                    Outcome::Moved
                } else {
                    Outcome::Aborted(SessionError::EmptyFrame)
                }
            },
            SendState::WaitingEcho(buf, pos, wait_started) => {
                match event {
                    LineEvent::Byte(b) => {
                        let sent = msg_as_slice(&buf);
                        if b == sent[pos] {
                            if pos + 1 == sent.len() {
                                self.state = State::WaitReply(now);
                            } else {
                                self.state = State::Sending(SendState::Send(buf, pos + 1));
                            }
                            Outcome::Moved
                        } else {
                            Outcome::Aborted(SessionError::EchoMismatch)
                        }
                    },
                    LineEvent::ReadError => Outcome::Aborted(SessionError::IoError),
                    _ => {
                        if now.has_elapsed(wait_started, ECHO_TIMEOUT_US) {
                            Outcome::Aborted(SessionError::EchoTimeout)
                        } else {
                            self.state = State::Sending(
                                SendState::WaitingEcho(buf, pos, wait_started),
                            );
                            Outcome::Stayed
                        }
                    },
                }
            },
        }
    }

    /// The step while a frame is being received into `msg`.
    fn tick_receiving(&mut self, msg: IncompleteRxMessage, event: LineEvent) -> (outcome:
        Outcome)
        requires
            old(self)@.state is Idle,
            msg@.len() < RX_MSG_LEN,
        ensures
            final(self)@ == old(self)@.in_state(
                StateView::Receiving { received: msg@ },
            ).step_receiving(msg@, event).session,
            outcome == old(self)@.step_receiving(msg@, event).outcome,
    {
        proof {
            use_type_invariant(&*self);
        }
        match event {
            LineEvent::Byte(b) => match msg.update(b) {
                IncompleteMessageUpdateRes::Incomplete(im) => {
                    self.state = State::Receiving(im);
                    Outcome::Moved
                },
                IncompleteMessageUpdateRes::Complete(m) => {
                    let bytes = m.as_bytes();
                    match rx_push_back(&mut self.rx_queue, msg_collect(bytes.as_slice())) {
                        Ok(()) => Outcome::Moved,
                        Err(_) => Outcome::Aborted(SessionError::QueueFull),
                    }
                },
                IncompleteMessageUpdateRes::Invalid(reason) => Outcome::Aborted(
                    SessionError::InvalidFrame(reason),
                ),
            },
            LineEvent::ReadError => Outcome::Aborted(SessionError::IoError),
            _ => {
                self.state = State::Receiving(msg);
                Outcome::Stayed
            },
        }
    }

    /// One pass of a tick: `event` is what the line answered to the request
    /// of the session, `now` what the timer read after that. The result
    /// tells the caller how to go on. A tick is over when a pass says so;
    /// the next pass begins the next tick. An event that does not answer
    /// the request changes nothing.
    pub fn tick(&mut self, event: LineEvent, now: Instant) -> (pass: Pass)
        ensures
            final(self)@ == old(self)@.tick(event, now).session,
            pass == old(self)@.tick(event, now).pass,
            final(self)@.well_formed(),
    {
        proof {
            use_type_invariant(&*self);
        }
        let outcome = if !event_answers(event, self.request()) {
            Outcome::Stayed
        } else {
            let mut state = State::Idle;
            core::mem::swap(&mut self.state, &mut state);
            match state {
                State::Idle => match event {
                    LineEvent::Status { readable, busy } => self.tick_idle(readable, busy),
                    _ => Outcome::Stayed,
                },
                State::Sending(ss) => self.tick_sending(ss, event, now),
                State::Receiving(msg) => self.tick_receiving(msg, event),
                State::WaitReply(wait_start) => match event {
                    LineEvent::Status { readable, busy } => self.tick_wait_reply(
                        wait_start,
                        readable,
                        now,
                    ),
                    _ => Outcome::Stayed,
                },
            }
        };
        proof {
            use_type_invariant(&*self);
        }
        match outcome {
            Outcome::Moved => {
                self.wait_done = false;
                Pass::Progress(None)
            },
            Outcome::Aborted(reason) => {
                self.wait_done = false;
                Pass::Progress(Some(reason))
            },
            Outcome::Stayed => if self.wait_done {
                self.wait_done = false;
                Pass::Quiescent
            } else {
                self.wait_done = true;
                Pass::Settle(DELAY_TIME_US)
            },
        }
    }

    /// Fetches the oldest received frame, if one waits.
    pub fn pop_rx(&mut self) -> (r: Option<MsgBuf>)
        ensures
            r is None <==> old(self)@.inbound.len() == 0,
            r is None ==> final(self)@ == old(self)@,
            r matches Some(msg) ==> msg_bytes(msg) == old(self)@.inbound[0] && final(self)@ == (
            SessionView { inbound: old(self)@.inbound.drop_first(), ..old(self)@ }),
            final(self)@.well_formed(),
    {
        proof {
            use_type_invariant(&*self);
        }
        rx_pop_front(&mut self.rx_queue)
    }
}

} // verus!
