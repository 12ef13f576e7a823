//! The session over plain values: what each step makes of it, and what
//! holds of every step.

use crate::kt_sysex::{classify, RxValidateRes, RX_MSG_LEN};
use crate::kt_uart::{
    LineEvent, LineRequest, Outcome, Pass, SessionError, DELAY_TIME_US, ECHO_TIMEOUT_US,
    REPLY_TIMEOUT_US,
};
use crate::queues::{RX_QUEUE_CAPACITY, TX_QUEUE_CAPACITY};
use crate::time::{elapsed_more_than, Instant};
use vstd::prelude::*;

verus! {

/// The state of the session over plain values.
pub enum StateView {
    Idle,
    Send { frame: Seq<u8>, cursor: int },
    WaitingEcho { frame: Seq<u8>, cursor: int, since: Instant },
    WaitReply { since: Instant },
    Receiving { received: Seq<u8> },
}

impl StateView {
    /// While a frame is being sent the cursor stands on one of its bytes,
    /// and what is being received is shorter than a frame. A frame without
    /// a byte has no byte for the cursor to stand on: it comes up for
    /// sending with the cursor at its beginning.
    pub open spec fn well_formed(self) -> bool {
        match self {
            StateView::Send { frame, cursor } => 0 <= cursor < frame.len() || (cursor == 0
                && frame.len() == 0),
            StateView::WaitingEcho { frame, cursor, since } => 0 <= cursor < frame.len(),
            StateView::Receiving { received } => received.len() < RX_MSG_LEN,
            _ => true,
        }
    }

    /// What the session in this state needs from the line. A frame without
    /// a byte asks for no write.
    pub open spec fn request(self) -> LineRequest {
        match self {
            StateView::Idle => LineRequest::Probe,
            StateView::WaitReply { since } => LineRequest::Probe,
            StateView::Send { frame, cursor } => if 0 <= cursor < frame.len() {
                LineRequest::Write(frame[cursor])
            } else {
                LineRequest::Probe
            },
            StateView::WaitingEcho { frame, cursor, since } => LineRequest::Read,
            StateView::Receiving { received } => LineRequest::Read,
        }
    }
}

/// The session with its two queues, over plain values.
pub struct SessionView {
    pub state: StateView,
    /// Frames that wait to be sent, oldest first.
    pub outbound: Seq<Seq<u8>>,
    /// Received frames that wait to be fetched, oldest first.
    pub inbound: Seq<Seq<u8>>,
    /// Whether the pause of the tick under way has been taken.
    pub wait_done: bool,
}

/// A session after one step, and what the step was.
pub struct Stepped {
    pub session: SessionView,
    pub outcome: Outcome,
}

impl SessionView {
    /// The session in `state`, its queues as they are, after a move.
    pub open spec fn moved_to(self, state: StateView) -> Stepped {
        Stepped { session: SessionView { state, ..self }, outcome: Outcome::Moved }
    }

    /// The session as it is: no step was possible.
    pub open spec fn stayed(self) -> Stepped {
        Stepped { session: self, outcome: Outcome::Stayed }
    }

    /// The session idle, its queues as they are, after giving up.
    pub open spec fn aborted(self, reason: SessionError) -> Stepped {
        Stepped {
            session: SessionView { state: StateView::Idle, ..self },
            outcome: Outcome::Aborted(reason),
        }
    }

    /// The step of an idle session. Waiting data starts a reception and
    /// goes before anything else. Otherwise the oldest waiting frame starts
    /// to be sent, provided the line is not transmitting.
    pub open spec fn step_idle(self, readable: bool, busy: bool) -> Stepped {
        if readable {
            self.moved_to(StateView::Receiving { received: Seq::empty() })
        } else if self.outbound.len() > 0 && !busy {
            SessionView { outbound: self.outbound.drop_first(), ..self }.moved_to(
                StateView::Send { frame: self.outbound[0], cursor: 0 },
            )
        } else {
            self.stayed()
        }
    }

    /// The step of a session that is to send the byte at the cursor. Once
    /// the byte was written at `now`, its echo is awaited from then on. A
    /// frame without a byte has nothing to write and is given up.
    pub open spec fn step_send(self, frame: Seq<u8>, cursor: int, now: Instant) -> Stepped {
        if 0 <= cursor < frame.len() {
            self.moved_to(StateView::WaitingEcho { frame, cursor, since: now })
        } else {
            self.aborted(SessionError::EmptyFrame)
        }
    }

    /// The step while the echo of the byte at the cursor is awaited. The
    /// right echo moves the cursor on, or ends the transmission after the
    /// last byte and lets the wait for a reply begin at `now`. A wrong
    /// echo, a failed read, or silence for longer than the echo timeout
    /// gives the frame up.
    pub open spec fn step_waiting_echo(
        self,
        frame: Seq<u8>,
        cursor: int,
        since: Instant,
        event: LineEvent,
        now: Instant,
    ) -> Stepped {
        match event {
            LineEvent::Byte(b) => if b != frame[cursor] {
                self.aborted(SessionError::EchoMismatch)
            } else if cursor + 1 == frame.len() {
                self.moved_to(StateView::WaitReply { since: now })
            } else {
                self.moved_to(StateView::Send { frame, cursor: cursor + 1 })
            },
            LineEvent::ReadError => self.aborted(SessionError::IoError),
            _ => if elapsed_more_than(since, now, ECHO_TIMEOUT_US) {
                self.aborted(SessionError::EchoTimeout)
            } else {
                self.stayed()
            },
        }
    }

    /// The step while a reply is awaited: waiting data starts a reception,
    /// silence for longer than the reply timeout gives the wait up.
    pub open spec fn step_wait_reply(self, since: Instant, readable: bool, now: Instant) -> Stepped {
        if readable {
            self.moved_to(StateView::Receiving { received: Seq::empty() })
        } else if elapsed_more_than(since, now, REPLY_TIMEOUT_US) {
            self.aborted(SessionError::ReplyTimeout)
        } else {
            self.stayed()
        }
    }

    /// The step while a frame is being received. A byte that leaves the
    /// frame incomplete is kept. A byte that completes the frame puts the
    /// frame into the inbound queue, or drops it when the queue is full;
    /// either way the session is idle again. Bytes that are no frame, and
    /// a failed read, give the reception up.
    pub open spec fn step_receiving(self, received: Seq<u8>, event: LineEvent) -> Stepped {
        match event {
            LineEvent::Byte(b) => match classify(received.push(b), RX_MSG_LEN as nat) {
                RxValidateRes::Incomplete => self.moved_to(
                    StateView::Receiving { received: received.push(b) },
                ),
                RxValidateRes::Complete => if self.inbound.len() < RX_QUEUE_CAPACITY {
                    SessionView { inbound: self.inbound.push(received.push(b)), ..self }.moved_to(
                        StateView::Idle,
                    )
                } else {
                    self.aborted(SessionError::QueueFull)
                },
                RxValidateRes::Invalid(reason) => self.aborted(
                    SessionError::InvalidFrame(reason),
                ),
            },
            LineEvent::ReadError => self.aborted(SessionError::IoError),
            _ => self.stayed(),
        }
    }

    /// The session in `state`, its queues as they are.
    pub open spec fn in_state(self, state: StateView) -> SessionView {
        SessionView { state, ..self }
    }

    /// The step of the session in whatever state it is, on the answer
    /// `event` of the line and the timer reading `now`. An event that does
    /// not answer what the session asked of the line is ignored.
    pub open spec fn step(self, event: LineEvent, now: Instant) -> Stepped {
        if !event.answers(self.state.request()) {
            self.stayed()
        } else {
            match self.state {
                StateView::Idle => self.step_idle(event->readable, event->busy),
                StateView::Send { frame, cursor } => self.step_send(frame, cursor, now),
                StateView::WaitingEcho { frame, cursor, since } => self.step_waiting_echo(
                    frame,
                    cursor,
                    since,
                    event,
                    now,
                ),
                StateView::WaitReply { since } => self.step_wait_reply(
                    since,
                    event->readable,
                    now,
                ),
                StateView::Receiving { received } => self.step_receiving(received, event),
            }
        }
    }
}

impl SessionView {
    /// No queue holds more than its capacity, and the state is well
    /// formed.
    pub open spec fn well_formed(self) -> bool {
        &&& self.state.well_formed()
        &&& self.outbound.len() <= TX_QUEUE_CAPACITY
        &&& self.inbound.len() <= RX_QUEUE_CAPACITY
    }

    /// Why a frame cannot join the frames that wait to be sent, if it
    /// cannot: the queue is full.
    pub open spec fn refusal(self) -> Option<SessionError> {
        if self.outbound.len() >= TX_QUEUE_CAPACITY {
            Some(SessionError::QueueFull)
        } else {
            None
        }
    }

    /// The session after `frame` was offered for sending: it waits behind
    /// the frames that waited before, unless the queue is full, in which
    /// case nothing changes.
    pub open spec fn enqueued(self, frame: Seq<u8>) -> SessionView {
        if self.refusal() is None {
            SessionView { outbound: self.outbound.push(frame), ..self }
        } else {
            self
        }
    }
}

/// A session after one pass of a tick, and what its caller does next.
pub struct Ticked {
    pub session: SessionView,
    pub pass: Pass,
}

impl SessionView {
    /// One pass of a tick: the step on `event` and `now`, and the pause.
    /// Where the step changed nothing, the pause is asked for if this tick
    /// has not taken it yet, and the tick is over if it has. After any
    /// other step, and when the tick is over, the pause is still to come.
    pub open spec fn tick(self, event: LineEvent, now: Instant) -> Ticked {
        let stepped = self.step(event, now);
        Ticked {
            session: SessionView {
                wait_done: stepped.outcome is Stayed && !self.wait_done,
                ..stepped.session
            },
            pass: pass_for(stepped.outcome, self.wait_done),
        }
    }
}

/// What the caller of a tick does after a step with the given outcome.
/// `wait_done` tells whether the pause of this tick had been taken.
pub open spec fn pass_for(outcome: Outcome, wait_done: bool) -> Pass {
    match outcome {
        Outcome::Moved => Pass::Progress(None),
        Outcome::Aborted(reason) => Pass::Progress(Some(reason)),
        Outcome::Stayed => if wait_done {
            Pass::Quiescent
        } else {
            Pass::Settle(DELAY_TIME_US)
        },
    }
}

impl SessionView {
    /// The session after the frames of `frames` were offered for sending
    /// one after the other.
    pub open spec fn enqueued_all(self, frames: Seq<Seq<u8>>) -> SessionView
        decreases frames.len(),
    {
        if frames.len() == 0 {
            self
        } else {
            self.enqueued(frames[0]).enqueued_all(frames.drop_first())
        }
    }
}

/// Every step leaves a well-formed session well formed: no queue ever holds
/// more than its capacity, and the cursor of a transmission never leaves
/// the frame.
pub proof fn lemma_step_preserves_well_formed(session: SessionView, event: LineEvent, now: Instant)
    requires
        session.well_formed(),
    ensures
        session.step(event, now).session.well_formed(),
        session.tick(event, now).session.well_formed(),
{
}

/// A tick pauses once at most, and ends at the first pass after the pause
/// that changes nothing: a pass asks for the pause only where the tick has
/// not taken it, the pass after a pause never asks for another, and it ends
/// the tick if it changes nothing. After the end of a tick, and after any
/// pass that changed something, the pause is still to come.
pub proof fn lemma_pause_once(
    session: SessionView,
    event: LineEvent,
    now: Instant,
    next_event: LineEvent,
    later: Instant,
)
    ensures
        session.tick(event, now).pass is Settle ==> {
            &&& !session.wait_done
            &&& session.tick(event, now).session == (SessionView { wait_done: true, ..session })
            &&& !(session.tick(event, now).session.tick(next_event, later).pass is Settle)
            &&& session.tick(event, now).session.step(next_event, later).outcome is Stayed
                ==> session.tick(event, now).session.tick(next_event, later).pass
                == Pass::Quiescent
        },
        !(session.tick(event, now).pass is Settle) ==> !session.tick(event, now).session.wait_done,
        session.tick(event, now).pass is Quiescent ==> session.wait_done && session.tick(
            event,
            now,
        ).session == (SessionView { wait_done: false, ..session }),
{
}

/// Only an idle session on a line that is neither readable nor busy takes a
/// frame from those that wait to be sent: one frame at most is under way,
/// and waiting data goes before a new transmission.
pub proof fn lemma_one_frame_under_way(session: SessionView, event: LineEvent, now: Instant)
    ensures
        session.step(event, now).session.outbound != session.outbound ==> {
            &&& session.state is Idle
            &&& event == (LineEvent::Status { readable: false, busy: false })
            &&& session.outbound.len() > 0
            &&& session.step(event, now).session.outbound == session.outbound.drop_first()
            &&& session.step(event, now).session.state == (StateView::Send {
                frame: session.outbound[0],
                cursor: 0,
            })
        },
{
}

/// A frame without a byte that has come up for sending is given up at the
/// next step, whatever the line answered: nothing is written, the session
/// is idle, and the queues are as before.
pub proof fn lemma_empty_frame_given_up(session: SessionView, readable: bool, busy: bool, now: Instant)
    requires
        session.state == (StateView::Send { frame: Seq::<u8>::empty(), cursor: 0 }),
    ensures
        session.state.request() == LineRequest::Probe,
        session.step(LineEvent::Status { readable, busy }, now).outcome == Outcome::Aborted(
            SessionError::EmptyFrame,
        ),
        session.step(LineEvent::Status { readable, busy }, now).session == session.in_state(
            StateView::Idle,
        ),
{
}

/// Offering a frame for sending leaves a well-formed session well formed.
pub proof fn lemma_enqueued_preserves_well_formed(session: SessionView, frame: Seq<u8>)
    requires
        session.well_formed(),
    ensures
        session.enqueued(frame).well_formed(),
{
}

/// While the echo of a byte is awaited and the line stays silent, the
/// session gives the frame up, reports the echo timeout and is idle as soon
/// as more than the echo timeout has passed since the byte was written;
/// until then it stays as it is. The frame given up is gone: the queues are
/// as before.
pub proof fn lemma_echo_timeout(session: SessionView, now: Instant)
    requires
        session.state is WaitingEcho,
    ensures
        elapsed_more_than(session.state->WaitingEcho_since, now, ECHO_TIMEOUT_US) ==> {
            &&& session.step(LineEvent::Quiet, now).outcome == Outcome::Aborted(
                SessionError::EchoTimeout,
            )
            &&& session.step(LineEvent::Quiet, now).session == session.in_state(StateView::Idle)
        },
        !elapsed_more_than(session.state->WaitingEcho_since, now, ECHO_TIMEOUT_US) ==> {
            &&& session.step(LineEvent::Quiet, now).outcome == Outcome::Stayed
            &&& session.step(LineEvent::Quiet, now).session == session
        },
{
}

/// While a reply is awaited and nothing waits to be read, the session gives
/// the wait up, reports the reply timeout and is idle as soon as more than
/// the reply timeout has passed since the frame was sent; until then it
/// stays as it is. Nothing is sent again: the queues are as before.
pub proof fn lemma_reply_timeout(session: SessionView, busy: bool, now: Instant)
    requires
        session.state is WaitReply,
    ensures
        elapsed_more_than(session.state->WaitReply_since, now, REPLY_TIMEOUT_US) ==> {
            &&& session.step(LineEvent::Status { readable: false, busy }, now).outcome
                == Outcome::Aborted(SessionError::ReplyTimeout)
            &&& session.step(LineEvent::Status { readable: false, busy }, now).session
                == session.in_state(StateView::Idle)
        },
        !elapsed_more_than(session.state->WaitReply_since, now, REPLY_TIMEOUT_US) ==> {
            &&& session.step(LineEvent::Status { readable: false, busy }, now).outcome
                == Outcome::Stayed
            &&& session.step(LineEvent::Status { readable: false, busy }, now).session
                == session
        },
{
}

/// Of the frames offered for sending, those for which the queue has room
/// are kept in the order in which they were offered, behind the frames that
/// waited before; the others are dropped.
pub proof fn lemma_enqueued_all(session: SessionView, frames: Seq<Seq<u8>>)
    requires
        session.outbound.len() <= TX_QUEUE_CAPACITY,
    ensures
        session.enqueued_all(frames).outbound == (session.outbound + frames).take(
            if session.outbound.len() + frames.len() <= TX_QUEUE_CAPACITY {
                (session.outbound.len() + frames.len()) as int
            } else {
                TX_QUEUE_CAPACITY as int
            },
        ),
        session.enqueued_all(frames).state == session.state,
        session.enqueued_all(frames).inbound == session.inbound,
        session.enqueued_all(frames).wait_done == session.wait_done,
    decreases frames.len(),
{
    if frames.len() == 0 {
        assert(session.outbound + frames =~= session.outbound);
        assert(session.outbound.take(session.outbound.len() as int) =~= session.outbound);
    } else {
        let next = session.enqueued(frames[0]);
        let rest = frames.drop_first();
        lemma_enqueued_all(next, rest);
        if session.outbound.len() < TX_QUEUE_CAPACITY {
            assert(next.outbound + rest =~= session.outbound + frames);
        } else {
            assert((next.outbound + rest).take(TX_QUEUE_CAPACITY as int) =~= (session.outbound
                + frames).take(TX_QUEUE_CAPACITY as int));
        }
    }
}

} // verus!
