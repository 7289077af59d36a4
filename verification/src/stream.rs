//! The frame streaming loop: one frame is captured and sent per iteration, and a
//! session gives up once too many sends have failed in a row.
//!
//! The loop is written against one capability, "send a frame", whichever transport
//! provides it. The program that owns the transport performs the capture and the
//! send and reports what happened; the state machine here counts consecutive
//! failures and decides when the session ends.

use vstd::prelude::*;

use crate::error::TransportError;
use crate::limits::Limits;

verus! {

/// Why a streaming session ended.
#[derive(Clone, Copy, Debug, PartialEq, Eq, Structural)]
pub enum StreamEnd {
    /// The cancellation flag was seen at an iteration boundary.
    Cancelled,
    /// Sends failed as many times in a row as the threshold allows; this is the
    /// error of the last one.
    TransportFailed(TransportError),
}

/// State of the streaming loop of one session.
#[derive(Clone, Copy, Debug, PartialEq, Eq, Structural)]
pub enum StreamState {
    /// The session streams; `failures` sends have failed since the last one that
    /// succeeded.
    Running { failures: u32 },
    /// The session is over.
    Ended(StreamEnd),
}

/// What one iteration of the loop reports.
#[derive(Clone, Copy, Debug, PartialEq, Eq, Structural)]
pub enum StreamEvent {
    /// The cancellation flag was found set at the iteration boundary.
    Cancelled,
    /// No frame could be captured; nothing was sent.
    CaptureFailed,
    /// A frame was captured and sent.
    FrameSent,
    /// A frame was captured and the send failed.
    SendFailed(TransportError),
}

/// What the owner of the transport has to do next.
#[derive(Clone, Copy, Debug, PartialEq, Eq, Structural)]
pub enum StreamAction {
    /// Capture one frame and send it.
    CaptureAndSend,
    /// Leave the loop.
    Finish,
}

impl StreamState {
    /// The state of a session that has not sent anything yet.
    pub open spec fn spec_start() -> StreamState {
        StreamState::Running { failures: 0 }
    }

    /// The action that the state calls for.
    pub open spec fn spec_next_action(self) -> StreamAction {
        match self {
            StreamState::Running { .. } => StreamAction::CaptureAndSend,
            StreamState::Ended(_) => StreamAction::Finish,
        }
    }

    /// The state after one iteration. A failed capture leaves the counter alone; a
    /// send that succeeds resets it; a send that fails increments it, and ends the
    /// session when the threshold is reached. A session that is over stays so.
    pub open spec fn spec_on_event(self, event: StreamEvent, limits: Limits) -> StreamState {
        match self {
            StreamState::Running { failures } => match event {
                StreamEvent::Cancelled => StreamState::Ended(StreamEnd::Cancelled),
                StreamEvent::CaptureFailed => self,
                StreamEvent::FrameSent => StreamState::Running { failures: 0 },
                StreamEvent::SendFailed(error) => if failures + 1 >= limits.spec_fatal_failures() {
                    StreamState::Ended(StreamEnd::TransportFailed(error))
                } else {
                    StreamState::Running { failures: (failures + 1) as u32 }
                },
            },
            StreamState::Ended(_) => self,
        }
    }

    /// The number of sends that may still fail in a row before the session ends;
    /// none once it has ended.
    pub open spec fn spec_failures_left(self, limits: Limits) -> nat {
        match self {
            StreamState::Running { failures } => if failures < limits.spec_fatal_failures() {
                (limits.spec_fatal_failures() - failures) as nat
            } else {
                0
            },
            StreamState::Ended(_) => 0,
        }
    }

    /// The state of a session that has not sent anything yet.
    pub fn start() -> (state: StreamState)
        ensures
            state == StreamState::spec_start(),
    {
        StreamState::Running { failures: 0 }
    }

    /// The action that the owner of the transport has to perform in this state.
    pub fn next_action(&self) -> (action: StreamAction)
        ensures
            action == self.spec_next_action(),
    {
        match self {
            StreamState::Running { .. } => StreamAction::CaptureAndSend,
            StreamState::Ended(_) => StreamAction::Finish,
        }
    }

    /// The number of sends that may still fail in a row before the session ends.
    pub fn failures_left(&self, limits: &Limits) -> (left: u32)
        ensures
            left == self.spec_failures_left(*limits),
    {
        match self {
            StreamState::Running { failures } => {
                let fatal: u32 = limits.fatal_failures();
                if *failures < fatal {
                    fatal - *failures
                } else {
                    0
                }
            },
            StreamState::Ended(_) => 0,
        }
    }

    /// Takes what one iteration reported and moves to the state that follows.
    pub fn on_event(self, event: StreamEvent, limits: &Limits) -> (next: StreamState)
        ensures
            next == self.spec_on_event(event, *limits),
    {
        match self {
            StreamState::Running { failures } => match event {
                StreamEvent::Cancelled => StreamState::Ended(StreamEnd::Cancelled),
                StreamEvent::CaptureFailed => self,
                StreamEvent::FrameSent => StreamState::Running { failures: 0 },
                StreamEvent::SendFailed(error) => if failures >= limits.fatal_failures() - 1 {
                    StreamState::Ended(StreamEnd::TransportFailed(error))
                } else {
                    StreamState::Running { failures: failures + 1 }
                },
            },
            StreamState::Ended(_) => self,
        }
    }
}

/// The state that a session reaches from `state` when `events` are reported in
/// order.
pub open spec fn spec_run(state: StreamState, events: Seq<StreamEvent>, limits: Limits) -> StreamState
    decreases events.len(),
{
    if events.len() == 0 {
        state
    } else {
        spec_run(state, events.drop_last(), limits).spec_on_event(events.last(), limits)
    }
}

/// The number of failed sends at the end of `events` that no successful send
/// interrupts. Failed captures in between do not count and do not interrupt.
pub open spec fn spec_trailing_failures(events: Seq<StreamEvent>) -> nat
    decreases events.len(),
{
    if events.len() == 0 {
        0
    } else {
        match events.last() {
            StreamEvent::SendFailed(_) => spec_trailing_failures(events.drop_last()) + 1,
            StreamEvent::FrameSent => 0,
            _ => spec_trailing_failures(events.drop_last()),
        }
    }
}

/// Whether, at some point of `events`, as many sends had failed in a row as the
/// threshold allows.
pub open spec fn spec_threshold_reached(events: Seq<StreamEvent>, limits: Limits) -> bool {
    exists|k: int|
        0 <= k <= events.len() && spec_trailing_failures(#[trigger] events.take(k))
            >= limits.spec_fatal_failures()
}

/// A session that is not cancelled ends exactly when as many sends have failed in a
/// row as the threshold allows: never on fewer, always at that one. Until then its
/// counter is the number of failed sends since the last successful one, so every
/// successful send brings it back to zero.
pub proof fn lemma_session_ends_at_threshold(events: Seq<StreamEvent>, limits: Limits)
    requires
        forall|i: int| 0 <= i < events.len() ==> !(#[trigger] events[i] is Cancelled),
    ensures
        ({
            let end = spec_run(StreamState::spec_start(), events, limits);
            if spec_threshold_reached(events, limits) {
                end is Ended && end->Ended_0 is TransportFailed
            } else {
                end == (StreamState::Running { failures: spec_trailing_failures(events) as u32 })
                    && spec_trailing_failures(events) < limits.spec_fatal_failures()
            }
        }),
    decreases events.len(),
{
    let threshold = limits.spec_fatal_failures();
    if events.len() == 0 {
        assert forall|k: int| 0 <= k <= events.len() implies spec_trailing_failures(
            #[trigger] events.take(k),
        ) < threshold by {
            assert(events.take(k) =~= events);
        }
    } else {
        let before = events.drop_last();
        lemma_session_ends_at_threshold(before, limits);
        assert forall|k: int| 0 <= k <= before.len() implies #[trigger] events.take(k)
            == before.take(k) by {
            assert(events.take(k) =~= before.take(k));
        }
        assert(events.take(events.len() as int) =~= events);
        if spec_threshold_reached(before, limits) {
            let k = choose|k: int|
                0 <= k <= before.len() && spec_trailing_failures(#[trigger] before.take(k))
                    >= threshold;
            assert(events.take(k) == before.take(k));
        } else {
            assert(before.take(before.len() as int) =~= before);
            if spec_trailing_failures(events) >= threshold {
                assert(spec_trailing_failures(events.take(events.len() as int)) >= threshold);
            } else {
                assert forall|k: int| 0 <= k <= events.len() implies spec_trailing_failures(
                    #[trigger] events.take(k),
                ) < threshold by {
                    if k <= before.len() {
                        assert(events.take(k) == before.take(k));
                    }
                }
            }
        }
    }
}

} // verus!
