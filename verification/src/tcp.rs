//! The TCP side of the transport: the accept loop of the server, and the receiver
//! that cuts the byte stream back into frames.
//!
//! The server listens on all interfaces and serves one client at a time. A client
//! whose sends fail too often is dropped, and the server goes back to accepting:
//! the listener never stops because one client failed.

use vstd::prelude::*;
use vstd::string::StringExecFns;

use crate::error::IoErrorKind;
use crate::error::TransportError;
use crate::limits::Limits;
use crate::stream::{
    lemma_session_ends_at_threshold, spec_run, spec_threshold_reached, spec_trailing_failures,
    StreamEvent, StreamState,
};
use crate::text::{append_decimal, spec_decimal};

verus! {

/// Size of the buffer that the receiver reads into. A read that fills less of it
/// ends a frame.
pub const RECEIVE_BUFFER: usize = 1024;

/// How the server serves a client.
#[derive(Clone, Copy, Debug, PartialEq, Eq, Structural)]
pub struct ServerMode {
    /// Send one frame to each client, then go on to the next client.
    pub single_frame: bool,
    /// Send the test pattern in place of captured frames.
    pub test_pattern: bool,
}

/// Where the frames of a client come from.
#[derive(Clone, Copy, Debug, PartialEq, Eq, Structural)]
pub enum FrameSource {
    /// A frame is captured from the display.
    Capture,
    /// The fixed test pattern stands for a frame.
    TestPattern,
}

/// State of the accept loop.
#[derive(Clone, Copy, Debug, PartialEq, Eq, Structural)]
pub enum ServerState {
    /// No client is served; the server waits for the next one.
    Listening,
    /// A client is served; `failures` sends to it have failed since the last one
    /// that succeeded.
    Serving { failures: u32 },
}

/// What the owner of the listener has to do next.
#[derive(Clone, Copy, Debug, PartialEq, Eq, Structural)]
pub enum ServerAction {
    /// Drop the client that was served, if any, and accept the next one.
    Accept,
    /// Send one frame from this source to the client.
    Send(FrameSource),
}

/// What the owner of the listener reports.
#[derive(Clone, Copy, Debug, PartialEq, Eq, Structural)]
pub enum ServerEvent {
    /// A client was accepted.
    ClientAccepted,
    /// No frame could be captured; nothing was sent.
    CaptureFailed,
    /// A frame was sent to the client.
    FrameSent,
    /// Sending a frame to the client failed.
    SendFailed(IoErrorKind),
}

/// The bytes that stand for a frame in test mode.
pub open spec fn spec_test_pattern() -> Seq<u8> {
    seq![10u8, 8u8, 8u8, 8u8, 8u8, 8u8, 8u8, 10u8]
}

impl ServerMode {
    /// Where the frames come from in this mode.
    pub open spec fn spec_source(self) -> FrameSource {
        if self.test_pattern {
            FrameSource::TestPattern
        } else {
            FrameSource::Capture
        }
    }
}

impl ServerState {
    /// The action that the state calls for. There is always one: the accept loop
    /// has no end of its own.
    pub open spec fn spec_next_action(self, mode: ServerMode) -> ServerAction {
        match self {
            ServerState::Listening => ServerAction::Accept,
            ServerState::Serving { .. } => ServerAction::Send(mode.spec_source()),
        }
    }

    /// What the streaming loop of the served client is told for a report.
    pub open spec fn spec_stream_event(event: ServerEvent) -> Option<StreamEvent> {
        match event {
            ServerEvent::ClientAccepted => None,
            ServerEvent::CaptureFailed => Some(StreamEvent::CaptureFailed),
            ServerEvent::FrameSent => Some(StreamEvent::FrameSent),
            ServerEvent::SendFailed(kind) => Some(
                StreamEvent::SendFailed(TransportError::Tcp(kind)),
            ),
        }
    }

    /// The state that follows on a report. While it listens, the server takes an
    /// accepted client and nothing else. While it serves, the streaming loop of the
    /// client decides: the client is kept as long as that loop runs, and the server
    /// listens again once it has ended. In single-frame mode the client is done
    /// after one send, failed or not.
    pub open spec fn spec_on_event(self, event: ServerEvent, mode: ServerMode, limits: Limits)
        -> ServerState {
        match self {
            ServerState::Listening => match event {
                ServerEvent::ClientAccepted => ServerState::Serving { failures: 0 },
                _ => self,
            },
            ServerState::Serving { failures } => match ServerState::spec_stream_event(event) {
                None => self,
                Some(StreamEvent::CaptureFailed) => self,
                Some(report) => if mode.single_frame {
                    ServerState::Listening
                } else {
                    match (StreamState::Running { failures }).spec_on_event(report, limits) {
                        StreamState::Running { failures: now } => ServerState::Serving {
                            failures: now,
                        },
                        StreamState::Ended(_) => ServerState::Listening,
                    }
                },
            },
        }
    }

    /// The number of sends to the client that may still fail in a row before the
    /// client is dropped; none while no client is served.
    pub open spec fn spec_tries_left(self, limits: Limits) -> nat {
        match self {
            ServerState::Listening => 0,
            ServerState::Serving { failures } => (StreamState::Running {
                failures,
            }).spec_failures_left(limits),
        }
    }

    /// The state of a server that has just bound its listener.
    pub fn start() -> (state: ServerState)
        ensures
            state == ServerState::Listening,
    {
        ServerState::Listening
    }

    /// The action that the owner of the listener has to perform in this state.
    pub fn next_action(&self, mode: &ServerMode) -> (action: ServerAction)
        ensures
            action == self.spec_next_action(*mode),
    {
        match self {
            ServerState::Listening => ServerAction::Accept,
            ServerState::Serving { .. } => if mode.test_pattern {
                ServerAction::Send(FrameSource::TestPattern)
            } else {
                ServerAction::Send(FrameSource::Capture)
            },
        }
    }

    /// The number of sends to the client that may still fail in a row before the
    /// client is dropped.
    pub fn tries_left(&self, limits: &Limits) -> (left: u32)
        ensures
            left == self.spec_tries_left(*limits),
    {
        match self {
            ServerState::Listening => 0,
            ServerState::Serving { failures } => (StreamState::Running {
                failures: *failures,
            }).failures_left(limits),
        }
    }

    /// Takes a report and moves to the state that follows.
    pub fn on_event(self, event: ServerEvent, mode: &ServerMode, limits: &Limits) -> (next:
        ServerState)
        ensures
            next == self.spec_on_event(event, *mode, *limits),
    {
        match self {
            ServerState::Listening => match event {
                ServerEvent::ClientAccepted => ServerState::Serving { failures: 0 },
                _ => self,
            },
            ServerState::Serving { failures } => {
                let report = match event {
                    ServerEvent::ClientAccepted => {
                        return self;
                    },
                    ServerEvent::CaptureFailed => {
                        return self;
                    },
                    ServerEvent::FrameSent => StreamEvent::FrameSent,
                    ServerEvent::SendFailed(kind) => StreamEvent::SendFailed(
                        TransportError::Tcp(kind),
                    ),
                };
                if mode.single_frame {
                    ServerState::Listening
                } else {
                    match (StreamState::Running { failures }).on_event(report, limits) {
                        StreamState::Running { failures: now } => ServerState::Serving {
                            failures: now,
                        },
                        StreamState::Ended(_) => ServerState::Listening,
                    }
                }
            },
        }
    }
}

/// The bytes that stand for a frame in test mode.
pub fn test_pattern() -> (pattern: Vec<u8>)
    ensures
        pattern@ == spec_test_pattern(),
{
    let mut pattern: Vec<u8> = Vec::new();
    pattern.push(10);
    pattern.push(8);
    pattern.push(8);
    pattern.push(8);
    pattern.push(8);
    pattern.push(8);
    pattern.push(8);
    pattern.push(10);
    assert(pattern@ =~= spec_test_pattern());
    pattern
}

/// The state that a server reaches from `state` when `events` are reported in
/// order.
pub open spec fn spec_serve(
    state: ServerState,
    events: Seq<ServerEvent>,
    mode: ServerMode,
    limits: Limits,
) -> ServerState
    decreases events.len(),
{
    if events.len() == 0 {
        state
    } else {
        spec_serve(state, events.drop_last(), mode, limits).spec_on_event(
            events.last(),
            mode,
            limits,
        )
    }
}

/// Whatever was reported, the server goes on: it serves the next client that is
/// accepted once it listens, and it listens again, at the latest, when the sends to
/// the client it serves have failed as often in a row as the threshold allows.
pub proof fn lemma_listener_outlives_clients(
    events: Seq<ServerEvent>,
    kind: IoErrorKind,
    mode: ServerMode,
    limits: Limits,
)
    ensures
        ({
            let state = spec_serve(ServerState::Listening, events, mode, limits);
            &&& state is Listening ==> state.spec_on_event(
                ServerEvent::ClientAccepted,
                mode,
                limits,
            ) == (ServerState::Serving { failures: 0 })
            &&& state matches ServerState::Serving { failures } ==> {
                &&& failures < limits.spec_fatal_failures()
                &&& failures + 1 == limits.spec_fatal_failures() ==> state.spec_on_event(
                    ServerEvent::SendFailed(kind),
                    mode,
                    limits,
                ) is Listening
                &&& state.spec_on_event(ServerEvent::FrameSent, mode, limits) is Serving
                    ==> state.spec_on_event(ServerEvent::FrameSent, mode, limits) == (
                    ServerState::Serving { failures: 0 })
            }
        }),
    decreases events.len(),
{
    if events.len() > 0 {
        lemma_listener_outlives_clients(events.drop_last(), kind, mode, limits);
    }
}

/// What the streaming loop of the served client is told for each of `events`. A
/// report that is not about a frame changes nothing for the loop, like a failed
/// capture.
pub open spec fn spec_client_reports(events: Seq<ServerEvent>) -> Seq<StreamEvent> {
    events.map_values(
        |event: ServerEvent|
            match ServerState::spec_stream_event(event) {
                Some(report) => report,
                None => StreamEvent::CaptureFailed,
            },
    )
}

/// The state of a server whose client has the streaming loop `stream`: it serves
/// the client while the loop runs and listens once the loop has ended.
pub open spec fn spec_serving(stream: StreamState) -> ServerState {
    match stream {
        StreamState::Running { failures } => ServerState::Serving { failures },
        StreamState::Ended(_) => ServerState::Listening,
    }
}

/// A server that streams keeps a client exactly while the streaming loop of that
/// client runs: from the moment the client is accepted, the state of the server
/// follows the loop, report by report. So the client is dropped exactly when as
/// many sends to it have failed in a row as the threshold allows, never on fewer;
/// until then the server counts the failed sends since the last successful one.
pub proof fn lemma_client_is_kept_until_threshold(
    events: Seq<ServerEvent>,
    mode: ServerMode,
    limits: Limits,
)
    requires
        !mode.single_frame,
        forall|i: int| 0 <= i < events.len() ==> !(#[trigger] events[i] is ClientAccepted),
    ensures
        ({
            let state = spec_serve(ServerState::Serving { failures: 0 }, events, mode, limits);
            let reports = spec_client_reports(events);
            &&& state == spec_serving(spec_run(StreamState::spec_start(), reports, limits))
            &&& if spec_threshold_reached(reports, limits) {
                state is Listening
            } else {
                state == (ServerState::Serving {
                    failures: spec_trailing_failures(reports) as u32,
                })
            }
        }),
    decreases events.len(),
{
    let reports = spec_client_reports(events);
    if events.len() > 0 {
        let earlier = events.drop_last();
        lemma_client_is_kept_until_threshold(earlier, mode, limits);
        assert(reports.drop_last() =~= spec_client_reports(earlier));
        assert(reports.last() == spec_client_reports(events)[events.len() - 1]);
    }
    assert forall|i: int| 0 <= i < reports.len() implies !(#[trigger] reports[i] is Cancelled) by {
        assert(!(events[i] is ClientAccepted));
    }
    lemma_session_ends_at_threshold(reports, limits);
}

/// Progress of the receiver: which frame it is in, and how many bytes of that frame
/// it has read.
#[derive(Clone, Copy, Debug, PartialEq, Eq, Structural)]
pub struct Receiver {
    /// Number of frames that are complete.
    pub frames: u64,
    /// Bytes read of the frame that is not complete yet.
    pub frame_bytes: u64,
}

/// A number capped at the largest `u64`.
pub open spec fn spec_capped(number: int) -> u64 {
    if number > u64::MAX {
        u64::MAX
    } else {
        number as u64
    }
}

impl Receiver {
    /// Whether a read of `bytes` bytes ends a frame: it filled less than the
    /// buffer. The stream has no framing of its own, so this is how the frames are
    /// told apart.
    pub open spec fn spec_ends_frame(bytes: usize) -> bool {
        bytes < RECEIVE_BUFFER
    }

    /// The receiver after a read of `bytes` bytes. The counters stop at the largest
    /// `u64`.
    pub open spec fn spec_on_read(self, bytes: usize) -> Receiver {
        if Receiver::spec_ends_frame(bytes) {
            Receiver { frames: spec_capped(self.frames + 1), frame_bytes: 0 }
        } else {
            Receiver { frames: self.frames, frame_bytes: spec_capped(self.frame_bytes + bytes) }
        }
    }

    /// Name of the file that frame number `index` is written to.
    pub open spec fn spec_file_name(index: u64) -> Seq<char> {
        if index == 0 {
            "amongas.jpg"@
        } else {
            "amongas"@ + spec_decimal(index as nat) + ".jpg"@
        }
    }

    /// A receiver that has read nothing.
    pub fn start() -> (receiver: Receiver)
        ensures
            receiver == (Receiver { frames: 0, frame_bytes: 0 }),
    {
        Receiver { frames: 0, frame_bytes: 0 }
    }

    /// Takes a read of `bytes` bytes; says whether it ended a frame, in which case
    /// what is read next goes to the file of the next frame.
    pub fn on_read(self, bytes: usize) -> (after: (Receiver, bool))
        ensures
            after.0 == self.spec_on_read(bytes),
            after.1 == Receiver::spec_ends_frame(bytes),
    {
        if bytes < RECEIVE_BUFFER {
            (Receiver { frames: self.frames.saturating_add(1), frame_bytes: 0 }, true)
        } else {
            (
                Receiver {
                    frames: self.frames,
                    frame_bytes: self.frame_bytes.saturating_add(bytes as u64),
                },
                false,
            )
        }
    }

    /// Name of the file that the frame in progress is written to.
    pub fn file_name(&self) -> (name: String)
        ensures
            name@ == Receiver::spec_file_name(self.frames),
    {
        if self.frames == 0 {
            String::from_str("amongas.jpg")
        } else {
            let mut name = String::from_str("amongas");
            append_decimal(&mut name, self.frames);
            name.append(".jpg");
            name
        }
    }
}

} // verus!
