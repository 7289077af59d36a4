//! A session: from the end of the handshake to the result that the caller gets.

use vstd::prelude::*;
use vstd::string::StringExecFns;

use crate::error::{GabinatorError, GabinatorResult};
use crate::handshake::HandshakeState;
use crate::limits::Limits;
use crate::stream::{StreamAction, StreamEnd, StreamEvent, StreamState};
use crate::transport::BulkWrite;
use crate::usb::endpoint;

verus! {

/// A streaming session. It is made when a handshake has connected or a TCP client
/// has been accepted, and it is over when it is cancelled or its transport has
/// failed for good.
#[derive(Clone, Copy, Debug, PartialEq, Eq, Structural)]
pub struct Session {
    /// The endpoint that the handshake negotiated; `None` for a TCP session.
    pub endpoint: Option<endpoint>,
    /// State of the streaming loop.
    pub stream: StreamState,
}

/// What is reported of a session that is over, as texts.
pub enum SessionReport {
    /// The session was cancelled; it ends with this message.
    Success(Seq<char>),
    /// The session failed for this reason.
    Failure(Seq<char>),
}

/// The reason that is reported for a handshake that ended in `state` without a
/// connection.
pub open spec fn spec_handshake_reason(state: HandshakeState) -> Seq<char> {
    match state {
        HandshakeState::Failed(error) => error.spec_reason(),
        _ => "Handshake is not finished"@,
    }
}

/// What is reported of a session whose loop ended with `end`.
pub open spec fn spec_report(end: StreamEnd) -> SessionReport {
    match end {
        StreamEnd::Cancelled => SessionReport::Success("Session succes"@),
        StreamEnd::TransportFailed(error) => SessionReport::Failure(error.spec_reason()),
    }
}

/// Whether `result` reports `report`: as a result of the USB transport for a
/// session over USB, and as one of the frame source for a session over TCP.
pub open spec fn spec_reports(
    result: Result<GabinatorResult, GabinatorError>,
    report: SessionReport,
    over_usb: bool,
) -> bool {
    match report {
        SessionReport::Success(message) => if over_usb {
            result matches Ok(GabinatorResult::UsbResult(text)) && text@ == message
        } else {
            result matches Ok(GabinatorResult::CaptureResult(text)) && text@ == message
        },
        SessionReport::Failure(reason) => if over_usb {
            result matches Err(GabinatorError::UsbError(text)) && text@ == reason
        } else {
            result matches Err(GabinatorError::CaptureError(text)) && text@ == reason
        },
    }
}

impl Session {
    /// The session that follows a handshake: one that has not sent anything yet,
    /// on the endpoint that the handshake connected to. A handshake that failed
    /// gives the failure with its reason; so does one that is not over.
    pub fn open(handshake: &HandshakeState) -> (opened: Result<Session, GabinatorError>)
        ensures
            match *handshake {
                HandshakeState::Connected(ep) => opened == Ok::<Session, GabinatorError>(
                    Session { endpoint: Some(ep), stream: StreamState::spec_start() },
                ),
                _ => opened matches Err(GabinatorError::UsbError(text)) && text@
                    == spec_handshake_reason(*handshake),
            },
    {
        match handshake {
            HandshakeState::Connected(ep) => Ok(
                Session { endpoint: Some(*ep), stream: StreamState::start() },
            ),
            HandshakeState::Failed(error) => Err(GabinatorError::UsbError(error.reason())),
            _ => Err(GabinatorError::UsbError(String::from_str("Handshake is not finished"))),
        }
    }

    /// The session of a TCP client that was just accepted.
    pub fn accept() -> (session: Session)
        ensures
            session == (Session { endpoint: None, stream: StreamState::spec_start() }),
    {
        Session { endpoint: None, stream: StreamState::start() }
    }

    /// How a frame is sent over USB in this session: one bulk write to the endpoint
    /// that the handshake negotiated, with the timeout of the limits. A TCP session
    /// has no endpoint and no bulk write.
    pub fn bulk_write(&self, limits: &Limits) -> (write: Option<BulkWrite>)
        ensures
            write == match self.endpoint {
                Some(negotiated) => Some(
                    BulkWrite { endpoint: negotiated.address, timeout_ms: limits.bulk_timeout_ms },
                ),
                None => None,
            },
    {
        match self.endpoint {
            Some(negotiated) => Some(
                BulkWrite { endpoint: negotiated.address, timeout_ms: limits.bulk_timeout_ms },
            ),
            None => None,
        }
    }

    /// The action that the owner of the transport has to perform next.
    pub fn next_action(&self) -> (action: StreamAction)
        ensures
            action == self.stream.spec_next_action(),
    {
        self.stream.next_action()
    }

    /// Takes what one iteration reported.
    pub fn on_event(self, event: StreamEvent, limits: &Limits) -> (next: Session)
        ensures
            next == (Session {
                endpoint: self.endpoint,
                stream: self.stream.spec_on_event(event, *limits),
            }),
    {
        Session { endpoint: self.endpoint, stream: self.stream.on_event(event, limits) }
    }

    /// Whether it falls to the owner of the session to release the device: it does
    /// when the session ended because its sends failed. A session that was
    /// cancelled is released by whoever cancelled it, and one that runs is not
    /// released at all.
    pub fn owner_releases(&self) -> (yes: bool)
        ensures
            yes == (self.stream matches StreamState::Ended(StreamEnd::TransportFailed(_))),
    {
        match self.stream {
            StreamState::Ended(StreamEnd::TransportFailed(_)) => true,
            _ => false,
        }
    }

    /// The result of the session for the caller: `None` while the session runs; a
    /// success when it was cancelled; a failure, with the reason, when its sends
    /// failed too often. A session over USB reports as the USB transport, one over
    /// TCP as the frame source.
    pub fn result(&self) -> (result: Option<Result<GabinatorResult, GabinatorError>>)
        ensures
            match self.stream {
                StreamState::Running { .. } => result is None,
                StreamState::Ended(end) => result matches Some(reported) && spec_reports(
                    reported,
                    spec_report(end),
                    self.endpoint is Some,
                ),
            },
    {
        let over_usb = self.endpoint.is_some();
        match self.stream {
            StreamState::Running { .. } => None,
            StreamState::Ended(StreamEnd::Cancelled) => {
                let message = String::from_str("Session succes");
                if over_usb {
                    Some(Ok(GabinatorResult::UsbResult(message)))
                } else {
                    Some(Ok(GabinatorResult::CaptureResult(message)))
                }
            },
            StreamState::Ended(StreamEnd::TransportFailed(error)) => {
                let reason = error.reason();
                if over_usb {
                    Some(Err(GabinatorError::UsbError(reason)))
                } else {
                    Some(Err(GabinatorError::CaptureError(reason)))
                }
            },
        }
    }
}

} // verus!
