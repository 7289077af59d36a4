use gabinator::error::{GabinatorError, GabinatorResult, HandshakeError, IoErrorKind, TransportError, UsbError};
use gabinator::handshake::HandshakeState;
use gabinator::limits::Limits;
use gabinator::session::Session;
use gabinator::stream::{StreamAction, StreamEnd, StreamEvent, StreamState};
use gabinator::transport::BulkWrite;
use gabinator::usb::endpoint;

const EP: endpoint = endpoint { config: 1, interface: 0, setting: 0, address: 1 };

#[test]
fn reference_limits() {
    let limits = Limits::default();
    assert_eq!(
        limits,
        Limits {
            reenumeration_attempts: 10,
            reenumeration_spacing_ms: 1000,
            failure_threshold: 5,
            version_timeout_ms: 100,
            start_timeout_ms: 10000,
            bulk_timeout_ms: 5000,
        }
    );
    assert_eq!(limits.poll_budget(), 10);
    assert_eq!(limits.fatal_failures(), 5);
}

#[test]
fn connected_handshake_opens_a_session() {
    assert_eq!(
        Session::open(&HandshakeState::Connected(EP)),
        Ok(Session { endpoint: Some(EP), stream: StreamState::Running { failures: 0 } })
    );
}

#[test]
fn failed_handshake_is_reported_with_its_reason() {
    assert_eq!(
        Session::open(&HandshakeState::Failed(HandshakeError::NoBulkEndpoint)),
        Err(GabinatorError::UsbError("Not able to find the bulk transfer endpoint".to_string()))
    );
    assert_eq!(
        Session::open(&HandshakeState::Failed(HandshakeError::UnsupportedVersion(3))),
        Err(GabinatorError::UsbError("Device does not support AOA: version 3".to_string()))
    );
}

#[test]
fn unfinished_handshake_opens_nothing() {
    for state in [
        HandshakeState::Discovered,
        HandshakeState::VersionQueried(2),
        HandshakeState::ProtocolStarted,
        HandshakeState::AwaitingReenumeration { polls: 3 },
        HandshakeState::Reopened,
        HandshakeState::Claimed,
    ] {
        assert_eq!(
            Session::open(&state),
            Err(GabinatorError::UsbError("Handshake is not finished".to_string()))
        );
    }
}

#[test]
fn running_session_has_no_result() {
    let session = Session::open(&HandshakeState::Connected(EP)).unwrap();
    assert_eq!(session.next_action(), StreamAction::CaptureAndSend);
    assert_eq!(session.result(), None);
}

#[test]
fn cancelled_session_is_a_success() {
    let limits = Limits::default();
    let session = Session::open(&HandshakeState::Connected(EP)).unwrap();
    let session = session.on_event(StreamEvent::FrameSent, &limits);
    let session = session.on_event(StreamEvent::Cancelled, &limits);
    assert_eq!(session.endpoint, Some(EP));
    assert_eq!(session.stream, StreamState::Ended(StreamEnd::Cancelled));
    assert_eq!(session.next_action(), StreamAction::Finish);
    assert_eq!(
        session.result(),
        Some(Ok(GabinatorResult::UsbResult("Session succes".to_string())))
    );
}

#[test]
fn session_with_five_failed_sends_is_a_failure() {
    let limits = Limits::default();
    let mut session = Session::open(&HandshakeState::Connected(EP)).unwrap();
    for _ in 0..4 {
        session = session.on_event(
            StreamEvent::SendFailed(TransportError::Usb(UsbError::Timeout)),
            &limits,
        );
        assert_eq!(session.result(), None);
    }
    session = session.on_event(StreamEvent::SendFailed(TransportError::Usb(UsbError::Pipe)), &limits);
    assert_eq!(
        session.result(),
        Some(Err(GabinatorError::UsbError("Not able to write bulk".to_string())))
    );
}

#[test]
fn tcp_session_has_no_endpoint() {
    let limits = Limits { failure_threshold: 1, ..Limits::default() };
    let session = Session::accept();
    assert_eq!(session, Session { endpoint: None, stream: StreamState::Running { failures: 0 } });
    let session = session.on_event(
        StreamEvent::SendFailed(TransportError::Tcp(IoErrorKind::BrokenPipe)),
        &limits,
    );
    assert_eq!(
        session.result(),
        Some(Err(GabinatorError::CaptureError("Connection with too many errors".to_string())))
    );
    let cancelled = Session::accept().on_event(StreamEvent::Cancelled, &limits);
    assert_eq!(
        cancelled.result(),
        Some(Ok(GabinatorResult::CaptureResult("Session succes".to_string())))
    );
}

#[test]
fn frames_go_to_the_negotiated_endpoint() {
    let session = Session::open(&HandshakeState::Connected(EP)).unwrap();
    assert_eq!(
        session.bulk_write(&Limits::default()),
        Some(BulkWrite { endpoint: 1, timeout_ms: 5000 })
    );
    let patient = Limits { bulk_timeout_ms: 60000, ..Limits::default() };
    assert_eq!(session.bulk_write(&patient), Some(BulkWrite { endpoint: 1, timeout_ms: 60000 }));
    assert_eq!(Session::accept().bulk_write(&Limits::default()), None);
}

#[test]
fn owner_releases_the_device_only_after_failed_sends() {
    let limits = Limits { failure_threshold: 1, ..Limits::default() };
    let running = Session::open(&HandshakeState::Connected(EP)).unwrap();
    assert!(!running.owner_releases());
    assert!(!running.on_event(StreamEvent::Cancelled, &limits).owner_releases());
    let failed = running.on_event(
        StreamEvent::SendFailed(TransportError::Usb(UsbError::NoDevice)),
        &limits,
    );
    assert!(failed.owner_releases());
}
