use gabinator::error::{IoErrorKind, TransportError, UsbError};
use gabinator::limits::Limits;
use gabinator::stream::{StreamAction, StreamEnd, StreamEvent, StreamState};
use gabinator::transport::{capture_and_send, send_USB_data, send_image_data};

fn failed() -> StreamEvent {
    StreamEvent::SendFailed(TransportError::Usb(UsbError::Timeout))
}

fn replay(events: &[StreamEvent], limits: &Limits) -> StreamState {
    let mut state = StreamState::start();
    for event in events {
        state = state.on_event(*event, limits);
    }
    state
}

#[test]
fn session_starts_with_no_failures() {
    assert_eq!(StreamState::start(), StreamState::Running { failures: 0 });
    assert_eq!(StreamState::start().next_action(), StreamAction::CaptureAndSend);
}

#[test]
fn four_failures_do_not_end_the_session() {
    let limits = Limits::default();
    assert_eq!(replay(&[failed(); 4], &limits), StreamState::Running { failures: 4 });
}

#[test]
fn fifth_consecutive_failure_ends_the_session() {
    let limits = Limits::default();
    let end = replay(&[failed(); 5], &limits);
    assert_eq!(
        end,
        StreamState::Ended(StreamEnd::TransportFailed(TransportError::Usb(UsbError::Timeout)))
    );
    assert_eq!(end.next_action(), StreamAction::Finish);
}

#[test]
fn success_resets_the_counter() {
    let limits = Limits::default();
    let events = [
        failed(),
        failed(),
        failed(),
        failed(),
        StreamEvent::FrameSent,
        failed(),
        failed(),
        failed(),
        failed(),
    ];
    assert_eq!(replay(&events[..5], &limits), StreamState::Running { failures: 0 });
    assert_eq!(replay(&events, &limits), StreamState::Running { failures: 4 });
}

#[test]
fn capture_failure_neither_counts_nor_resets() {
    let limits = Limits::default();
    let events = [
        failed(),
        StreamEvent::CaptureFailed,
        failed(),
        StreamEvent::CaptureFailed,
        StreamEvent::CaptureFailed,
        failed(),
        failed(),
    ];
    assert_eq!(replay(&events, &limits), StreamState::Running { failures: 4 });
    assert_eq!(replay(&[StreamEvent::CaptureFailed; 20], &limits), StreamState::Running { failures: 0 });
}

#[test]
fn last_error_is_the_one_reported() {
    let limits = Limits::default();
    let events = [
        failed(),
        failed(),
        failed(),
        failed(),
        StreamEvent::SendFailed(TransportError::Usb(UsbError::NoDevice)),
    ];
    assert_eq!(
        replay(&events, &limits),
        StreamState::Ended(StreamEnd::TransportFailed(TransportError::Usb(UsbError::NoDevice)))
    );
}

#[test]
fn cancellation_ends_a_running_session() {
    let limits = Limits::default();
    assert_eq!(
        replay(&[failed(), StreamEvent::Cancelled], &limits),
        StreamState::Ended(StreamEnd::Cancelled)
    );
}

#[test]
fn ended_session_stays_ended() {
    let limits = Limits::default();
    let cancelled = StreamState::Ended(StreamEnd::Cancelled);
    for event in [StreamEvent::FrameSent, failed(), StreamEvent::CaptureFailed, StreamEvent::Cancelled] {
        assert_eq!(cancelled.on_event(event, &limits), cancelled);
    }
}

#[test]
fn threshold_of_one_ends_at_the_first_failure() {
    for threshold in [0u32, 1u32] {
        let limits = Limits { failure_threshold: threshold, ..Limits::default() };
        assert_eq!(limits.fatal_failures(), 1);
        assert!(matches!(replay(&[failed()], &limits), StreamState::Ended(_)));
    }
}

#[test]
fn counter_at_its_largest_does_not_overflow() {
    let limits = Limits { failure_threshold: u32::MAX, ..Limits::default() };
    let state = StreamState::Running { failures: u32::MAX - 2 };
    assert_eq!(state.on_event(failed(), &limits), StreamState::Running { failures: u32::MAX - 1 });
    let last = StreamState::Running { failures: u32::MAX - 1 };
    assert!(matches!(last.on_event(failed(), &limits), StreamState::Ended(_)));
    let beyond = StreamState::Running { failures: u32::MAX };
    assert!(matches!(beyond.on_event(failed(), &limits), StreamState::Ended(_)));
}

#[test]
fn bulk_write_outcome() {
    assert_eq!(send_USB_data(Ok(4096)), Ok(()));
    assert_eq!(send_USB_data(Ok(0)), Ok(()));
    assert_eq!(send_USB_data(Err(UsbError::Timeout)), Err(TransportError::Usb(UsbError::Timeout)));
    assert_eq!(send_USB_data(Err(UsbError::Pipe)), Err(TransportError::Usb(UsbError::Pipe)));
}

#[test]
fn tcp_write_then_flush_outcome() {
    assert_eq!(send_image_data(Ok(()), Ok(())), Ok(()));
    assert_eq!(
        send_image_data(Err(IoErrorKind::BrokenPipe), Ok(())),
        Err(TransportError::Tcp(IoErrorKind::BrokenPipe))
    );
    assert_eq!(
        send_image_data(Ok(()), Err(IoErrorKind::ConnectionReset)),
        Err(TransportError::Tcp(IoErrorKind::ConnectionReset))
    );
    assert_eq!(
        send_image_data(Err(IoErrorKind::BrokenPipe), Err(IoErrorKind::ConnectionReset)),
        Err(TransportError::Tcp(IoErrorKind::BrokenPipe))
    );
}

#[test]
fn iteration_report() {
    assert_eq!(capture_and_send(None), StreamEvent::CaptureFailed);
    assert_eq!(capture_and_send(Some(Ok(()))), StreamEvent::FrameSent);
    assert_eq!(
        capture_and_send(Some(Err(TransportError::Usb(UsbError::Busy)))),
        StreamEvent::SendFailed(TransportError::Usb(UsbError::Busy))
    );
}

#[test]
fn reasons_of_transport_errors() {
    assert_eq!(TransportError::Usb(UsbError::Io).reason(), "Not able to write bulk");
    assert_eq!(
        TransportError::Tcp(IoErrorKind::TimedOut).reason(),
        "Connection with too many errors"
    );
}

#[test]
fn failures_left_count_down_to_the_threshold() {
    let limits = Limits::default();
    assert_eq!(StreamState::start().failures_left(&limits), 5);
    assert_eq!(StreamState::Running { failures: 4 }.failures_left(&limits), 1);
    assert_eq!(StreamState::Running { failures: 5 }.failures_left(&limits), 0);
    assert_eq!(StreamState::Running { failures: u32::MAX }.failures_left(&limits), 0);
    assert_eq!(StreamState::Ended(StreamEnd::Cancelled).failures_left(&limits), 0);
    let strict = Limits { failure_threshold: 0, ..Limits::default() };
    assert_eq!(StreamState::start().failures_left(&strict), 1);
}
