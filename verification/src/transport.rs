//! The one capability that the streaming loop asks of a transport: send a frame.
//!
//! A frame goes out as it is, with no length prefix or framing. The USB transport
//! issues one bulk write to the negotiated endpoint; the TCP transport writes the
//! whole buffer to the accepted socket and then flushes. Either way the outcome is
//! success or a transport error that carries the error of the transport.

use vstd::prelude::*;

use crate::error::{IoErrorKind, TransportError, UsbError};
use crate::stream::StreamEvent;

verus! {

/// One bulk write of a frame: the address of the endpoint that takes it, and the
/// time after which the write is given up.
#[derive(Clone, Copy, Debug, PartialEq, Eq, Structural)]
pub struct BulkWrite {
    pub endpoint: u8,
    pub timeout_ms: u64,
}

/// The outcome of sending a frame over USB, the bulk write having returned
/// `written`.
pub open spec fn spec_send_USB_data(written: Result<usize, UsbError>) -> Result<
    (),
    TransportError,
> {
    match written {
        Ok(_) => Ok(()),
        Err(error) => Err(TransportError::Usb(error)),
    }
}

/// The outcome of sending a frame over TCP, the write having returned `written`
/// and, where it succeeded, the flush `flushed`.
pub open spec fn spec_send_image_data(
    written: Result<(), IoErrorKind>,
    flushed: Result<(), IoErrorKind>,
) -> Result<(), TransportError> {
    match written {
        Err(kind) => Err(TransportError::Tcp(kind)),
        Ok(_) => match flushed {
            Err(kind) => Err(TransportError::Tcp(kind)),
            Ok(_) => Ok(()),
        },
    }
}

/// What an iteration reports: `sent` is `None` where no frame could be captured,
/// else the outcome of sending the frame.
pub open spec fn spec_capture_and_send(sent: Option<Result<(), TransportError>>) -> StreamEvent {
    match sent {
        None => StreamEvent::CaptureFailed,
        Some(Ok(_)) => StreamEvent::FrameSent,
        Some(Err(error)) => StreamEvent::SendFailed(error),
    }
}

/// The outcome of sending a frame over USB. The bulk write succeeded whatever
/// number of bytes it reports; any error of the transfer, a timeout too, is a
/// transport error.
pub fn send_USB_data(written: Result<usize, UsbError>) -> (outcome: Result<(), TransportError>)
    ensures
        outcome == spec_send_USB_data(written),
{
    match written {
        Ok(_) => Ok(()),
        Err(error) => Err(TransportError::Usb(error)),
    }
}

/// The outcome of sending a frame over TCP. A failed write is a transport error,
/// and what the flush returned does not count then; after a successful write a
/// failed flush is a transport error.
pub fn send_image_data(written: Result<(), IoErrorKind>, flushed: Result<(), IoErrorKind>) -> (outcome:
    Result<(), TransportError>)
    ensures
        outcome == spec_send_image_data(written, flushed),
{
    match written {
        Err(kind) => Err(TransportError::Tcp(kind)),
        Ok(_) => match flushed {
            Err(kind) => Err(TransportError::Tcp(kind)),
            Ok(_) => Ok(()),
        },
    }
}

/// What one iteration of the streaming loop reports. A failed capture is reported
/// as such and not as a failed send: the two are counted apart.
pub fn capture_and_send(sent: Option<Result<(), TransportError>>) -> (event: StreamEvent)
    ensures
        event == spec_capture_and_send(sent),
{
    match sent {
        None => StreamEvent::CaptureFailed,
        Some(Ok(_)) => StreamEvent::FrameSent,
        Some(Err(error)) => StreamEvent::SendFailed(error),
    }
}

} // verus!
