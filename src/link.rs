use vstd::prelude::*;
use crate::events::{CaptureError, CaptureEvent, error_text};
use crate::session::{finish_events, is_error_event};

verus! {

/// Seconds the transcription link waits for the connection to be accepted.
pub const CONNECT_TIMEOUT_SECS: u64 = 10;

/// What the connection attempt came to: a timeout is reported as
/// `ConnectionTimeout`, a failed handshake with its description, else success.
pub open spec fn connection_outcome(timed_out: bool, handshake_error: Option<String>) -> Result<
    (),
    CaptureError,
> {
    if timed_out {
        Err(CaptureError::ConnectionTimeout)
    } else {
        match handshake_error {
            Some(e) => Err(CaptureError::ConnectionFailed(e)),
            None => Ok(()),
        }
    }
}

/// Decides the result of the connection attempt from what the transport reported.
pub fn connection_result(timed_out: bool, handshake_error: Option<String>) -> (r: Result<
    (),
    CaptureError,
>)
    ensures
        r == connection_outcome(timed_out, handshake_error),
{
    if timed_out {
        Err(CaptureError::ConnectionTimeout)
    } else {
        match handshake_error {
            Some(e) => Err(CaptureError::ConnectionFailed(e)),
            None => Ok(()),
        }
    }
}

/// What the sender loop observed at its select point.
#[derive(Clone, Debug, PartialEq, Eq)]
pub enum SenderEvent {
    /// The next outbound frame arrived on the bridge.
    Frame(Vec<u8>),
    /// The session's cancellation signal arrived.
    Cancelled,
    /// Every producer has released the bridge: no frame will ever arrive.
    BridgeClosed,
    /// Sending the last frame failed: the connection is broken.
    SendFailed,
}

/// What the sender loop does next.
#[derive(Clone, Debug, PartialEq, Eq)]
pub enum SenderAction {
    /// Send the frame as one binary message and wait again.
    Forward(Vec<u8>),
    /// Close the outbound side and leave the loop.
    CloseAndExit,
    /// Leave the loop without closing.
    Exit,
}

/// The sender loop's decision for each event: a frame is forwarded; the
/// cancellation signal and the end of the bridge both close the connection and
/// end the loop; a failed send ends it at once, without retry.
pub open spec fn sender_action(ev: SenderEvent) -> SenderAction {
    match ev {
        SenderEvent::Frame(b) => SenderAction::Forward(b),
        SenderEvent::Cancelled => SenderAction::CloseAndExit,
        SenderEvent::BridgeClosed => SenderAction::CloseAndExit,
        SenderEvent::SendFailed => SenderAction::Exit,
    }
}

/// One step of the sender loop.
pub fn sender_step(ev: SenderEvent) -> (a: SenderAction)
    ensures
        a == sender_action(ev),
{
    match ev {
        SenderEvent::Frame(b) => SenderAction::Forward(b),
        SenderEvent::Cancelled => SenderAction::CloseAndExit,
        SenderEvent::BridgeClosed => SenderAction::CloseAndExit,
        SenderEvent::SendFailed => SenderAction::Exit,
    }
}

/// When every producer has released the bridge without a cancellation signal,
/// the sender loop ends exactly as on cancellation, the link completes
/// normally, and the session emits only `capture-stopped`.
pub proof fn lemma_bridge_close_ends_like_cancel(evs: Seq<CaptureEvent>)
    requires
        finish_events(Ok(()), evs),
    ensures
        sender_action(SenderEvent::BridgeClosed) == sender_action(SenderEvent::Cancelled),
        sender_action(SenderEvent::BridgeClosed) == SenderAction::CloseAndExit,
        evs == seq![CaptureEvent::CaptureStopped],
{
}

/// A connection attempt that exceeds the timeout yields `ConnectionTimeout`;
/// the session then emits a `capture-error` with its text, then `capture-stopped`.
pub proof fn lemma_timeout_reports_error(handshake_error: Option<String>, evs: Seq<CaptureEvent>)
    requires
        finish_events(connection_outcome(true, handshake_error), evs),
    ensures
        connection_outcome(true, handshake_error) == Err::<(), CaptureError>(
            CaptureError::ConnectionTimeout,
        ),
        evs.len() == 2,
        is_error_event(evs[0], error_text(CaptureError::ConnectionTimeout)),
        evs[1] == CaptureEvent::CaptureStopped,
{
}

} // verus!
