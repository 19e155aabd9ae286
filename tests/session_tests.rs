use audio_capture::events::{CaptureError, CaptureEvent};
use audio_capture::link::{connection_result, sender_step, SenderAction, SenderEvent, CONNECT_TIMEOUT_SECS};
use audio_capture::session::{CaptureSession, RecordingState};

#[test]
fn new_session_is_idle() {
    let s: CaptureSession<u32> = CaptureSession::new();
    assert!(!s.is_recording());
    assert_eq!(s.state, RecordingState::Idle);
}

#[test]
fn second_start_is_rejected() {
    let mut s: CaptureSession<u32> = CaptureSession::new();
    assert_eq!(s.start(1), Ok(1));
    assert_eq!(s.start(2), Err(CaptureError::AlreadyRecording));
    assert!(s.is_recording());
    assert_eq!(s.cancel, Some(1));
}

#[test]
fn stop_when_idle_is_rejected() {
    let mut s: CaptureSession<u32> = CaptureSession::new();
    assert_eq!(s.stop(), Err(CaptureError::NotRecording));
    assert_eq!(s.state, RecordingState::Idle);
    assert_eq!(s.cancel, None);
}

#[test]
fn stop_hands_back_handle_once() {
    let mut s: CaptureSession<u32> = CaptureSession::new();
    s.start(7).unwrap();
    assert_eq!(s.stop(), Ok(Some(7)));
    assert!(!s.is_recording());
    assert_eq!(s.stop(), Err(CaptureError::NotRecording));
    assert_eq!(s.start(8), Ok(2));
}

#[test]
fn normal_link_end_emits_stopped() {
    let mut s: CaptureSession<u32> = CaptureSession::new();
    let g = s.start(1).unwrap();
    assert_eq!(sender_step(SenderEvent::BridgeClosed), SenderAction::CloseAndExit);
    let evs = s.finish(g, Ok(()));
    assert_eq!(evs, vec![CaptureEvent::CaptureStopped]);
    assert!(!s.is_recording());
    assert_eq!(s.cancel, None);
}

#[test]
fn connection_timeout_emits_error_then_stopped() {
    let mut s: CaptureSession<u32> = CaptureSession::new();
    let g = s.start(1).unwrap();
    let outcome = connection_result(true, None);
    assert_eq!(outcome, Err(CaptureError::ConnectionTimeout));
    let evs = s.finish(g, outcome);
    assert_eq!(evs.len(), 2);
    assert_eq!(
        evs[0],
        CaptureEvent::CaptureError {
            error: "WebSocket connection timeout (10s): STT proxy unreachable".to_string()
        }
    );
    assert_eq!(evs[0].name(), "capture-error");
    assert_eq!(evs[1], CaptureEvent::CaptureStopped);
    assert_eq!(evs[1].name(), "capture-stopped");
    assert!(!s.is_recording());
    assert_eq!(CONNECT_TIMEOUT_SECS, 10);
}

#[test]
fn handshake_failure_is_reported_with_its_text() {
    let outcome = connection_result(false, Some("refused".to_string()));
    assert_eq!(outcome, Err(CaptureError::ConnectionFailed("refused".to_string())));
    assert_eq!(connection_result(false, None), Ok(()));
    let mut s: CaptureSession<u32> = CaptureSession::new();
    let g = s.start(3).unwrap();
    let evs = s.finish(g, outcome);
    assert_eq!(evs[0], CaptureEvent::CaptureError { error: "refused".to_string() });
}

#[test]
fn sender_steps() {
    assert_eq!(sender_step(SenderEvent::Frame(vec![1, 2])), SenderAction::Forward(vec![1, 2]));
    assert_eq!(sender_step(SenderEvent::Cancelled), SenderAction::CloseAndExit);
    assert_eq!(sender_step(SenderEvent::SendFailed), SenderAction::Exit);
}

#[test]
fn error_messages() {
    assert_eq!(CaptureError::AlreadyRecording.message(), "Already recording");
    assert_eq!(CaptureError::NotRecording.message(), "Not recording");
    assert_eq!(CaptureError::NoInputDevice.message(), "No input device found");
    assert_eq!(CaptureError::UnsupportedFormat.message(), "Unsupported mic sample format");
    assert_eq!(CaptureError::Backend("x".to_string()).message(), "x");
}

#[test]
fn stop_then_link_end_reports_stopped_once() {
    let mut s: CaptureSession<u32> = CaptureSession::new();
    let g = s.start(1).unwrap();
    assert_eq!(s.stop(), Ok(Some(1)));
    assert_eq!(s.finish(g, Ok(())), vec![CaptureEvent::CaptureStopped]);
    assert!(s.finish(g, Ok(())).is_empty());
    assert!(!s.is_recording());
}

#[test]
fn stale_completion_leaves_new_session_alone() {
    let mut s: CaptureSession<u32> = CaptureSession::new();
    let g1 = s.start(1).unwrap();
    s.stop().unwrap();
    let g2 = s.start(2).unwrap();
    assert_ne!(g1, g2);
    assert!(s.finish(g1, Ok(())).is_empty());
    assert!(s.is_recording());
    assert_eq!(s.cancel, Some(2));
}

#[test]
fn fatal_capture_error_ends_session() {
    let mut s: CaptureSession<u32> = CaptureSession::new();
    let g = s.start(9).unwrap();
    let (evs, handle) = s.fail(g, CaptureError::Backend("Mic: No input device found".to_string()));
    assert_eq!(handle, Some(9));
    assert_eq!(
        evs,
        vec![
            CaptureEvent::CaptureError { error: "Mic: No input device found".to_string() },
            CaptureEvent::CaptureStopped,
        ]
    );
    assert!(!s.is_recording());
    assert!(s.finish(g, Ok(())).is_empty());
    let (again, none) = s.fail(g, CaptureError::NoInputDevice);
    assert!(again.is_empty());
    assert_eq!(none, None);
}
